//! What holds of all the threads together, in every state that they can reach.

use vstd::prelude::*;

use crate::state::{ErrorKind, Failure};
use crate::system::{
    has_timed_out, holds_lock, is_polling, sleeps_past_its_deadline, Place, Step, System, Task,
};
use crate::time::{nanos_left, poll_covers_the_time_left, poll_millis, Duration, Instant};
use crate::waiter::{first_drain, CreationView, PurposeView, SleepingView, TurnView};

verus! {

// ---------------------------------------------------------------------------------------------
// The invariant
// ---------------------------------------------------------------------------------------------

spec fn result_ok<E>(sys: System<E>, task: Task<E>, result: Result<bool, E>) -> bool {
    match result {
        Ok(true) => task.marker < sys.state.signal_marker,
        Ok(false) => task.maybe_deadline is Some,
        Err(_) => true,
    }
}

spec fn poller_settles<E>(sys: System<E>) -> bool {
    match sys.poller {
        Some(u) => sys.place(u) matches Place::Waiting(TurnView::Relock { .. }),
        None => false,
    }
}

spec fn turn_ok<E>(sys: System<E>, task: Task<E>, turn: TurnView<E>) -> bool {
    match turn {
        TurnView::Return { result, notify_all } => result_ok(sys, task, result),
        TurnView::Clock(clock) => {
            &&& task.maybe_deadline == Some(clock.deadline)
            &&& task.marker == sys.state.signal_marker
            &&& clock.purpose matches PurposeView::Sleep { marker } ==> marker == task.marker
                && sys.state.someone_is_polling
        },
        TurnView::Sleep { timeout, sleeping } => {
            &&& sleeping.marker == task.marker
            &&& sleeping.maybe_deadline == task.maybe_deadline
            &&& !task.notified ==> sys.state.someone_is_polling && (task.marker
                == sys.state.signal_marker || poller_settles(sys))
            &&& !task.notified && timeout is None && task.maybe_deadline is Some ==> sys.pipe > 0
                || sys.drain_has_found_bytes() || poller_settles(sys)
        },
        TurnView::Peek(peeking) => {
            &&& peeking.marker == task.marker
            &&& peeking.maybe_deadline == task.maybe_deadline
            &&& task.marker == sys.state.signal_marker
            &&& task.maybe_deadline is Some
            &&& sys.state.someone_is_polling
        },
        TurnView::Read(draining) => {
            &&& draining.maybe_deadline == task.maybe_deadline
            &&& task.marker == sys.state.signal_marker
            &&& !draining.polling ==> !sys.state.someone_is_polling
            &&& draining.expired ==> draining.polling && task.maybe_deadline is Some
        },
        TurnView::Poll { timeout_ms, maybe_deadline } => {
            &&& maybe_deadline == task.maybe_deadline
            &&& task.marker == sys.state.signal_marker
            &&& timeout_ms < 0 <==> maybe_deadline is None
        },
        TurnView::Relock { result } => result_ok(sys, task, result),
    }
}

spec fn place_ok<E>(sys: System<E>, task: Task<E>) -> bool {
    match task.place {
        Place::Creating(CreationView::Open) => !sys.state.reader_is_open,
        Place::Creating(CreationView::Read { signaled }) => sys.state.reader_is_open
            && !sys.state.someone_is_polling,
        Place::Creating(CreationView::Return(result)) => result is Err,
        Place::Holding => sys.state.reader_is_open && task.marker <= sys.state.signal_marker,
        Place::Waiting(turn) => {
            &&& sys.state.reader_is_open
            &&& task.marker <= sys.state.signal_marker
            &&& turn_ok(sys, task, turn)
        },
        Place::Gone => true,
    }
}

/// What is known of the signals that have been delivered since a waiter was created.
spec fn news_ok<E>(sys: System<E>, u: int) -> bool {
    let task = sys.tasks[u];
    sys.has_waiter(u) ==> {
        &&& task.created_at <= sys.delivered
        &&& sys.owes_signal(u) ==> sys.has_news(u)
        &&& task.emptied_at matches Some(emptied_at) ==> {
            &&& emptied_at <= sys.delivered
            &&& sys.has_news(u) ==> emptied_at < sys.delivered
        }
    }
}

/// What is known of a task. In particular the one that the system says holds the lock is the one
/// that does, and likewise for the role of the one that polls.
spec fn task_ok<E>(sys: System<E>, u: int) -> bool {
    &&& place_ok(sys, sys.tasks[u])
    &&& news_ok(sys, u)
    &&& holds_lock(sys.place(u)) <==> sys.lock == Some(u)
    &&& is_polling(sys.place(u)) <==> sys.poller == Some(u)
}

spec fn inv<E>(sys: System<E>) -> bool {
    &&& forall|u: int| #[trigger] sys.has(u) ==> task_ok(sys, u)
    &&& sys.lock matches Some(u) ==> sys.has(u)
    &&& sys.poller matches Some(u) ==> sys.has(u)
    &&& sys.state.someone_is_polling <==> sys.poller is Some
    &&& sys.lost_at <= sys.delivered
}

/// Every step keeps the invariant.
proof fn lemma_step<E>(sys: System<E>, step: Step<E>)
    requires
        inv(sys),
        sys.enables(step),
    ensures
        inv(sys.after(step)),
{
    let next = sys.after(step);
    let t = step.mover(sys);
    assert(sys.has(t) ==> task_ok(sys, t));
    assert forall|u: int| #[trigger] next.has(u) implies task_ok(next, u) by {
        assert(sys.has(u) ==> task_ok(sys, u));
    }
}

proof fn lemma_steps<E>(sys: System<E>, steps: Seq<Step<E>>)
    requires
        inv(sys),
        sys.enables_all(steps),
    ensures
        inv(sys.after_all(steps)),
    decreases steps.len(),
{
    if steps.len() > 0 {
        lemma_step(sys, steps[0]);
        lemma_steps(sys.after(steps[0]), steps.skip(1));
    }
}

proof fn lemma_reachable<E>(sys: System<E>)
    requires
        sys.reachable(),
    ensures
        inv(sys),
{
    let steps = choose|steps: Seq<Step<E>>|
        System::<E>::start().enables_all(steps) && sys == #[trigger] System::<E>::start().after_all(
            steps,
        );
    lemma_steps(System::<E>::start(), steps);
}

// ---------------------------------------------------------------------------------------------
// Roles
// ---------------------------------------------------------------------------------------------

/// Only one task at a time keeps the lock over several decisions, and the system knows which.
pub proof fn lock_is_exclusive<E>(sys: System<E>)
    requires
        sys.reachable(),
    ensures
        forall|t: int| #[trigger]
            sys.has(t) ==> (holds_lock(sys.place(t)) <==> sys.lock == Some(t)),
        sys.lock matches Some(t) ==> sys.has(t),
{
    lemma_reachable(sys);
}

/// Only one task at a time polls.
pub proof fn one_task_polls<E>(sys: System<E>, t: int, u: int)
    requires
        sys.reachable(),
        sys.has(t),
        sys.has(u),
        is_polling(sys.place(t)),
        is_polling(sys.place(u)),
    ensures
        t == u,
{
    lemma_reachable(sys);
}

/// The shared state says that someone is polling just when some task is, and the system knows
/// which.
pub proof fn polling_is_announced<E>(sys: System<E>)
    requires
        sys.reachable(),
    ensures
        forall|t: int| #[trigger]
            sys.has(t) ==> (is_polling(sys.place(t)) <==> sys.poller == Some(t)),
        sys.poller matches Some(t) ==> sys.has(t),
        sys.state.someone_is_polling <==> exists|t: int| #[trigger]
            sys.has(t) && is_polling(sys.place(t)),
{
    lemma_reachable(sys);
    if sys.state.someone_is_polling {
        assert(sys.has(sys.poller->0));
    }
}

/// While someone polls, no one else reads from the pipe.
pub proof fn only_the_polling_task_reads<E>(sys: System<E>, t: int)
    requires
        sys.reachable(),
        sys.state.someone_is_polling,
        sys.has(t),
        (sys.place(t) matches Place::Creating(CreationView::Read { .. })) || (sys.place(
            t,
        ) matches Place::Waiting(TurnView::Read(_))),
    ensures
        sys.poller == Some(t),
{
    lemma_reachable(sys);
}

/// While someone polls, no one else replaces the marker.
pub proof fn only_the_polling_task_replaces_the_marker<E>(sys: System<E>, step: Step<E>)
    requires
        sys.reachable(),
        sys.enables(step),
        sys.state.someone_is_polling,
        sys.after(step).state.signal_marker != sys.state.signal_marker,
    ensures
        step matches Step::Read { task, read } && sys.poller == Some(task),
{
    lemma_reachable(sys);
    match step {
        Step::CreationRead { task, read } => {
            assert(sys.has(task));
        },
        Step::Read { task, read } => {
            assert(sys.has(task));
        },
        _ => {},
    }
}

/// While a task is opening the pipe, the pipe is not open, and no other task is opening it. And no
/// task gets to wait, or to look into the pipe, before it is open.
pub proof fn pipe_is_opened_once<E>(sys: System<E>, t: int, u: int)
    requires
        sys.reachable(),
        sys.has(t),
        sys.has(u),
    ensures
        sys.place(t) == Place::Creating(CreationView::<E>::Open) ==> {
            &&& !sys.state.reader_is_open
            &&& sys.place(u) == Place::Creating(CreationView::<E>::Open) ==> t == u
        },
        sys.has_waiter(t) ==> sys.state.reader_is_open,
        sys.place(t) matches Place::Creating(CreationView::Read { .. })
            ==> sys.state.reader_is_open,
{
    lemma_reachable(sys);
}

/// An open pipe stays open, and the marker never goes back. So a waiter whose marker is no longer
/// the current one keeps its news, whatever happens next.
pub proof fn news_stays_news<E>(sys: System<E>, steps: Seq<Step<E>>)
    requires
        sys.enables_all(steps),
    ensures
        sys.state.reader_is_open ==> sys.after_all(steps).state.reader_is_open,
        sys.state.signal_marker <= sys.after_all(steps).state.signal_marker,
    decreases steps.len(),
{
    if steps.len() > 0 {
        news_stays_news(sys.after(steps[0]), steps.skip(1));
    }
}

/// No waiter's marker is ahead of the current one. So when signals are observed and the marker is
/// replaced, the new one differs from that of every waiter there is.
pub proof fn replaced_marker_is_news_to_everyone<E>(sys: System<E>, t: int)
    requires
        sys.reachable(),
        sys.has_waiter(t),
    ensures
        sys.tasks[t].marker <= sys.state.signal_marker,
        sys.tasks[t].marker != sys.state.with_signal().signal_marker,
{
    lemma_reachable(sys);
}

/// What can be reached goes on to be reachable.
pub proof fn steps_lead_to_reachable_states<E>(sys: System<E>, step: Step<E>)
    requires
        sys.reachable(),
        sys.enables(step),
    ensures
        sys.after(step).reachable(),
{
    let start = System::<E>::start();
    let steps = choose|steps: Seq<Step<E>>|
        start.enables_all(steps) && sys == #[trigger] start.after_all(steps);
    lemma_one_more_step(start, steps, step);
    assert(start.enables_all(steps.push(step)) && sys.after(step) == start.after_all(
        steps.push(step),
    ));
}

proof fn lemma_one_more_step<E>(sys: System<E>, steps: Seq<Step<E>>, step: Step<E>)
    requires
        sys.enables_all(steps),
        sys.after_all(steps).enables(step),
    ensures
        sys.enables_all(steps.push(step)),
        sys.after_all(steps.push(step)) == sys.after_all(steps).after(step),
    decreases steps.len(),
{
    let longer = steps.push(step);
    if steps.len() > 0 {
        assert(longer.skip(1) =~= steps.skip(1).push(step));
        lemma_one_more_step(sys.after(steps[0]), steps.skip(1), step);
    } else {
        assert(longer.skip(1) =~= Seq::<Step<E>>::empty());
        assert(sys.after(step).enables_all(longer.skip(1)));
        assert(sys.after(step).after_all(longer.skip(1)) == sys.after(step));
    }
}

// ---------------------------------------------------------------------------------------------
// What a wait returns
// ---------------------------------------------------------------------------------------------

/// There are no spurious wakeups. If a wait returns `true`, signals have been observed since the
/// waiter was created. If the creation of the waiter found the pipe empty at some point, a signal
/// has even been delivered after that point.
pub proof fn no_wakeup_without_a_signal<E>(sys: System<E>, t: int, notify_all: bool)
    requires
        sys.reachable(),
        sys.has(t),
        sys.place(t) == Place::Waiting(TurnView::<E>::Return { result: Ok(true), notify_all }),
    ensures
        sys.tasks[t].marker < sys.state.signal_marker,
        sys.tasks[t].emptied_at matches Some(emptied_at) ==> emptied_at < sys.delivered,
{
    lemma_reachable(sys);
}

/// A wait that has no deadline does not time out.
pub proof fn no_timeout_without_a_deadline<E>(sys: System<E>, t: int, notify_all: bool)
    requires
        sys.reachable(),
        sys.has(t),
        sys.place(t) == Place::Waiting(TurnView::<E>::Return { result: Ok(false), notify_all }),
    ensures
        sys.tasks[t].maybe_deadline is Some,
{
    lemma_reachable(sys);
}

/// A wait times out only if it has a deadline, and only if the pipe is empty and the waiter is owed
/// no signal when that is decided. So what was delivered before the deadline makes it return
/// `true`.
pub proof fn timeout_only_without_a_signal<E>(sys: System<E>, step: Step<E>, t: int)
    requires
        sys.reachable(),
        sys.enables(step),
        sys.has(t),
        !has_timed_out(sys.place(t)),
        has_timed_out(sys.after(step).place(t)),
    ensures
        sys.pipe == 0,
        !sys.owes_signal(t),
        sys.tasks[t].maybe_deadline is Some,
{
    lemma_reachable(sys);
    assert(sys.has(t));
    assert(t == step.mover(sys));
}

/// A task that polls gives up only in a drain that began after the clock had shown that the
/// deadline was in the past.
pub proof fn polling_gives_up_only_after_the_deadline<E>(sys: System<E>, step: Step<E>, t: int)
    requires
        sys.reachable(),
        sys.enables(step),
        sys.has(t),
        is_polling(sys.place(t)),
        !has_timed_out(sys.place(t)),
        has_timed_out(sys.after(step).place(t)),
    ensures
        step matches Step::Read { task, read } && task == t,
        sys.place(t) matches Place::Waiting(TurnView::Read(draining)) && draining.expired,
{
    lemma_reachable(sys);
    assert(sys.has(t));
    assert(t == step.mover(sys));
}

/// A task that waits goes by the waiter and the deadline that it began with, whatever it is about
/// to do.
pub proof fn waiter_and_deadline_are_kept<E>(sys: System<E>, t: int)
    requires
        sys.reachable(),
        sys.has(t),
    ensures
        ({
            let task = sys.tasks[t];
            match task.place {
                Place::Waiting(TurnView::Clock(clock)) => {
                    &&& task.maybe_deadline == Some(clock.deadline)
                    &&& clock.purpose matches PurposeView::Sleep { marker } ==> marker
                        == task.marker
                },
                Place::Waiting(TurnView::Sleep { timeout, sleeping }) => {
                    &&& task.maybe_deadline == sleeping.maybe_deadline
                    &&& task.marker == sleeping.marker
                },
                Place::Waiting(TurnView::Peek(peeking)) => {
                    &&& task.maybe_deadline == peeking.maybe_deadline
                    &&& task.marker == peeking.marker
                },
                Place::Waiting(TurnView::Read(draining)) => task.maybe_deadline
                    == draining.maybe_deadline,
                Place::Waiting(TurnView::Poll { timeout_ms, maybe_deadline }) => {
                    task.maybe_deadline == maybe_deadline
                },
                _ => true,
            }
        }),
{
    lemma_reachable(sys);
}

/// A drain counts as one after the deadline just if the clock had shown a later time before it
/// began.
pub proof fn expiry_is_read_off_the_clock<E>(sys: System<E>, step: Step<E>, t: int)
    requires
        sys.reachable(),
        sys.enables(step),
        sys.has(t),
        sys.after(step).has(t),
    ensures
        sys.after(step).place(t) matches Place::Waiting(TurnView::Read(draining)) ==> {
            ||| sys.place(t) matches Place::Waiting(TurnView::Read(before)) && before.expired
                == draining.expired
            ||| step matches Step::Clock { task, now } && task == t && (
            sys.tasks[t].maybe_deadline matches Some(deadline) && (draining.expired <==> now.nanos
                > deadline.nanos))
            ||| !draining.expired && (step is Wait || step is Woken || step is Polled)
        },
{
    lemma_reachable(sys);
    assert(sys.has(t));
}

/// A poll with a deadline lasts until the deadline, rounded up to whole milliseconds and as far as
/// a C `int` goes. So the timeout is never negative, and zero just if the deadline is not in the
/// future.
pub proof fn poll_lasts_until_the_deadline<E>(
    sys: System<E>,
    t: int,
    now: Instant,
    timeout_ms: i32,
    maybe_deadline: Option<Instant>,
)
    requires
        sys.reachable(),
        sys.enables(Step::Clock { task: t, now }),
        sys.after(Step::Clock { task: t, now }).place(t) == Place::Waiting(
            TurnView::<E>::Poll { timeout_ms, maybe_deadline },
        ),
    ensures
        sys.tasks[t].maybe_deadline == maybe_deadline,
        maybe_deadline matches Some(deadline) && {
            let left = nanos_left(deadline, now);
            &&& timeout_ms == poll_millis(left)
            &&& timeout_ms >= 0
            &&& timeout_ms == 0 <==> deadline.nanos <= now.nanos
            &&& timeout_ms < i32::MAX ==> timeout_ms * 1_000_000 >= left
            &&& (timeout_ms - 1) * 1_000_000 < left
        },
{
    lemma_reachable(sys);
    assert(sys.has(t));
    poll_covers_the_time_left(nanos_left(maybe_deadline->0, now));
}

/// A poll goes on for an unlimited time just if there is no deadline.
pub proof fn poll_is_unlimited_without_a_deadline<E>(
    sys: System<E>,
    t: int,
    timeout_ms: i32,
    maybe_deadline: Option<Instant>,
)
    requires
        sys.reachable(),
        sys.has(t),
        sys.place(t) == Place::Waiting(TurnView::<E>::Poll { timeout_ms, maybe_deadline }),
    ensures
        timeout_ms < 0 <==> sys.tasks[t].maybe_deadline is None,
{
    lemma_reachable(sys);
}

/// A task that sleeps comes to the point of giving up only if it has a deadline and its sleep ended
/// for that reason, while another task is polling and has observed no signal since the sleeper's
/// waiter was created.
pub proof fn sleeper_gives_up_only_when_its_time_is_up<E>(sys: System<E>, t: int, timed_out: bool)
    requires
        sys.reachable(),
        sys.enables(Step::Woken { task: t, timed_out }),
        sys.after(Step::Woken { task: t, timed_out }).place(t) matches Place::Waiting(
            TurnView::Peek(_),
        ),
    ensures
        timed_out,
        sys.tasks[t].maybe_deadline is Some,
        sys.tasks[t].marker == sys.state.signal_marker,
        sys.poller matches Some(u) && u != t && sys.has(u) && is_polling(sys.place(u)),
{
    lemma_reachable(sys);
    assert(sys.has(t));
    assert(sys.has(sys.poller->0));
}

/// Giving up takes another look at the pipe. If there is something in it, the sleeper goes back to
/// sleep, this time for as long as it takes.
pub proof fn sleeper_stays_for_what_is_in_the_pipe<E>(
    sys: System<E>,
    t: int,
    peeked: Result<bool, Failure<E>>,
)
    requires
        sys.reachable(),
        sys.enables(Step::Peeked { task: t, peeked }),
        peeked is Ok,
    ensures
        ({
            let next = sys.after(Step::Peeked { task: t, peeked });
            if sys.pipe > 0 {
                &&& next.place(t) matches Place::Waiting(TurnView::Sleep { timeout, sleeping })
                    && timeout is None
                &&& !next.tasks[t].notified
            } else {
                next.place(t) == Place::Waiting(
                    TurnView::<E>::Return { result: Ok(false), notify_all: false },
                )
            }
        }),
{
    lemma_reachable(sys);
    assert(sys.has(t));
}

/// A sleep with a deadline does not end before the deadline because its time is up.
pub proof fn sleep_lasts_until_the_deadline<E>(
    sys: System<E>,
    t: int,
    now: Instant,
    timeout: Option<Duration>,
    sleeping: SleepingView,
)
    requires
        sys.reachable(),
        sys.enables(Step::Clock { task: t, now }),
        sys.after(Step::Clock { task: t, now }).place(t) == Place::Waiting(
            TurnView::<E>::Sleep { timeout, sleeping },
        ),
    ensures
        sys.tasks[t].maybe_deadline matches Some(deadline) && (timeout matches Some(timeout)
            && now.nanos + timeout.nanos >= deadline.nanos && timeout.nanos == nanos_left(
            deadline,
            now,
        )),
{
    lemma_reachable(sys);
    assert(sys.has(t));
}

/// A waiter that has been created by draining the pipe does not wake up for signals from before:
/// the pipe is empty, and the marker is current.
pub proof fn creation_forgets_earlier_signals<E>(
    sys: System<E>,
    t: int,
    read: Result<usize, Failure<E>>,
)
    requires
        sys.reachable(),
        sys.enables(Step::CreationRead { task: t, read }),
        read matches Err(failure) && failure.kind == ErrorKind::WouldBlock,
    ensures
        ({
            let next = sys.after(Step::CreationRead { task: t, read });
            &&& next.place(t) is Holding
            &&& !next.has_news(t)
        }),
{
    lemma_reachable(sys);
    assert(sys.has(t));
}

// ---------------------------------------------------------------------------------------------
// No signal is missed
// ---------------------------------------------------------------------------------------------

/// A signal that is delivered after a waiter was created is buffered for it, until the end of its
/// wait: it is in the pipe, or just taken out of it, or visible in the marker. Only a drain that
/// fails after it has found bytes can lose signals, and it loses none that are delivered later.
pub proof fn signals_are_buffered<E>(sys: System<E>, t: int)
    requires
        sys.reachable(),
        sys.has_waiter(t),
        sys.owes_signal(t),
    ensures
        sys.has_news(t),
{
    lemma_reachable(sys);
}

/// A signal is owed to every waiter that exists when it is delivered.
pub proof fn signal_is_owed_to_every_waiter<E>(sys: System<E>, full: bool, t: int)
    requires
        sys.reachable(),
        sys.enables(Step::Signal { full }),
        sys.has_waiter(t),
    ensures
        sys.after(Step::Signal { full }).owes_signal(t),
{
    lemma_reachable(sys);
}

/// If a waiter is owed a signal, then its wait is over as soon as it begins, or else there is
/// something in the pipe. In that case it looks into the pipe right away, or leaves that to the
/// task that is polling, whatever the deadline.
pub proof fn wait_does_not_block_after_a_signal<E>(
    sys: System<E>,
    t: int,
    maybe_deadline: Option<Instant>,
)
    requires
        sys.reachable(),
        sys.enables(Step::Wait { task: t, maybe_deadline }),
        sys.owes_signal(t),
    ensures
        ({
            let next = sys.after(Step::Wait { task: t, maybe_deadline });
            ||| next.place(t) == Place::Waiting(
                TurnView::<E>::Return { result: Ok(true), notify_all: false },
            )
            ||| {
                &&& next.pipe > 0
                &&& next.state.someone_is_polling || (next.place(t) matches Place::Waiting(
                    TurnView::Read(_),
                ))
            }
        }),
{
    lemma_reachable(sys);
    assert(sys.has(t));
}

/// A signal that has been observed ends the wait of a task that wakes up, even if its time is up.
pub proof fn woken_task_sees_an_observed_signal<E>(sys: System<E>, t: int, timed_out: bool)
    requires
        sys.reachable(),
        sys.enables(Step::Woken { task: t, timed_out }),
        sys.tasks[t].marker != sys.state.signal_marker,
    ensures
        sys.after(Step::Woken { task: t, timed_out }).place(t) == Place::Waiting(
            TurnView::<E>::Return { result: Ok(true), notify_all: false },
        ),
{
    lemma_reachable(sys);
    assert(sys.has(t));
}

/// If the waiter of a task that wakes up is owed a signal, then its wait is over with `true`, or
/// else it is not over, even if its time is up, and there is something in the pipe. In that case
/// the task looks into the pipe right away, unless another one is polling.
pub proof fn woken_task_does_not_miss_a_signal<E>(sys: System<E>, t: int, timed_out: bool)
    requires
        sys.reachable(),
        sys.enables(Step::Woken { task: t, timed_out }),
        sys.owes_signal(t),
    ensures
        ({
            let next = sys.after(Step::Woken { task: t, timed_out });
            ||| next.place(t) == Place::Waiting(
                TurnView::<E>::Return { result: Ok(true), notify_all: false },
            )
            ||| {
                &&& next.pipe > 0
                &&& !(next.place(t) matches Place::Waiting(TurnView::Return { .. }))
                &&& next.state.someone_is_polling || (next.place(t) matches Place::Waiting(
                    TurnView::Read(_),
                ))
            }
        }),
{
    lemma_reachable(sys);
    assert(sys.has(t));
}

/// A task announces that it polls only after it has found the pipe empty, and before it releases
/// the lock. So whoever sees the announcement can rely on that check.
pub proof fn polling_starts_with_an_empty_pipe<E>(sys: System<E>, step: Step<E>)
    requires
        sys.reachable(),
        sys.enables(step),
        !sys.state.someone_is_polling,
        sys.after(step).state.someone_is_polling,
    ensures
        sys.pipe == 0,
        sys.after(step).pipe == 0,
        sys.lock matches Some(t) && sys.after(step).poller == Some(t),
{
    lemma_reachable(sys);
    assert(step matches Step::Read { task, read } && sys.has(task));
}

/// If a waiter is owed a signal, a drain that gets to the end of the pipe tells so, and the wait is
/// going to return `true`, even if its time is up.
pub proof fn drain_notices_signals<E>(sys: System<E>, t: int, read: Result<usize, Failure<E>>)
    requires
        sys.reachable(),
        sys.enables(Step::Read { task: t, read }),
        sys.owes_signal(t),
        read matches Err(failure) && failure.kind == ErrorKind::WouldBlock,
    ensures
        ({
            let next = sys.after(Step::Read { task: t, read });
            ||| next.place(t) == Place::Waiting(
                TurnView::<E>::Return { result: Ok(true), notify_all: false },
            )
            ||| next.place(t) == Place::Waiting(TurnView::<E>::Relock { result: Ok(true) })
        }),
{
    lemma_reachable(sys);
    assert(sys.has(t));
}

/// If its waiter is owed a signal, a task that polls does not stay blocked: there is something in
/// the pipe.
pub proof fn poll_does_not_block_after_a_signal<E>(sys: System<E>, t: int)
    requires
        sys.reachable(),
        sys.has(t),
        sys.place(t) matches Place::Waiting(TurnView::Poll { .. }),
        sys.owes_signal(t),
    ensures
        sys.pipe > 0,
{
    lemma_reachable(sys);
    if sys.lock is Some {
        assert(sys.has(sys.lock->0));
    }
}

/// A task that sleeps and has not been notified has someone to notify it: some task is polling.
/// And if the sleeper's waiter is owed a signal, or if it sleeps with no timeout although it has a
/// deadline, that task does not stay blocked: there is something in the pipe, or it has moved on
/// from the poll.
pub proof fn sleeper_is_going_to_be_woken<E>(sys: System<E>, t: int)
    requires
        sys.reachable(),
        sys.has(t),
        sys.place(t) matches Place::Waiting(TurnView::Sleep { .. }),
        !sys.tasks[t].notified,
    ensures
        sys.state.someone_is_polling,
        sys.poller matches Some(u) && {
            &&& sys.has(u)
            &&& is_polling(sys.place(u))
            &&& sys.owes_signal(t) || sleeps_past_its_deadline(sys.tasks[t]) ==> (sys.place(
                u,
            ) matches Place::Waiting(TurnView::Poll { .. }) ==> sys.pipe > 0)
        },
{
    lemma_reachable(sys);
    let u = sys.poller->0;
    assert(sys.has(u));
    if sys.lock is Some {
        assert(sys.has(sys.lock->0));
    }
}

/// Whatever came of the polling, afterwards nobody polls, everyone who sleeps has been notified,
/// and the result is handed on.
pub proof fn polling_ends_by_waking_everyone<E>(sys: System<E>, t: int, result: Result<bool, E>)
    requires
        sys.reachable(),
        sys.enables(Step::Relocked { task: t }),
        sys.place(t) == Place::Waiting(TurnView::Relock { result }),
    ensures
        ({
            let next = sys.after(Step::Relocked { task: t });
            &&& !next.state.someone_is_polling
            &&& next.place(t) == Place::Waiting(TurnView::Return { result, notify_all: true })
            &&& forall|u: int| #[trigger]
                next.has(u) && (next.place(u) matches Place::Waiting(TurnView::Sleep { .. }))
                    ==> next.tasks[u].notified
        }),
{
    lemma_reachable(sys);
    let next = sys.after(Step::Relocked { task: t });
    assert forall|u: int| #[trigger] next.has(u) && (next.place(u) matches Place::Waiting(
        TurnView::Sleep { .. },
    )) implies next.tasks[u].notified by {
        assert(sys.has(u));
    }
}

/// Waking up before its time does not end a task's wait if no signal has been observed. If nobody
/// polls any more, the task takes over, and looks into the pipe before it lets go of the lock. Else
/// it goes back to sleep, after a look at the clock if it has a deadline.
pub proof fn wakeup_alone_ends_no_wait<E>(sys: System<E>, t: int)
    requires
        sys.reachable(),
        sys.enables(Step::Woken { task: t, timed_out: false }),
        sys.tasks[t].marker == sys.state.signal_marker,
    ensures
        ({
            let next = sys.after(Step::Woken { task: t, timed_out: false });
            let maybe_deadline = sys.tasks[t].maybe_deadline;
            if !sys.state.someone_is_polling {
                &&& next.place(t) == Place::Waiting(
                    TurnView::<E>::Read(first_drain(maybe_deadline)),
                )
                &&& next.lock == Some(t)
            } else if maybe_deadline is Some {
                next.place(t) matches Place::Waiting(TurnView::Clock(clock)) && clock.purpose
                    is Sleep
            } else {
                next.place(t) matches Place::Waiting(TurnView::Sleep { timeout, sleeping })
                    && timeout is None
            }
        }),
{
    lemma_reachable(sys);
    assert(sys.has(t));
}

} // verus!
