//! How a task comes to be where it is.
//!
//! These laws read a step backwards and forwards: what must have happened for a task to get to a
//! place, and what becomes of it there. They hold of every step that can be taken in any state that
//! can be reached.

use vstd::prelude::*;

use crate::deadlines::result;
use crate::laws::{
    lock_is_exclusive, only_the_polling_task_reads, pipe_is_opened_once,
    poll_is_unlimited_without_a_deadline, poll_lasts_until_the_deadline, polling_is_announced,
    sleeper_is_going_to_be_woken, steps_lead_to_reachable_states, waiter_and_deadline_are_kept,
};
use crate::state::{ErrorKind, Failure};
use crate::system::{has_timed_out, is_polling, Place, Step, System};
use crate::time::{Duration, Instant};
use crate::waiter::{CreationView, DrainingView, SleepingView, TurnView};

verus! {

/// Whether a task is about to read from the pipe, or in the middle of it.
pub open spec fn is_draining<E>(place: Place<E>) -> bool {
    match place {
        Place::Creating(CreationView::Read { .. }) => true,
        Place::Waiting(TurnView::Read(_)) => true,
        _ => false,
    }
}

// ---------------------------------------------------------------------------------------------
// Creation
// ---------------------------------------------------------------------------------------------

/// A creation begins by opening the pipe just if that is not open, and never fails without trying.
pub proof fn creation_opens_a_closed_pipe<E>(sys: System<E>)
    requires
        sys.reachable(),
        sys.enables(Step::Create),
    ensures
        ({
            let t = sys.tasks.len() as int;
            let next = sys.after(Step::Create);
            &&& next.has(t)
            &&& next.place(t) == Place::Creating(CreationView::<E>::Open)
                <==> !sys.state.reader_is_open
            &&& next.place(t) is Holding ==> sys.state.someone_is_polling
            &&& !(next.place(t) matches Place::Creating(CreationView::Return(_)))
            &&& next.pipe == sys.pipe
            &&& next.state == sys.state
        }),
{
}

/// At the start of the process the pipe is not open, nobody polls, and no signal has been observed.
/// So the first creation opens the pipe.
pub proof fn process_starts_with_a_closed_pipe<E>()
    ensures
        !System::<E>::start().state.reader_is_open,
        !System::<E>::start().state.someone_is_polling,
        System::<E>::start().state.signal_marker == 0,
        System::<E>::start().enables(Step::Create),
        System::<E>::start().after(Step::Create).place(0) == Place::Creating(
            CreationView::<E>::Open,
        ),
{
}

/// When a task gets its waiter, the waiter is up to date. If nobody polls at that time, the pipe
/// has been found empty and no signal from before can wake the waiter. If someone polls, the pipe
/// has been left alone.
pub proof fn waiter_is_created_without_old_signals<E>(sys: System<E>, step: Step<E>, t: int)
    requires
        sys.reachable(),
        sys.enables(step),
        sys.has(t) ==> !(sys.place(t) is Holding),
        sys.after(step).has(t),
        sys.after(step).place(t) is Holding,
    ensures
        ({
            let next = sys.after(step);
            let task = next.tasks[t];
            &&& task.marker == next.state.signal_marker
            &&& task.created_at == next.delivered
            &&& next.state.reader_is_open
            &&& !next.state.someone_is_polling ==> {
                &&& task.emptied_at == Some(next.delivered)
                &&& next.pipe == 0
                &&& !next.has_news(t)
            }
            &&& next.state.someone_is_polling ==> {
                &&& sys.pipe == next.pipe
                &&& sys.state.signal_marker == next.state.signal_marker
            }
        }),
{
    lock_is_exclusive(sys);
    assert(t == step.mover(sys));
    if sys.has(t) {
        pipe_is_opened_once(sys, t, t);
        polling_is_announced(sys);
        if sys.state.someone_is_polling && is_draining(sys.place(t)) {
            only_the_polling_task_reads(sys, t);
        }
    }
}

/// A creation fails just if a system call of its own fails, and with the error of that call. An
/// empty pipe is no failure.
pub proof fn creation_fails_with_its_own_error<E>(sys: System<E>, step: Step<E>, t: int, error: E)
    requires
        sys.reachable(),
        sys.enables(step),
        sys.has(t) ==> sys.place(t) != Place::Creating(CreationView::<E>::Return(Err(error))),
        sys.after(step).has(t),
    ensures
        sys.after(step).place(t) == Place::Creating(CreationView::<E>::Return(Err(error))) <==> {
            ||| step == (Step::Opened { task: t, opened: Err::<(), E>(error) })
            ||| step matches Step::CreationRead { task, read: Err(failure) } && task == t
                && failure.error == error && failure.kind != ErrorKind::WouldBlock
        },
{
}

/// After an attempt to open the pipe, it is open just if the attempt has worked.
pub proof fn opening_is_remembered<E>(sys: System<E>, t: int, opened: Result<(), E>)
    requires
        sys.reachable(),
        sys.enables(Step::Opened { task: t, opened }),
    ensures
        sys.after(Step::Opened { task: t, opened }).state.reader_is_open <==> opened is Ok,
        opened is Ok ==> {
            let next = sys.after(Step::Opened { task: t, opened });
            next.place(t) is Holding <==> next.state.someone_is_polling
        },
        sys.after(Step::Opened { task: t, opened }).state.signal_marker == sys.state.signal_marker,
{
    pipe_is_opened_once(sys, t, t);
}

// ---------------------------------------------------------------------------------------------
// Drains
// ---------------------------------------------------------------------------------------------

/// A drain goes on for as long as reads find bytes, and if it does not fail, it ends just when it
/// has found the pipe empty.
pub proof fn drain_ends_with_an_empty_pipe<E>(sys: System<E>, step: Step<E>, t: int)
    requires
        sys.reachable(),
        sys.enables(step),
        sys.has(t),
        t == step.mover(sys),
        is_draining(sys.place(t)),
    ensures
        ({
            let next = sys.after(step);
            let read: Result<usize, Failure<E>> = match step {
                Step::CreationRead { task, read } => read,
                Step::Read { task, read } => read,
                _ => arbitrary(),
            };
            &&& step is CreationRead || step is Read
            &&& is_draining(next.place(t)) <==> read is Ok
            &&& read matches Err(failure) ==> (failure.kind == ErrorKind::WouldBlock ==> next.pipe
                == 0)
        }),
{
}

/// The marker goes up by one when a drain that has found bytes gets to the end of the pipe, and
/// never otherwise. Apart from that a step that changes the shared state is one that opens the
/// pipe, takes on the polling or gives it up.
pub proof fn marker_counts_drains<E>(sys: System<E>, step: Step<E>)
    requires
        sys.reachable(),
        sys.enables(step),
    ensures
        ({
            let next = sys.after(step);
            let read: Option<Result<usize, Failure<E>>> = match step {
                Step::CreationRead { task, read } => Some(read),
                Step::Read { task, read } => Some(read),
                _ => None,
            };
            let observed = sys.drain_has_found_bytes() && (read matches Some(Err(failure))
                && failure.kind == ErrorKind::WouldBlock);
            &&& next.state.signal_marker == sys.state.signal_marker + if observed {
                1int
            } else {
                0
            }
            &&& next.state.reader_is_open != sys.state.reader_is_open ==> (
            step matches Step::Opened { task, opened } && opened is Ok)
            &&& next.state.someone_is_polling != sys.state.someone_is_polling ==> step is Read
                || step is Relocked
        }),
{
    lock_is_exclusive(sys);
    assert(step is CreationRead || step is Read ==> sys.has(step.mover(sys)));
}

/// What a read makes of a wait. Bytes mean to read on. At the end of the pipe, a signal that has
/// been found ends the wait with `true`. If there is none, a thread that has not been polling
/// becomes the one that polls, whatever its deadline. A thread that has been polling goes on,
/// unless its deadline had already passed before the drain. A failed read ends the wait with the
/// error.
pub proof fn read_decides_the_wait<E>(
    sys: System<E>,
    t: int,
    draining: DrainingView,
    read: Result<usize, Failure<E>>,
)
    requires
        sys.reachable(),
        sys.enables(Step::Read { task: t, read }),
        sys.place(t) == Place::Waiting(TurnView::<E>::Read(draining)),
    ensures
        ({
            let next = sys.after(Step::Read { task: t, read });
            match read {
                Ok(_) => {
                    &&& next.place(t) == Place::Waiting(
                        TurnView::<E>::Read(
                            DrainingView {
                                maybe_deadline: draining.maybe_deadline,
                                polling: draining.polling,
                                expired: draining.expired,
                                signaled: true,
                            },
                        ),
                    )
                    &&& next.state == sys.state
                },
                Err(failure) => if failure.kind != ErrorKind::WouldBlock {
                    &&& result(next.place(t)) == Some(Err::<bool, E>(failure.error))
                    &&& next.state == sys.state
                } else if draining.signaled {
                    &&& result(next.place(t)) == Some(Ok::<bool, E>(true))
                    &&& next.state.someone_is_polling == sys.state.someone_is_polling
                } else if draining.polling && draining.expired {
                    &&& result(next.place(t)) == Some(Ok::<bool, E>(false))
                    &&& next.state == sys.state
                } else {
                    &&& result(next.place(t)) is None
                    &&& is_polling(next.place(t))
                    &&& next.poller == Some(t)
                    &&& next.state.someone_is_polling
                },
            }
        }),
        // A result is settled at once by a thread that was not polling, with no one to notify, and
        // by one that was polling only after it has given up its role.
        result(sys.after(Step::Read { task: t, read }).place(t)) matches Some(value) ==> sys.after(
            Step::Read { task: t, read },
        ).place(t) == Place::Waiting(
            if draining.polling {
                TurnView::Relock { result: value }
            } else {
                TurnView::Return { result: value, notify_all: false }
            },
        ),
{
    lock_is_exclusive(sys);
    polling_is_announced(sys);
    assert(sys.has(t));
}

// ---------------------------------------------------------------------------------------------
// Polls
// ---------------------------------------------------------------------------------------------

/// Whoever begins to poll with a deadline has just read the clock, and polls for the time that was
/// left then: to the millisecond, rounded up, as far as a C `int` goes. Whoever begins to poll
/// without a deadline does so without a timeout.
pub proof fn poll_begins_with_a_look_at_the_clock<E>(
    sys: System<E>,
    step: Step<E>,
    t: int,
    timeout_ms: i32,
    maybe_deadline: Option<Instant>,
)
    requires
        sys.reachable(),
        sys.enables(step),
        t == step.mover(sys),
        sys.after(step).has(t),
        sys.after(step).place(t) == Place::Waiting(
            TurnView::<E>::Poll { timeout_ms, maybe_deadline },
        ),
    ensures
        maybe_deadline == sys.after(step).tasks[t].maybe_deadline,
        maybe_deadline is None ==> timeout_ms < 0,
        maybe_deadline matches Some(deadline) ==> (step matches Step::Clock { task, now } && {
            let left = if deadline.nanos > now.nanos {
                deadline.nanos - now.nanos
            } else {
                0
            };
            &&& timeout_ms >= 0
            &&& timeout_ms < i32::MAX ==> timeout_ms * 1_000_000 >= left
            &&& (timeout_ms - 1) * 1_000_000 < left
        }),
{
    steps_lead_to_reachable_states(sys, step);
    waiter_and_deadline_are_kept(sys.after(step), t);
    poll_is_unlimited_without_a_deadline(
        sys.after(step),
        t,
        timeout_ms,
        maybe_deadline,
    );
    match step {
        Step::Clock { task, now } => {
            poll_lasts_until_the_deadline(sys, t, now, timeout_ms, maybe_deadline);
        },
        _ => {},
    }
}

/// A look at the clock before a poll is followed by the poll, whatever the time is.
pub proof fn clock_before_a_poll_is_followed_by_the_poll<E>(sys: System<E>, t: int, now: Instant)
    requires
        sys.reachable(),
        sys.enables(Step::Clock { task: t, now }),
        sys.place(t) matches Place::Waiting(TurnView::Clock(clock)) && clock.purpose is Poll,
    ensures
        sys.after(Step::Clock { task: t, now }).place(t) matches Place::Waiting(
            TurnView::Poll { .. },
        ),
{
}

/// An interruption ends no poll: whatever the deadline, the thread goes on to poll, with a look at
/// the clock first if it has a deadline, and nothing else has changed.
pub proof fn interrupted_poll_is_repeated<E>(sys: System<E>, t: int, failure: Failure<E>)
    requires
        sys.reachable(),
        sys.enables(Step::Polled { task: t, polled: Err(failure) }),
        failure.kind == ErrorKind::Interrupted,
    ensures
        ({
            let next = sys.after(Step::Polled { task: t, polled: Err(failure) });
            &&& is_polling(next.place(t))
            &&& result(next.place(t)) is None
            &&& next.state == sys.state
            &&& next.pipe == sys.pipe
            &&& match sys.tasks[t].maybe_deadline {
                Some(deadline) => next.place(t) matches Place::Waiting(TurnView::Clock(clock))
                    && clock.deadline == deadline && clock.purpose is Poll,
                None => next.place(t) matches Place::Waiting(TurnView::Poll { .. }),
            }
        }),
{
    waiter_and_deadline_are_kept(sys, t);
}

/// A poll that has worked is followed by a look into the pipe, whatever it found. If there is a
/// deadline, the clock is read first, and only to know whether the deadline has passed by then.
pub proof fn poll_is_followed_by_a_look_into_the_pipe<E>(sys: System<E>, t: int)
    requires
        sys.reachable(),
        sys.enables(Step::Polled { task: t, polled: Ok(()) }),
    ensures
        ({
            let next = sys.after(Step::Polled { task: t, polled: Ok(()) });
            &&& next.lock == Some(t)
            &&& next.poller == Some(t)
            &&& match sys.tasks[t].maybe_deadline {
                None => next.place(t) == Place::Waiting(
                    TurnView::<E>::Read(
                        DrainingView {
                            maybe_deadline: None,
                            polling: true,
                            expired: false,
                            signaled: false,
                        },
                    ),
                ),
                Some(deadline) => forall|now: Instant|
                    (#[trigger] next.after(Step::Clock { task: t, now })).place(t)
                        == Place::Waiting(
                        TurnView::<E>::Read(
                            DrainingView {
                                maybe_deadline: Some(deadline),
                                polling: true,
                                expired: now.nanos > deadline.nanos,
                                signaled: false,
                            },
                        ),
                    ),
            }
        }),
{
    waiter_and_deadline_are_kept(sys, t);
}

// ---------------------------------------------------------------------------------------------
// Sleeps
// ---------------------------------------------------------------------------------------------

/// A thread that goes to sleep with a timeout has just read the clock, and sleeps until its
/// deadline. One that goes to sleep without a timeout has no deadline, or has just seen, with its
/// time up, that there is something in the pipe. In any case another one polls.
pub proof fn sleep_begins_with_a_look_at_the_clock<E>(
    sys: System<E>,
    step: Step<E>,
    t: int,
    timeout: Option<Duration>,
    sleeping: SleepingView,
)
    requires
        sys.reachable(),
        sys.enables(step),
        t == step.mover(sys),
        sys.after(step).has(t),
        sys.after(step).place(t) == Place::Waiting(TurnView::<E>::Sleep { timeout, sleeping }),
    ensures
        sys.after(step).state.someone_is_polling,
        sys.after(step).poller != Some(t),
        timeout matches Some(timeout) ==> {
            &&& step matches Step::Clock { task, now } && (
            sys.tasks[t].maybe_deadline matches Some(deadline) && now.nanos + timeout.nanos
                == if deadline.nanos > now.nanos {
                deadline.nanos
            } else {
                now.nanos
            })
        },
        timeout is None ==> {
            ||| sys.after(step).tasks[t].maybe_deadline is None
            ||| step == (Step::Peeked { task: t, peeked: Ok::<bool, Failure<E>>(true) })
                && sys.pipe > 0
        },
{
    let next = sys.after(step);
    lock_is_exclusive(sys);
    polling_is_announced(sys);
    waiter_and_deadline_are_kept(sys, t);
    steps_lead_to_reachable_states(sys, step);
    waiter_and_deadline_are_kept(next, t);
    sleeper_is_going_to_be_woken(next, t);
}

/// A look at the clock before a sleep is followed by the sleep, whatever the time is.
pub proof fn clock_before_a_sleep_is_followed_by_the_sleep<E>(sys: System<E>, t: int, now: Instant)
    requires
        sys.reachable(),
        sys.enables(Step::Clock { task: t, now }),
        sys.place(t) matches Place::Waiting(TurnView::Clock(clock)) && clock.purpose is Sleep,
    ensures
        sys.after(Step::Clock { task: t, now }).place(t) matches Place::Waiting(
            TurnView::Sleep { timeout, sleeping },
        ) && timeout is Some,
{
}

/// A thread comes to the point of giving up in its sleep only by a sleep that ended because its
/// time was up, or by an interruption at that very point.
pub proof fn giving_up_begins_with_a_timeout<E>(sys: System<E>, step: Step<E>, t: int)
    requires
        sys.reachable(),
        sys.enables(step),
        t == step.mover(sys),
        sys.after(step).has(t),
        sys.after(step).place(t) matches Place::Waiting(TurnView::Peek(_)),
    ensures
        sys.has(t),
        ({
            ||| step == (Step::<E>::Woken { task: t, timed_out: true })
            ||| step matches Step::Peeked { task, peeked: Err(failure) } && failure.kind
                == ErrorKind::Interrupted
        }),
{
}

/// A thread that begins to wait, or wakes up, while another one polls and no signal has been
/// observed goes to sleep, with a look at the clock first if it has a deadline. Only if its time is
/// up does it look at the pipe instead.
pub proof fn thread_sleeps_while_another_polls<E>(sys: System<E>, step: Step<E>, t: int)
    requires
        sys.reachable(),
        sys.enables(step),
        step is Wait || step is Woken,
        t == step.mover(sys),
        sys.tasks[t].marker == sys.state.signal_marker,
        sys.state.someone_is_polling,
    ensures
        ({
            let next = sys.after(step);
            match next.tasks[t].maybe_deadline {
                None => next.place(t) matches Place::Waiting(TurnView::Sleep { timeout, sleeping })
                    && timeout is None,
                Some(deadline) => if step == (Step::<E>::Woken { task: t, timed_out: true }) {
                    next.place(t) matches Place::Waiting(TurnView::Peek(_))
                } else {
                    next.place(t) matches Place::Waiting(TurnView::Clock(clock)) && clock.deadline
                        == deadline && clock.purpose is Sleep
                },
            }
        }),
{
    waiter_and_deadline_are_kept(sys, t);
}

/// A thread that begins to wait, or wakes up, while nobody polls and no signal has been observed
/// looks into the pipe, whatever its deadline and even if its time is up.
pub proof fn thread_looks_into_the_pipe_if_nobody_polls<E>(sys: System<E>, step: Step<E>, t: int)
    requires
        sys.reachable(),
        sys.enables(step),
        step is Wait || step is Woken,
        t == step.mover(sys),
        sys.tasks[t].marker == sys.state.signal_marker,
        !sys.state.someone_is_polling,
    ensures
        sys.after(step).place(t) == Place::Waiting(
            TurnView::<E>::Read(
                DrainingView {
                    maybe_deadline: sys.after(step).tasks[t].maybe_deadline,
                    polling: false,
                    expired: false,
                    signaled: false,
                },
            ),
        ),
        sys.after(step).lock == Some(t),
{
    waiter_and_deadline_are_kept(sys, t);
}

// ---------------------------------------------------------------------------------------------
// Results
// ---------------------------------------------------------------------------------------------

/// A wait comes to an error just if a system call of its own fails, and to the error of that call.
/// An empty pipe is no failure of a read, and an interruption is none of a poll or a peek.
pub proof fn wait_fails_with_its_own_error<E>(sys: System<E>, step: Step<E>, t: int, error: E)
    requires
        sys.reachable(),
        sys.enables(step),
        sys.has(t),
        result(sys.place(t)) is None,
    ensures
        result(sys.after(step).place(t)) == Some(Err::<bool, E>(error)) <==> {
            ||| step matches Step::Read { task, read: Err(failure) } && task == t && failure.error
                == error && failure.kind != ErrorKind::WouldBlock
            ||| step matches Step::Polled { task, polled: Err(failure) } && task == t
                && failure.error == error && failure.kind != ErrorKind::Interrupted
            ||| step matches Step::Peeked { task, peeked: Err(failure) } && task == t
                && failure.error == error && failure.kind != ErrorKind::Interrupted
        },
{
}

/// A wait times out just if a drain that began after the deadline gets to the end of the pipe
/// without having found anything, or if a peek of a sleeper whose time is up finds the pipe empty.
/// In particular no thread gives up in its first look into the pipe.
pub proof fn wait_times_out_in_a_last_look<E>(sys: System<E>, step: Step<E>, t: int)
    requires
        sys.reachable(),
        sys.enables(step),
        sys.has(t),
        result(sys.place(t)) is None,
    ensures
        has_timed_out(sys.after(step).place(t)) <==> {
            ||| step == (Step::Peeked { task: t, peeked: Ok::<bool, Failure<E>>(false) })
            ||| (step matches Step::Read { task, read: Err(failure) } && task == t && failure.kind
                == ErrorKind::WouldBlock) && (sys.place(t) matches Place::Waiting(
                TurnView::Read(draining),
            ) && draining.polling && draining.expired && !draining.signaled)
        },
{
    lock_is_exclusive(sys);
    waiter_and_deadline_are_kept(sys, t);
}

/// A result stands: once a wait has come to one, no step changes it, and the thread has nothing to
/// do but to give up the polling, if it has that, and to return.
pub proof fn result_stands<E>(sys: System<E>, step: Step<E>, t: int)
    requires
        sys.reachable(),
        sys.enables(step),
        sys.has(t),
        result(sys.place(t)) is Some,
        step != (Step::<E>::Leave { task: t }),
    ensures
        result(sys.after(step).place(t)) == result(sys.place(t)),
        sys.after(step).place(t) != sys.place(t) ==> step == (Step::<E>::Relocked { task: t }),
{
}

} // verus!
