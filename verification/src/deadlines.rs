//! Deadlines end waits.
//!
//! Overdue steps are those that tasks take by themselves once all deadlines have passed. They are
//! the calm steps, except that a look at the clock shows a time after the deadline, and that a poll
//! with a deadline ends even if there is nothing in the pipe. There are never infinitely many of
//! them in a row, and when no more can be taken, every wait with a deadline is over.

use vstd::prelude::*;

use crate::laws::{
    lock_is_exclusive, sleeper_is_going_to_be_woken, steps_lead_to_reachable_states,
    timeout_only_without_a_signal, waiter_and_deadline_are_kept,
};
use crate::progress::{lemma_fewer_steps_left, steps_left};
use crate::state::{ErrorKind, Failure};
use crate::system::{has_timed_out, sleeps_past_its_deadline, Place, Step, System, Task};
use crate::time::Instant;
use crate::waiter::{CreationView, PurposeView, TurnView};

verus! {

/// Whether a time after the deadline of a task's wait can be told.
pub open spec fn deadline_can_pass<E>(task: Task<E>) -> bool {
    task.maybe_deadline matches Some(deadline) ==> deadline.nanos < i128::MAX
}

/// What a task's wait has come to, if anything.
pub open spec fn result<E>(place: Place<E>) -> Option<Result<bool, E>> {
    match place {
        Place::Waiting(TurnView::Return { result, .. }) => Some(result),
        Place::Waiting(TurnView::Relock { result }) => Some(result),
        _ => None,
    }
}

/// How much a task has left to do until it can do no more by itself, if others leave it alone and
/// all deadlines have passed.
pub open spec fn overdue_effort<E>(task: Task<E>, pipe: nat) -> nat {
    match task.place {
        Place::Creating(CreationView::Open) => 20,
        Place::Creating(CreationView::Read { .. }) => 18,
        Place::Waiting(TurnView::Sleep { timeout, sleeping }) => if task.notified {
            30
        } else if timeout is Some {
            3
        } else {
            1
        },
        Place::Waiting(TurnView::Clock(clock)) => match clock.purpose {
            PurposeView::Sleep { .. } => 4,
            PurposeView::Poll => 11,
            PurposeView::Expiry => 9,
        },
        Place::Waiting(TurnView::Peek(_)) => 2,
        Place::Waiting(TurnView::Read(draining)) => if !draining.polling {
            18
        } else if draining.expired {
            8
        } else {
            16
        },
        Place::Waiting(TurnView::Poll { timeout_ms, maybe_deadline }) => if maybe_deadline is Some {
            10
        } else if pipe > 0 {
            17
        } else {
            1
        },
        Place::Waiting(TurnView::Relock { .. }) => 1,
        _ => 0,
    }
}

impl<E> System<E> {
    /// Whether a step can be taken and is an overdue one.
    pub open spec fn overdue(self, step: Step<E>) -> bool {
        match step {
            Step::Clock { task, now } => {
                &&& self.enables(step)
                &&& self.tasks[task].maybe_deadline matches Some(deadline) && now.nanos
                    > deadline.nanos
            },
            Step::Polled { task, polled } => {
                &&& self.enables(step)
                &&& polled is Ok
                &&& self.pipe > 0 || self.tasks[task].maybe_deadline is Some
            },
            _ => self.calm(step),
        }
    }

    /// Whether a whole sequence of steps can be taken and all of them are overdue.
    pub open spec fn overdue_all(self, steps: Seq<Step<E>>) -> bool
        decreases steps.len(),
    {
        steps.len() > 0 ==> self.overdue(steps[0]) && self.after(steps[0]).overdue_all(
            steps.skip(1),
        )
    }

    /// Whether no overdue step can be taken.
    pub open spec fn expired(self) -> bool {
        forall|step: Step<E>| !#[trigger] self.overdue(step)
    }

    /// Whether times after all deadlines can be told.
    pub open spec fn deadlines_can_pass(self) -> bool {
        forall|t: int| #[trigger] self.has(t) ==> deadline_can_pass(self.tasks[t])
    }

    /// For every task, how much it has left to do.
    pub open spec fn overdue_efforts(self) -> Seq<nat> {
        Seq::new(self.tasks.len(), |i: int| overdue_effort(self.tasks[i], self.pipe))
    }

    /// How many overdue steps can be taken at most.
    pub open spec fn overdue_steps_left(self) -> nat {
        steps_left(self.busy(), self.overdue_efforts(), 30, self.pipe)
    }
}

/// Every overdue step leaves fewer of them.
proof fn lemma_overdue_step<E>(sys: System<E>, step: Step<E>)
    requires
        sys.reachable(),
        sys.overdue(step),
    ensures
        sys.after(step).overdue_steps_left() < sys.overdue_steps_left(),
{
    let next = sys.after(step);
    let t = step.mover(sys);
    lock_is_exclusive(sys);
    assert(sys.has(t));
    waiter_and_deadline_are_kept(sys, t);
    if sys.place(t) matches Place::Waiting(TurnView::Sleep { .. }) {
        if !sys.tasks[t].notified {
            sleeper_is_going_to_be_woken(sys, t);
        }
    }
    lemma_fewer_steps_left(
        (sys.busy(), next.busy()),
        (sys.overdue_efforts(), next.overdue_efforts()),
        30,
        (sys.pipe, next.pipe),
        t,
    );
}

/// Overdue steps come to an end: there is a limit to how many can follow each other.
pub proof fn overdue_steps_come_to_an_end<E>(sys: System<E>, steps: Seq<Step<E>>)
    requires
        sys.reachable(),
        sys.overdue_all(steps),
    ensures
        steps.len() <= sys.overdue_steps_left(),
    decreases steps.len(),
{
    if steps.len() > 0 {
        lemma_overdue_step(sys, steps[0]);
        steps_lead_to_reachable_states(sys, steps[0]);
        overdue_steps_come_to_an_end(sys.after(steps[0]), steps.skip(1));
    }
}

/// Overdue steps can always be taken until none is left.
pub proof fn deadlines_expire<E>(sys: System<E>) -> (steps: Seq<Step<E>>)
    requires
        sys.reachable(),
    ensures
        sys.overdue_all(steps),
        sys.after_all(steps).expired(),
    decreases sys.overdue_steps_left(),
{
    if sys.expired() {
        Seq::<Step<E>>::empty()
    } else {
        let step = choose|step: Step<E>| #[trigger] sys.overdue(step);
        lemma_overdue_step(sys, step);
        steps_lead_to_reachable_states(sys, step);
        let rest = deadlines_expire(sys.after(step));
        let steps = seq![step] + rest;
        assert(steps.skip(1) =~= rest);
        steps
    }
}

/// A task that holds the lock can take an overdue step.
proof fn lemma_lock_holder_goes_on<E>(sys: System<E>)
    requires
        sys.reachable(),
        sys.deadlines_can_pass(),
        sys.lock is Some,
    ensures
        !sys.expired(),
{
    lock_is_exclusive(sys);
    let task = sys.lock->0;
    assert(sys.has(task));
    waiter_and_deadline_are_kept(sys, task);
    let read: Result<usize, Failure<E>> = if sys.pipe > 0 {
        Ok(1)
    } else {
        Err(Failure { kind: ErrorKind::WouldBlock, error: arbitrary() })
    };
    let step = match sys.place(task) {
        Place::Creating(CreationView::Open) => Step::Opened { task, opened: Ok(()) },
        Place::Creating(_) => Step::CreationRead { task, read },
        Place::Waiting(TurnView::Clock(_)) => Step::Clock {
            task,
            now: Instant { nanos: i128::MAX },
        },
        Place::Waiting(TurnView::Peek(_)) => Step::Peeked { task, peeked: Ok(sys.pipe > 0) },
        _ => Step::Read { task, read },
    };
    assert(sys.overdue(step));
}

/// As long as a wait with a deadline is not over, there is an overdue step to take.
proof fn lemma_deadline_keeps_going<E>(sys: System<E>, t: int)
    requires
        sys.reachable(),
        sys.deadlines_can_pass(),
        sys.has(t),
        sys.place(t) is Waiting,
        sys.tasks[t].maybe_deadline is Some,
        sys.expired(),
    ensures
        sys.place(t) matches Place::Waiting(TurnView::Return { .. }),
{
    if sys.lock is Some {
        lemma_lock_holder_goes_on(sys);
    }
    lock_is_exclusive(sys);
    assert(sys.has(t));
    match sys.place(t) {
        Place::Waiting(TurnView::Poll { .. }) => {
            assert(sys.overdue(Step::Polled { task: t, polled: Ok(()) }));
        },
        Place::Waiting(TurnView::Relock { .. }) => {
            assert(sys.overdue(Step::Relocked { task: t }));
        },
        Place::Waiting(TurnView::Sleep { timeout, sleeping }) => {
            if sys.tasks[t].notified {
                assert(sys.overdue(Step::Woken { task: t, timed_out: false }));
            } else if timeout is Some {
                assert(sys.overdue(Step::Woken { task: t, timed_out: true }));
            } else {
                assert(sleeps_past_its_deadline(sys.tasks[t]));
                sleeper_is_going_to_be_woken(sys, t);
                let u = sys.poller->0;
                assert(sys.has(u));
                if sys.place(u) matches Place::Waiting(TurnView::Poll { .. }) {
                    assert(sys.overdue(Step::Polled { task: u, polled: Ok(()) }));
                } else {
                    assert(sys.overdue(Step::Relocked { task: u }));
                }
            }
        },
        _ => {},
    }
}

/// What an overdue step does to a wait. It comes to no error, and only to `false` if there is no
/// news and to `true` if there is a signal owed.
proof fn lemma_overdue_result<E>(sys: System<E>, step: Step<E>, t: int)
    requires
        sys.reachable(),
        sys.overdue(step),
        sys.has(t),
        sys.place(t) is Waiting,
    ensures
        ({
            let next = sys.after(step);
            &&& next.has(t)
            &&& next.place(t) is Waiting
            &&& next.tasks[t].maybe_deadline == sys.tasks[t].maybe_deadline
            &&& match result(sys.place(t)) {
                Some(value) => result(next.place(t)) == Some(value),
                None => result(next.place(t)) matches Some(value) ==> {
                    &&& value is Ok
                    &&& !sys.has_news(t) ==> value == Ok::<bool, E>(false)
                    &&& sys.owes_signal(t) ==> value == Ok::<bool, E>(true)
                },
            }
            &&& !sys.has_news(t) ==> !next.has_news(t)
            &&& sys.owes_signal(t) ==> next.owes_signal(t)
        }),
{
    let next = sys.after(step);
    lock_is_exclusive(sys);
    assert(sys.has(t));
    assert(sys.has(step.mover(sys)));
    waiter_and_deadline_are_kept(sys, t);
    if has_timed_out(next.place(t)) && !has_timed_out(sys.place(t)) {
        timeout_only_without_a_signal(sys, step, t);
    }
}

proof fn lemma_deadlines_can_still_pass<E>(sys: System<E>, step: Step<E>)
    requires
        sys.deadlines_can_pass(),
        sys.overdue(step),
    ensures
        sys.after(step).deadlines_can_pass(),
{
    let next = sys.after(step);
    assert forall|u: int| #[trigger] next.has(u) implies deadline_can_pass(next.tasks[u]) by {
        assert(sys.has(u));
    }
}

/// When the deadlines have passed and nothing is left to do, every wait that has a deadline is
/// over. A result that it had already come to stands. Otherwise there is no error, the result is
/// `false` if there was no signal on its way to the waiter, and it is `true` if there was one that
/// it was owed.
pub proof fn passed_deadline_ends_the_wait<E>(sys: System<E>, steps: Seq<Step<E>>, t: int)
    requires
        sys.reachable(),
        sys.deadlines_can_pass(),
        sys.has(t),
        sys.place(t) is Waiting,
        sys.tasks[t].maybe_deadline is Some,
        sys.overdue_all(steps),
        sys.after_all(steps).expired(),
    ensures
        sys.after_all(steps).place(t) matches Place::Waiting(
            TurnView::Return { result: value, .. },
        ) && match result(sys.place(t)) {
            Some(before) => value == before,
            None => {
                &&& value is Ok
                &&& !sys.has_news(t) ==> value == Ok::<bool, E>(false)
                &&& sys.owes_signal(t) ==> value == Ok::<bool, E>(true)
            },
        },
    decreases steps.len(),
{
    if steps.len() > 0 {
        lemma_overdue_result(sys, steps[0], t);
        lemma_deadlines_can_still_pass(sys, steps[0]);
        steps_lead_to_reachable_states(sys, steps[0]);
        passed_deadline_ends_the_wait(sys.after(steps[0]), steps.skip(1), t);
    } else {
        lemma_deadline_keeps_going(sys, t);
    }
}

/// A wait with a deadline that begins when there is no signal on its way, and gets none, returns
/// `false` once the deadline has passed.
pub proof fn wait_without_a_signal_returns_false<E>(
    sys: System<E>,
    t: int,
    deadline: Instant,
    steps: Seq<Step<E>>,
)
    requires
        sys.reachable(),
        sys.deadlines_can_pass(),
        deadline.nanos < i128::MAX,
        sys.enables(Step::Wait { task: t, maybe_deadline: Some(deadline) }),
        !sys.has_news(t),
        sys.after(Step::Wait { task: t, maybe_deadline: Some(deadline) }).overdue_all(steps),
        sys.after(Step::Wait { task: t, maybe_deadline: Some(deadline) }).after_all(
            steps,
        ).expired(),
    ensures
        sys.after(Step::Wait { task: t, maybe_deadline: Some(deadline) }).after_all(steps).place(
            t,
        ) matches Place::Waiting(TurnView::Return { result: value, .. }) && value == Ok::<bool, E>(
            false,
        ),
{
    let step = Step::Wait { task: t, maybe_deadline: Some(deadline) };
    let next = sys.after(step);
    steps_lead_to_reachable_states(sys, step);
    assert forall|u: int| #[trigger] next.has(u) implies deadline_can_pass(next.tasks[u]) by {
        assert(sys.has(u));
    }
    assert(next.has(t));
    passed_deadline_ends_the_wait(next, steps, t);
}

} // verus!
