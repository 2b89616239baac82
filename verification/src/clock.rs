//! The threads and the time.
//!
//! Here every step is taken at some time, and time does not go back. Reading the clock tells the
//! time, and a sleep ends because its time is up only when as much time has passed as its timeout
//! says. Nothing else is known of when things happen. It follows that no wait gives up before its
//! deadline, and that no thread is told to block for longer than until its deadline.

use vstd::prelude::*;

use crate::laws::{
    lock_is_exclusive, steps_lead_to_reachable_states, waiter_and_deadline_are_kept,
};
use crate::steps::{poll_begins_with_a_look_at_the_clock, sleep_begins_with_a_look_at_the_clock};
use crate::system::{has_timed_out, Place, Step, System};
use crate::waiter::TurnView;

verus! {

/// The threads at some time.
pub struct Timed<E> {
    pub sys: System<E>,
    /// The time of the latest step, in nanoseconds.
    pub now: int,
    /// For every task, the time of its own latest step.
    pub since: Seq<int>,
}

impl<E> Timed<E> {
    /// The start of the process, at some time.
    pub open spec fn start(now: int) -> Timed<E> {
        Timed { sys: System::start(), now, since: Seq::empty() }
    }

    /// Whether a step can be taken at some time.
    pub open spec fn enables(self, step: Step<E>, at: int) -> bool {
        &&& self.sys.enables(step)
        &&& self.now <= at
        &&& match step {
            Step::Clock { task, now } => now.nanos == at,
            Step::Woken { task, timed_out } => timed_out ==> (self.sys.place(
                task,
            ) matches Place::Waiting(TurnView::Sleep { timeout: Some(timeout), sleeping }) && at
                >= self.since[task] + timeout.nanos),
            _ => true,
        }
    }

    /// The threads after a step at some time.
    pub open spec fn after(self, step: Step<E>, at: int) -> Timed<E> {
        let task = step.mover(self.sys);
        Timed {
            sys: self.sys.after(step),
            now: at,
            since: if task == self.since.len() {
                self.since.push(at)
            } else if 0 <= task < self.since.len() {
                self.since.update(task, at)
            } else {
                self.since
            },
        }
    }

    /// Whether a whole sequence of steps can be taken.
    pub open spec fn enables_all(self, steps: Seq<(Step<E>, int)>) -> bool
        decreases steps.len(),
    {
        steps.len() > 0 ==> {
            &&& self.enables(steps[0].0, steps[0].1)
            &&& self.after(steps[0].0, steps[0].1).enables_all(steps.skip(1))
        }
    }

    /// The threads after a whole sequence of steps.
    pub open spec fn after_all(self, steps: Seq<(Step<E>, int)>) -> Timed<E>
        decreases steps.len(),
    {
        if steps.len() > 0 {
            self.after(steps[0].0, steps[0].1).after_all(steps.skip(1))
        } else {
            self
        }
    }

    /// Whether the threads can get here from the start of the process.
    pub open spec fn reachable(self) -> bool {
        exists|now: int, steps: Seq<(Step<E>, int)>|
            Timed::<E>::start(now).enables_all(steps) && self == #[trigger] Timed::<E>::start(
                now,
            ).after_all(steps)
    }
}

/// What is known of the time in a task's present place.
spec fn time_ok<E>(timed: Timed<E>, t: int) -> bool {
    let task = timed.sys.tasks[t];
    &&& timed.since[t] <= timed.now
    &&& match task.place {
        Place::Waiting(TurnView::Sleep { timeout, sleeping }) => {
            timeout matches Some(timeout) ==> (task.maybe_deadline matches Some(deadline)
                && timed.since[t] + timeout.nanos == if deadline.nanos > timed.since[t] {
                deadline.nanos as int
            } else {
                timed.since[t]
            })
        },
        Place::Waiting(TurnView::Peek(_)) => task.maybe_deadline matches Some(deadline)
            && deadline.nanos <= timed.now,
        Place::Waiting(TurnView::Read(draining)) => draining.expired ==> (
        task.maybe_deadline matches Some(deadline) && deadline.nanos < timed.now),
        Place::Waiting(TurnView::Poll { timeout_ms, maybe_deadline }) => {
            task.maybe_deadline matches Some(deadline) ==> {
                let left = if deadline.nanos > timed.since[t] {
                    deadline.nanos - timed.since[t]
                } else {
                    0
                };
                &&& timeout_ms >= 0
                &&& timeout_ms < i32::MAX ==> timeout_ms * 1_000_000 >= left
                &&& (timeout_ms - 1) * 1_000_000 < left
            }
        },
        _ => has_timed_out(task.place) ==> (task.maybe_deadline matches Some(deadline)
            && deadline.nanos <= timed.now),
    }
}

spec fn timed_inv<E>(timed: Timed<E>) -> bool {
    &&& timed.sys.reachable()
    &&& timed.since.len() == timed.sys.tasks.len()
    &&& forall|t: int| #[trigger] timed.sys.has(t) ==> time_ok(timed, t)
}

proof fn lemma_step<E>(timed: Timed<E>, step: Step<E>, at: int)
    requires
        timed_inv(timed),
        timed.enables(step, at),
    ensures
        timed_inv(timed.after(step, at)),
{
    let next = timed.after(step, at);
    let t = step.mover(timed.sys);
    steps_lead_to_reachable_states(timed.sys, step);
    lock_is_exclusive(timed.sys);
    if timed.sys.has(t) {
        waiter_and_deadline_are_kept(timed.sys, t);
    }
    if next.sys.has(t) {
        waiter_and_deadline_are_kept(next.sys, t);
        match next.sys.place(t) {
            Place::Waiting(TurnView::Sleep { timeout, sleeping }) => {
                sleep_begins_with_a_look_at_the_clock(timed.sys, step, t, timeout, sleeping);
            },
            Place::Waiting(TurnView::Poll { timeout_ms, maybe_deadline }) => {
                poll_begins_with_a_look_at_the_clock(
                    timed.sys,
                    step,
                    t,
                    timeout_ms,
                    maybe_deadline,
                );
            },
            _ => {},
        }
    }
    assert forall|u: int| #[trigger] next.sys.has(u) implies time_ok(next, u) by {
        assert(timed.sys.has(u) ==> time_ok(timed, u));
    }
}

proof fn lemma_steps<E>(timed: Timed<E>, steps: Seq<(Step<E>, int)>)
    requires
        timed_inv(timed),
        timed.enables_all(steps),
    ensures
        timed_inv(timed.after_all(steps)),
    decreases steps.len(),
{
    if steps.len() > 0 {
        lemma_step(timed, steps[0].0, steps[0].1);
        lemma_steps(timed.after(steps[0].0, steps[0].1), steps.skip(1));
    }
}

proof fn lemma_reachable<E>(timed: Timed<E>)
    requires
        timed.reachable(),
    ensures
        timed_inv(timed),
{
    let (now, steps) = choose|now: int, steps: Seq<(Step<E>, int)>|
        Timed::<E>::start(now).enables_all(steps) && timed == #[trigger] Timed::<E>::start(
            now,
        ).after_all(steps);
    let start = System::<E>::start();
    assert(start.after_all(Seq::<Step<E>>::empty()) == start);
    assert(start.enables_all(Seq::<Step<E>>::empty()));
    lemma_steps(Timed::<E>::start(now), steps);
}

/// What threads can do in time they can do at all.
pub proof fn timed_states_are_reachable<E>(timed: Timed<E>)
    requires
        timed.reachable(),
    ensures
        timed.sys.reachable(),
{
    lemma_reachable(timed);
}

/// No wait gives up before its deadline, be it one that polls or one that sleeps: whenever one has
/// come to `false`, it has a deadline, and that has been reached.
pub proof fn no_wait_gives_up_before_its_deadline<E>(timed: Timed<E>, t: int)
    requires
        timed.reachable(),
        timed.sys.has(t),
        has_timed_out(timed.sys.place(t)),
    ensures
        timed.sys.tasks[t].maybe_deadline matches Some(deadline) && deadline.nanos <= timed.now,
{
    lemma_reachable(timed);
}

/// A thread that is about to give up in its sleep has reached its deadline.
pub proof fn sleeper_gives_up_after_its_deadline<E>(timed: Timed<E>, t: int)
    requires
        timed.reachable(),
        timed.sys.has(t),
        timed.sys.place(t) matches Place::Waiting(TurnView::Peek(_)),
    ensures
        timed.sys.tasks[t].maybe_deadline matches Some(deadline) && deadline.nanos <= timed.now,
{
    lemma_reachable(timed);
}

/// A drain that counts as one after the deadline is one.
pub proof fn late_drain_is_late<E>(timed: Timed<E>, t: int)
    requires
        timed.reachable(),
        timed.sys.has(t),
        timed.sys.place(t) matches Place::Waiting(TurnView::Read(draining)) && draining.expired,
    ensures
        timed.sys.tasks[t].maybe_deadline matches Some(deadline) && deadline.nanos < timed.now,
{
    lemma_reachable(timed);
}

/// A sleep with a timeout ends at the deadline if nothing ends it before, neither earlier nor
/// later. If the deadline has been reached when it begins, it takes no time.
pub proof fn sleep_ends_at_the_deadline<E>(timed: Timed<E>, t: int)
    requires
        timed.reachable(),
        timed.sys.has(t),
    ensures
        timed.sys.place(t) matches Place::Waiting(
            TurnView::Sleep { timeout: Some(timeout), sleeping },
        ) ==> (timed.sys.tasks[t].maybe_deadline matches Some(deadline) && {
            let end = timed.since[t] + timeout.nanos;
            &&& deadline.nanos >= timed.since[t] ==> end == deadline.nanos
            &&& deadline.nanos < timed.since[t] ==> end == timed.since[t]
        }),
{
    lemma_reachable(timed);
}

/// A poll with a deadline ends within a millisecond after the deadline if nothing ends it before,
/// or within a millisecond after it began if the deadline had passed by then. It does not end
/// before the deadline, unless that is farther away than a C `int` can tell.
pub proof fn poll_ends_at_the_deadline<E>(timed: Timed<E>, t: int)
    requires
        timed.reachable(),
        timed.sys.has(t),
    ensures
        timed.sys.place(t) matches Place::Waiting(TurnView::Poll { timeout_ms, maybe_deadline })
            ==> (timed.sys.tasks[t].maybe_deadline matches Some(deadline) ==> {
            let end = timed.since[t] + timeout_ms * 1_000_000;
            &&& timeout_ms >= 0
            &&& timeout_ms < i32::MAX ==> end >= deadline.nanos
            &&& end < if deadline.nanos > timed.since[t] {
                deadline.nanos + 1_000_000
            } else {
                timed.since[t] + 1_000_000
            }
        }),
{
    lemma_reachable(timed);
}

} // verus!
