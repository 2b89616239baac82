//! Signals end waits.
//!
//! Calm steps are those that tasks take by themselves: no further signal, no new task, no task that
//! begins to wait or leaves, no failure or interruption, no poll that ends with nothing in the
//! pipe, and nobody who wakes up without being notified, unless the time is up. There are never
//! infinitely many of them in a row, and when no more can be taken, every wait that was owed a
//! signal has returned `true`.

use vstd::prelude::*;

use crate::laws::{
    lock_is_exclusive, poll_does_not_block_after_a_signal, signal_is_owed_to_every_waiter,
    sleeper_is_going_to_be_woken, steps_lead_to_reachable_states, timeout_only_without_a_signal,
    wakeup_alone_ends_no_wait,
};
use crate::state::{ErrorKind, Failure};
use crate::system::{has_timed_out, Place, Step, System, Task};
use crate::time::Instant;
use crate::waiter::{CreationView, PurposeView, TurnView};

verus! {

/// Whether a read worked, or found the pipe empty.
pub open spec fn read_worked<E>(read: Result<usize, Failure<E>>) -> bool {
    match read {
        Ok(_) => true,
        Err(failure) => failure.kind == ErrorKind::WouldBlock,
    }
}

/// Whether a task is in the middle of a wait that has come to no result, or to `true`.
pub open spec fn can_return_true<E>(place: Place<E>) -> bool {
    match place {
        Place::Waiting(TurnView::Return { result, .. }) => result == Ok::<bool, E>(true),
        Place::Waiting(TurnView::Relock { result }) => result == Ok::<bool, E>(true),
        Place::Waiting(_) => true,
        _ => false,
    }
}

/// Whether a task's wait has returned `true`.
pub open spec fn has_returned_true<E>(place: Place<E>) -> bool {
    place matches Place::Waiting(TurnView::Return { result, .. }) && result == Ok::<bool, E>(true)
}

/// Whether a task has something left to do before it has its waiter, or before its wait is over.
pub open spec fn is_busy<E>(place: Place<E>) -> bool {
    match place {
        Place::Creating(CreationView::Return(_)) => false,
        Place::Creating(_) => true,
        Place::Waiting(TurnView::Return { .. }) => false,
        Place::Waiting(_) => true,
        _ => false,
    }
}

/// How much a task has left to do until it can do no more by itself, if others leave it alone.
pub open spec fn effort<E>(task: Task<E>, pipe: nat) -> nat {
    match task.place {
        Place::Creating(CreationView::Open) => 8,
        Place::Creating(CreationView::Read { .. }) => 6,
        Place::Waiting(TurnView::Sleep { timeout, sleeping }) => if task.notified {
            10
        } else if timeout is Some {
            3
        } else {
            1
        },
        Place::Waiting(TurnView::Clock(clock)) => match clock.purpose {
            PurposeView::Sleep { .. } => 4,
            PurposeView::Poll => if pipe > 0 {
                9
            } else {
                2
            },
            PurposeView::Expiry => 7,
        },
        Place::Waiting(TurnView::Peek(_)) => 2,
        Place::Waiting(TurnView::Read(_)) => 6,
        Place::Waiting(TurnView::Poll { .. }) => if pipe > 0 {
            8
        } else {
            1
        },
        Place::Waiting(TurnView::Relock { .. }) => 1,
        _ => 0,
    }
}

/// The sum of some numbers.
pub open spec fn sum(numbers: Seq<nat>) -> nat
    decreases numbers.len(),
{
    if numbers.len() == 0 {
        0
    } else {
        sum(numbers.drop_last()) + numbers.last()
    }
}

impl<E> System<E> {
    /// Whether a step can be taken and is a calm one.
    pub open spec fn calm(self, step: Step<E>) -> bool {
        &&& self.enables(step)
        &&& match step {
            Step::Opened { task, opened } => opened is Ok,
            Step::CreationRead { task, read } => read_worked(read),
            Step::Clock { .. } => true,
            Step::Woken { task, timed_out } => {
                ||| self.tasks[task].notified
                ||| timed_out && (self.place(task) matches Place::Waiting(
                    TurnView::Sleep { timeout, sleeping },
                ) && timeout is Some)
            },
            Step::Peeked { task, peeked } => peeked is Ok,
            Step::Read { task, read } => read_worked(read),
            Step::Polled { task, polled } => polled is Ok && self.pipe > 0,
            Step::Relocked { .. } => true,
            _ => false,
        }
    }

    /// Whether a whole sequence of steps can be taken and all of them are calm.
    pub open spec fn calm_all(self, steps: Seq<Step<E>>) -> bool
        decreases steps.len(),
    {
        steps.len() > 0 ==> self.calm(steps[0]) && self.after(steps[0]).calm_all(steps.skip(1))
    }

    /// Whether no calm step can be taken.
    pub open spec fn settled(self) -> bool {
        forall|step: Step<E>| !#[trigger] self.calm(step)
    }

    /// For every task, one if it is busy and zero if it is not.
    pub open spec fn busy(self) -> Seq<nat> {
        Seq::new(
            self.tasks.len(),
            |i: int|
                if is_busy(self.tasks[i].place) {
                    1
                } else {
                    0
                },
        )
    }

    /// For every task, how much it has left to do.
    pub open spec fn efforts(self) -> Seq<nat> {
        Seq::new(self.tasks.len(), |i: int| effort(self.tasks[i], self.pipe))
    }

    /// How many calm steps can be taken at most.
    pub open spec fn calm_steps_left(self) -> nat {
        steps_left(self.busy(), self.efforts(), 10, self.pipe)
    }
}

/// A limit to the number of steps, given which tasks are busy, what every task has left to do as
/// long as it is left alone, the most that can be, and the number of bytes in the pipe. When a task
/// is done, it can give all others as much to do as there can be.
pub open spec fn steps_left(busy: Seq<nat>, efforts: Seq<nat>, most: nat, pipe: nat) -> nat {
    sum(busy) * (most * efforts.len() + 1) + sum(efforts) + pipe
}

/// If only one of the numbers goes up, so does the sum, and by no more.
proof fn lemma_sum_update(before: Seq<nat>, after: Seq<nat>, t: int)
    requires
        before.len() == after.len(),
        0 <= t < before.len(),
        forall|i: int| 0 <= i < before.len() && i != t ==> after[i] <= before[i],
    ensures
        sum(after) + before[t] <= sum(before) + after[t],
    decreases before.len(),
{
    if t == before.len() - 1 {
        lemma_sum_monotonic(before.drop_last(), after.drop_last());
    } else {
        lemma_sum_update(before.drop_last(), after.drop_last(), t);
    }
}

proof fn lemma_sum_monotonic(before: Seq<nat>, after: Seq<nat>)
    requires
        before.len() == after.len(),
        forall|i: int| 0 <= i < before.len() ==> after[i] <= before[i],
    ensures
        sum(after) <= sum(before),
    decreases before.len(),
{
    if before.len() > 0 {
        lemma_sum_monotonic(before.drop_last(), after.drop_last());
    }
}

proof fn lemma_sum_bounded(numbers: Seq<nat>, bound: nat)
    requires
        forall|i: int| 0 <= i < numbers.len() ==> numbers[i] <= bound,
    ensures
        sum(numbers) <= bound * numbers.len(),
    decreases numbers.len(),
{
    if numbers.len() > 0 {
        lemma_sum_bounded(numbers.drop_last(), bound);
        assert(bound * numbers.len() == bound * (numbers.len() - 1) + bound) by (nonlinear_arith);
    }
}

/// A step of a task leaves fewer of them, if it leaves the task less to do and no other task more,
/// or if the task is done with it.
pub(crate) proof fn lemma_fewer_steps_left(
    busy: (Seq<nat>, Seq<nat>),
    efforts: (Seq<nat>, Seq<nat>),
    most: nat,
    pipe: (nat, nat),
    t: int,
)
    requires
        0 <= t < busy.0.len(),
        busy.1.len() == busy.0.len(),
        efforts.0.len() == busy.0.len(),
        efforts.1.len() == busy.0.len(),
        forall|i: int| 0 <= i < busy.0.len() && i != t ==> busy.1[i] <= busy.0[i],
        ({
            ||| {
                &&& busy.1[t] <= busy.0[t]
                &&& forall|i: int|
                    0 <= i < efforts.0.len() && i != t ==> efforts.1[i] <= efforts.0[i]
                &&& efforts.1[t] + pipe.1 < efforts.0[t] + pipe.0
            }
            ||| {
                &&& busy.1[t] < busy.0[t]
                &&& forall|i: int| 0 <= i < efforts.0.len() ==> efforts.1[i] <= most
                &&& pipe.1 <= pipe.0
            }
        }),
    ensures
        steps_left(busy.1, efforts.1, most, pipe.1) < steps_left(busy.0, efforts.0, most, pipe.0),
{
    let factor: nat = most * efforts.0.len() + 1;
    lemma_sum_update(busy.0, busy.1, t);
    if busy.1[t] < busy.0[t] && (forall|i: int|
        0 <= i < efforts.0.len() ==> efforts.1[i] <= most) && pipe.1 <= pipe.0 {
        lemma_sum_bounded(efforts.1, most);
        assert(sum(busy.1) * factor + factor <= sum(busy.0) * factor) by (nonlinear_arith)
            requires
                sum(busy.1) + 1 <= sum(busy.0),
        ;
    } else {
        lemma_sum_update(efforts.0, efforts.1, t);
        assert(sum(busy.1) * factor <= sum(busy.0) * factor) by (nonlinear_arith)
            requires
                sum(busy.1) <= sum(busy.0),
        ;
    }
}

/// Every calm step leaves fewer of them.
proof fn lemma_calm_step<E>(sys: System<E>, step: Step<E>)
    requires
        sys.reachable(),
        sys.calm(step),
    ensures
        sys.after(step).calm_steps_left() < sys.calm_steps_left(),
{
    let next = sys.after(step);
    let t = step.mover(sys);
    lock_is_exclusive(sys);
    assert(sys.has(t));
    if sys.place(t) matches Place::Waiting(TurnView::Sleep { .. }) {
        if !sys.tasks[t].notified {
            sleeper_is_going_to_be_woken(sys, t);
        }
    }
    lemma_fewer_steps_left(
        (sys.busy(), next.busy()),
        (sys.efforts(), next.efforts()),
        10,
        (sys.pipe, next.pipe),
        t,
    );
}

/// Calm steps come to an end: there is a limit to how many can follow each other.
pub proof fn calm_steps_come_to_an_end<E>(sys: System<E>, steps: Seq<Step<E>>)
    requires
        sys.reachable(),
        sys.calm_all(steps),
    ensures
        steps.len() <= sys.calm_steps_left(),
    decreases steps.len(),
{
    if steps.len() > 0 {
        lemma_calm_step(sys, steps[0]);
        steps_lead_to_reachable_states(sys, steps[0]);
        calm_steps_come_to_an_end(sys.after(steps[0]), steps.skip(1));
    }
}

/// Calm steps can always be taken until the system is settled.
pub proof fn system_settles<E>(sys: System<E>) -> (steps: Seq<Step<E>>)
    requires
        sys.reachable(),
    ensures
        sys.calm_all(steps),
        sys.after_all(steps).settled(),
    decreases sys.calm_steps_left(),
{
    if sys.settled() {
        Seq::<Step<E>>::empty()
    } else {
        let step = choose|step: Step<E>| #[trigger] sys.calm(step);
        lemma_calm_step(sys, step);
        steps_lead_to_reachable_states(sys, step);
        let rest = system_settles(sys.after(step));
        let steps = seq![step] + rest;
        assert(steps.skip(1) =~= rest);
        steps
    }
}

/// A task that holds the lock can take a calm step.
proof fn lemma_lock_holder_goes_on<E>(sys: System<E>)
    requires
        sys.reachable(),
        sys.lock is Some,
    ensures
        !sys.settled(),
{
    lock_is_exclusive(sys);
    let task = sys.lock->0;
    assert(sys.has(task));
    let read: Result<usize, Failure<E>> = if sys.pipe > 0 {
        Ok(1)
    } else {
        Err(Failure { kind: ErrorKind::WouldBlock, error: arbitrary() })
    };
    let step = match sys.place(task) {
        Place::Creating(CreationView::Open) => Step::Opened { task, opened: Ok(()) },
        Place::Creating(_) => Step::CreationRead { task, read },
        Place::Waiting(TurnView::Clock(_)) => Step::Clock { task, now: arbitrary() },
        Place::Waiting(TurnView::Peek(_)) => Step::Peeked { task, peeked: Ok(sys.pipe > 0) },
        _ => Step::Read { task, read },
    };
    assert(sys.calm(step));
}

/// As long as a wait that is owed a signal is not over, there is a calm step to take.
proof fn lemma_owed_signal_keeps_going<E>(sys: System<E>, t: int)
    requires
        sys.reachable(),
        sys.has(t),
        can_return_true(sys.place(t)),
        sys.owes_signal(t),
        sys.settled(),
    ensures
        has_returned_true(sys.place(t)),
{
    if sys.lock is Some {
        lemma_lock_holder_goes_on(sys);
    }
    lock_is_exclusive(sys);
    assert(sys.has(t));
    match sys.place(t) {
        Place::Waiting(TurnView::Poll { .. }) => {
            poll_does_not_block_after_a_signal(sys, t);
            assert(sys.calm(Step::Polled { task: t, polled: Ok(()) }));
        },
        Place::Waiting(TurnView::Relock { .. }) => {
            assert(sys.calm(Step::Relocked { task: t }));
        },
        Place::Waiting(TurnView::Sleep { .. }) => {
            if sys.tasks[t].notified {
                assert(sys.calm(Step::Woken { task: t, timed_out: false }));
            } else {
                sleeper_is_going_to_be_woken(sys, t);
                let u = sys.poller->0;
                assert(sys.has(u));
                if sys.place(u) matches Place::Waiting(TurnView::Poll { .. }) {
                    assert(sys.calm(Step::Polled { task: u, polled: Ok(()) }));
                } else {
                    assert(sys.calm(Step::Relocked { task: u }));
                }
            }
        },
        _ => {},
    }
}

/// A calm step takes nothing away from a wait that is owed a signal: if it comes to a result, that
/// is `true`.
proof fn lemma_calm_step_keeps_hope<E>(sys: System<E>, step: Step<E>, t: int)
    requires
        sys.reachable(),
        sys.calm(step),
        sys.has(t),
        can_return_true(sys.place(t)),
        sys.owes_signal(t),
    ensures
        sys.after(step).has(t),
        can_return_true(sys.after(step).place(t)),
        sys.after(step).owes_signal(t),
{
    let next = sys.after(step);
    if has_timed_out(next.place(t)) {
        timeout_only_without_a_signal(sys, step, t);
    }
}

/// When the system has settled, every wait that was owed a signal has returned `true`, if it had
/// not already come to another result.
pub proof fn owed_signal_ends_the_wait<E>(sys: System<E>, steps: Seq<Step<E>>, t: int)
    requires
        sys.reachable(),
        sys.has(t),
        can_return_true(sys.place(t)),
        sys.owes_signal(t),
        sys.calm_all(steps),
        sys.after_all(steps).settled(),
    ensures
        has_returned_true(sys.after_all(steps).place(t)),
    decreases steps.len(),
{
    if steps.len() > 0 {
        lemma_calm_step_keeps_hope(sys, steps[0], t);
        steps_lead_to_reachable_states(sys, steps[0]);
        owed_signal_ends_the_wait(sys.after(steps[0]), steps.skip(1), t);
    } else {
        lemma_owed_signal_keeps_going(sys, t);
    }
}

/// When the system has settled, every creation that was under way has a waiter to show for it.
pub proof fn creation_comes_to_an_end<E>(sys: System<E>, steps: Seq<Step<E>>, t: int)
    requires
        sys.reachable(),
        sys.has(t),
        sys.place(t) is Creating && is_busy(sys.place(t)) || sys.place(t) is Holding,
        sys.calm_all(steps),
        sys.after_all(steps).settled(),
    ensures
        sys.after_all(steps).place(t) is Holding,
    decreases steps.len(),
{
    if steps.len() > 0 {
        steps_lead_to_reachable_states(sys, steps[0]);
        assert(sys.after(steps[0]).has(t));
        creation_comes_to_an_end(sys.after(steps[0]), steps.skip(1), t);
    } else if !(sys.place(t) is Holding) {
        lock_is_exclusive(sys);
        assert(sys.has(t));
        lemma_lock_holder_goes_on(sys);
    }
}

/// One signal ends all waits that are under way and have come to no other result. It takes no
/// further signal, and it does not matter who reads it from the pipe.
pub proof fn one_signal_ends_every_wait<E>(sys: System<E>, full: bool, steps: Seq<Step<E>>)
    requires
        sys.reachable(),
        sys.enables(Step::Signal { full }),
        sys.after(Step::Signal { full }).calm_all(steps),
        sys.after(Step::Signal { full }).after_all(steps).settled(),
    ensures
        forall|t: int| #[trigger]
            sys.has(t) && can_return_true(sys.place(t)) ==> has_returned_true(
                sys.after(Step::Signal { full }).after_all(steps).place(t),
            ),
{
    let next = sys.after(Step::Signal { full });
    steps_lead_to_reachable_states(sys, Step::Signal { full });
    assert forall|t: int| #[trigger] sys.has(t) && can_return_true(sys.place(t)) implies
        has_returned_true(next.after_all(steps).place(t)) by {
        signal_is_owed_to_every_waiter(sys, full, t);
        owed_signal_ends_the_wait(next, steps, t);
    }
}

/// If a signal has been delivered since a waiter was created, a wait returns `true` without any
/// further signal, whatever the deadline, and even if someone else has read the signal from the
/// pipe in between.
pub proof fn wait_after_a_signal_returns_true<E>(
    sys: System<E>,
    t: int,
    maybe_deadline: Option<Instant>,
    steps: Seq<Step<E>>,
)
    requires
        sys.reachable(),
        sys.enables(Step::Wait { task: t, maybe_deadline }),
        sys.owes_signal(t),
        sys.after(Step::Wait { task: t, maybe_deadline }).calm_all(steps),
        sys.after(Step::Wait { task: t, maybe_deadline }).after_all(steps).settled(),
    ensures
        has_returned_true(
            sys.after(Step::Wait { task: t, maybe_deadline }).after_all(steps).place(t),
        ),
{
    steps_lead_to_reachable_states(sys, Step::Wait { task: t, maybe_deadline });
    owed_signal_ends_the_wait(sys.after(Step::Wait { task: t, maybe_deadline }), steps, t);
}

/// A task that sleeps and is woken because the polling task gave up does not come to a result for
/// that reason. It polls or sleeps on, and a signal that is delivered later makes it return `true`.
pub proof fn wakeup_leaves_the_wait_open<E>(
    sys: System<E>,
    t: int,
    full: bool,
    steps: Seq<Step<E>>,
)
    requires
        sys.reachable(),
        sys.enables(Step::Woken { task: t, timed_out: false }),
        sys.tasks[t].marker == sys.state.signal_marker,
        sys.after(Step::Woken { task: t, timed_out: false }).enables(Step::Signal { full }),
        sys.after(Step::Woken { task: t, timed_out: false }).after(Step::Signal { full }).calm_all(
            steps,
        ),
        sys.after(Step::Woken { task: t, timed_out: false }).after(
            Step::Signal { full },
        ).after_all(steps).settled(),
    ensures
        !(sys.after(Step::Woken { task: t, timed_out: false }).place(t) matches Place::Waiting(
            TurnView::Return { .. },
        )),
        has_returned_true(
            sys.after(Step::Woken { task: t, timed_out: false }).after(
                Step::Signal { full },
            ).after_all(steps).place(t),
        ),
{
    let woken = sys.after(Step::Woken { task: t, timed_out: false });
    wakeup_alone_ends_no_wait(sys, t);
    steps_lead_to_reachable_states(sys, Step::Woken { task: t, timed_out: false });
    assert(woken.has(t));
    one_signal_ends_every_wait(woken, full, steps);
}

} // verus!
