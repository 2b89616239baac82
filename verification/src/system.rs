//! All the threads together.
//!
//! A task is one waiter, from the call that creates it to the end of its wait. Tasks take turns at
//! the lock in any order, signals are delivered at any time, and sleeps and polls end at any time
//! and for any reason. What every task does next, and what it does to the shared state, is what
//! the functions of [`waiter`](crate::waiter) say. The propositions here hold in every state that
//! such a system can reach.

use vstd::prelude::*;

use crate::state::{drain_outcome, state_after_drain, ErrorKind, Failure, StateView};
use crate::time::Instant;
use crate::waiter::{
    clock_turn, creation_opened, creation_read, creation_start, peek_turn, polled_turn, read_turn,
    relocked_turn, state_after_open, state_after_read, state_after_relock, wait_turn, woken_turn,
    CreationView, TurnView,
};

verus! {

/// Where a task is in its life.
pub enum Place<E> {
    /// It is about to do what the `Creation` says.
    Creating(CreationView<E>),
    /// It has a waiter and has not begun to wait.
    Holding,
    /// It is about to do what the `Turn` says, or is in the middle of it.
    Waiting(TurnView<E>),
    /// It is over, or has dropped its waiter.
    Gone,
}

pub struct Task<E> {
    pub place: Place<E>,
    /// The waiter's marker, once there is one.
    pub marker: nat,
    /// The deadline, once the task has begun to wait.
    pub maybe_deadline: Option<Instant>,
    /// How many signals had been delivered when the waiter was created.
    pub created_at: nat,
    /// How many signals had been delivered when the creation of the waiter found the pipe empty,
    /// if it looked.
    pub emptied_at: Option<nat>,
    /// Whether the task has been notified since it last went to sleep.
    pub notified: bool,
}

pub struct System<E> {
    pub state: StateView,
    /// How many bytes are in the pipe.
    pub pipe: nat,
    /// How many signals have been delivered since the pipe was opened.
    pub delivered: nat,
    /// How many signals had been delivered when a read last failed in the middle of a drain that
    /// had already found bytes. Such a drain takes signals out of the pipe that no one gets to
    /// know of.
    pub lost_at: nat,
    /// The task that holds the lock between two decisions.
    pub lock: Option<int>,
    /// The task that polls.
    pub poller: Option<int>,
    /// All tasks there have ever been. A task goes by its index.
    pub tasks: Seq<Task<E>>,
}

/// What can happen next.
pub enum Step<E> {
    /// A signal is delivered, and its handler writes a byte to the pipe unless that is full.
    Signal { full: bool },
    /// A new task starts to create its waiter.
    Create,
    /// A task gets to know what came of opening the pipe.
    Opened { task: int, opened: Result<(), E> },
    /// A task that is creating its waiter reads from the pipe.
    CreationRead { task: int, read: Result<usize, Failure<E>> },
    /// A task begins to wait.
    Wait { task: int, maybe_deadline: Option<Instant> },
    /// A task reads the clock.
    Clock { task: int, now: Instant },
    /// A task wakes up and takes the lock.
    Woken { task: int, timed_out: bool },
    /// A task gets to know whether there is anything in the pipe.
    Peeked { task: int, peeked: Result<bool, Failure<E>> },
    /// A task that is waiting reads from the pipe.
    Read { task: int, read: Result<usize, Failure<E>> },
    /// A task's poll ends, and it takes the lock.
    Polled { task: int, polled: Result<(), Failure<E>> },
    /// A task that is done polling takes the lock once more.
    Relocked { task: int },
    /// A task is over, or drops its waiter.
    Leave { task: int },
}

impl<E> Step<E> {
    /// The task that takes the step. For a signal that is no task.
    pub open spec fn mover(self, sys: System<E>) -> int {
        match self {
            Step::Signal { .. } => -1,
            Step::Create => sys.tasks.len() as int,
            Step::Opened { task, .. } => task,
            Step::CreationRead { task, .. } => task,
            Step::Wait { task, .. } => task,
            Step::Clock { task, .. } => task,
            Step::Woken { task, .. } => task,
            Step::Peeked { task, .. } => task,
            Step::Read { task, .. } => task,
            Step::Polled { task, .. } => task,
            Step::Relocked { task } => task,
            Step::Leave { task } => task,
        }
    }
}

/// Whether a task keeps the lock until its next decision.
pub open spec fn holds_lock<E>(place: Place<E>) -> bool {
    match place {
        Place::Creating(CreationView::Open) => true,
        Place::Creating(CreationView::Read { .. }) => true,
        Place::Waiting(TurnView::Clock(_)) => true,
        Place::Waiting(TurnView::Peek(_)) => true,
        Place::Waiting(TurnView::Read(_)) => true,
        _ => false,
    }
}

/// Whether a task has the role of the one that polls.
pub open spec fn is_polling<E>(place: Place<E>) -> bool {
    match place {
        Place::Waiting(TurnView::Clock(clock)) => !(clock.purpose is Sleep),
        Place::Waiting(TurnView::Read(draining)) => draining.polling,
        Place::Waiting(TurnView::Poll { .. }) => true,
        Place::Waiting(TurnView::Relock { .. }) => true,
        _ => false,
    }
}

/// Whether a task sleeps with no timeout although it has a deadline.
pub open spec fn sleeps_past_its_deadline<E>(task: Task<E>) -> bool {
    &&& task.maybe_deadline is Some
    &&& task.place matches Place::Waiting(TurnView::Sleep { timeout, sleeping }) && timeout is None
}

/// Whether a task's wait has come to the result that the time is up.
pub open spec fn has_timed_out<E>(place: Place<E>) -> bool {
    match place {
        Place::Waiting(TurnView::Return { result, .. }) => result == Ok::<bool, E>(false),
        Place::Waiting(TurnView::Relock { result }) => result == Ok::<bool, E>(false),
        _ => false,
    }
}

/// Whether a task is in the middle of a drain that has already found bytes.
pub open spec fn has_found_bytes<E>(place: Place<E>) -> bool {
    match place {
        Place::Creating(CreationView::Read { signaled }) => signaled,
        Place::Waiting(TurnView::Read(draining)) => draining.signaled,
        _ => false,
    }
}

/// Whether a read of a pipe with so many bytes in it can have this outcome.
pub open spec fn read_possible<E>(pipe: nat, read: Result<usize, Failure<E>>) -> bool {
    match read {
        Ok(count) => 0 < count <= pipe,
        Err(failure) => failure.kind == ErrorKind::WouldBlock ==> pipe == 0,
    }
}

/// Whether a look at a pipe with so many bytes in it can have this outcome.
pub open spec fn peek_possible<E>(pipe: nat, peeked: Result<bool, Failure<E>>) -> bool {
    match peeked {
        Ok(readable) => readable <==> pipe > 0,
        Err(_) => true,
    }
}

/// How many bytes a read leaves in the pipe.
pub open spec fn pipe_after<E>(pipe: nat, read: Result<usize, Failure<E>>) -> nat {
    match read {
        Ok(count) => (pipe - count) as nat,
        Err(_) => pipe,
    }
}

impl<E> System<E> {
    /// The start of the process.
    pub open spec fn start() -> System<E> {
        System {
            state: StateView::initial(),
            pipe: 0,
            delivered: 0,
            lost_at: 0,
            lock: None,
            poller: None,
            tasks: Seq::empty(),
        }
    }

    pub open spec fn has(self, task: int) -> bool {
        0 <= task < self.tasks.len()
    }

    pub open spec fn place(self, task: int) -> Place<E> {
        self.tasks[task].place
    }

    /// Whether a task has a waiter: it waits or is about to.
    pub open spec fn has_waiter(self, task: int) -> bool {
        self.has(task) && (self.place(task) is Holding || self.place(task) is Waiting)
    }

    /// Whether a signal has been delivered that a task's waiter has to get to know of: one from
    /// after the waiter was created, and not taken out of the pipe by a drain that failed.
    pub open spec fn owes_signal(self, task: int) -> bool {
        self.tasks[task].created_at < self.delivered && self.lost_at < self.delivered
    }

    /// Whether a drain that has already found bytes is under way.
    pub open spec fn drain_has_found_bytes(self) -> bool {
        match self.lock {
            Some(task) => has_found_bytes(self.place(task)),
            None => false,
        }
    }

    /// Whether a signal is somewhere on its way to a task's waiter: in the pipe, just taken out of
    /// it, or visible in the marker.
    pub open spec fn has_news(self, task: int) -> bool {
        self.pipe > 0 || self.drain_has_found_bytes() || self.tasks[task].marker
            != self.state.signal_marker
    }

    /// A task moves on.
    pub open spec fn put(self, task: int, value: Task<E>) -> System<E> {
        System {
            lock: if holds_lock(value.place) {
                Some(task)
            } else if self.lock == Some(task) {
                None
            } else {
                self.lock
            },
            poller: if is_polling(value.place) {
                Some(task)
            } else if self.poller == Some(task) {
                None
            } else {
                self.poller
            },
            tasks: if task == self.tasks.len() {
                self.tasks.push(value)
            } else {
                self.tasks.update(task, value)
            },
            ..self
        }
    }

    /// A task that is creating its waiter moves on, or has its waiter.
    pub open spec fn put_creation(
        self,
        task: int,
        creation: CreationView<E>,
        emptied_at: Option<nat>,
    ) -> System<E> {
        let blank = Task {
            place: Place::Creating(creation),
            marker: 0,
            maybe_deadline: None,
            created_at: self.delivered,
            emptied_at,
            notified: false,
        };
        match creation {
            CreationView::Return(Ok(marker)) => self.put(
                task,
                Task { place: Place::Holding, marker, ..blank },
            ),
            _ => self.put(task, blank),
        }
    }

    /// A task that is waiting moves on.
    pub open spec fn put_turn(self, task: int, turn: TurnView<E>) -> System<E> {
        self.put(
            task,
            Task { place: Place::Waiting(turn), notified: false, ..self.tasks[task] },
        )
    }

    /// Everyone who sleeps on the condition variable is notified.
    pub open spec fn notify_all(self) -> System<E> {
        System {
            tasks: self.tasks.map_values(
                |value: Task<E>|
                    if value.place matches Place::Waiting(TurnView::Sleep { .. }) {
                        Task { notified: true, ..value }
                    } else {
                        value
                    },
            ),
            ..self
        }
    }

    /// Whether a step can be taken.
    pub open spec fn enables(self, step: Step<E>) -> bool {
        match step {
            Step::Signal { full } => self.state.reader_is_open && (full ==> self.pipe > 0),
            Step::Create => self.lock is None,
            Step::Opened { task, opened } => self.has(task) && self.place(task) == Place::Creating(
                CreationView::<E>::Open,
            ),
            Step::CreationRead { task, read } => {
                &&& self.has(task)
                &&& self.place(task) matches Place::Creating(CreationView::Read { .. })
                &&& read_possible(self.pipe, read)
            },
            Step::Wait { task, maybe_deadline } => {
                &&& self.has(task)
                &&& self.place(task) is Holding
                &&& self.lock is None
            },
            Step::Clock { task, now } => self.has(task) && self.place(task) matches Place::Waiting(
                TurnView::Clock(_),
            ),
            Step::Woken { task, timed_out } => {
                &&& self.has(task)
                &&& self.place(task) matches Place::Waiting(TurnView::Sleep { .. })
                &&& self.lock is None
            },
            Step::Peeked { task, peeked } => {
                &&& self.has(task)
                &&& self.place(task) matches Place::Waiting(TurnView::Peek(_))
                &&& peek_possible(self.pipe, peeked)
            },
            Step::Read { task, read } => {
                &&& self.has(task)
                &&& self.place(task) matches Place::Waiting(TurnView::Read(_))
                &&& read_possible(self.pipe, read)
            },
            Step::Polled { task, polled } => {
                &&& self.has(task)
                &&& self.place(task) matches Place::Waiting(TurnView::Poll { .. })
                &&& self.lock is None
            },
            Step::Relocked { task } => {
                &&& self.has(task)
                &&& self.place(task) matches Place::Waiting(TurnView::Relock { .. })
                &&& self.lock is None
            },
            Step::Leave { task } => {
                &&& self.has(task)
                &&& match self.place(task) {
                    Place::Creating(CreationView::Return(_)) => true,
                    Place::Holding => true,
                    Place::Waiting(TurnView::Return { .. }) => true,
                    _ => false,
                }
            },
        }
    }

    /// The system after a step.
    pub open spec fn after(self, step: Step<E>) -> System<E> {
        match step {
            Step::Signal { full } => System {
                pipe: if full {
                    self.pipe
                } else {
                    self.pipe + 1
                },
                delivered: self.delivered + 1,
                ..self
            },
            Step::Create => self.put_creation(
                self.tasks.len() as int,
                creation_start(self.state),
                None,
            ),
            Step::Opened { task, opened } => {
                let state = state_after_open(self.state, opened);
                System { state, ..self }.put_creation(task, creation_opened(state, opened), None)
            },
            Step::CreationRead { task, read } => match self.place(task) {
                Place::Creating(CreationView::Read { signaled }) => {
                    let drained = drain_outcome(signaled, read);
                    System {
                        state: state_after_drain(self.state, drained),
                        pipe: pipe_after(self.pipe, read),
                        lost_at: if signaled && (drained matches Some(Err(_))) {
                            self.delivered
                        } else {
                            self.lost_at
                        },
                        ..self
                    }.put_creation(
                        task,
                        creation_read(signaled, self.state, read),
                        Some(self.delivered),
                    )
                },
                _ => self,
            },
            Step::Wait { task, maybe_deadline } => self.put(
                task,
                Task {
                    place: Place::Waiting(
                        wait_turn(self.tasks[task].marker, maybe_deadline, self.state),
                    ),
                    maybe_deadline,
                    notified: false,
                    ..self.tasks[task]
                },
            ),
            Step::Clock { task, now } => match self.place(task) {
                Place::Waiting(TurnView::Clock(clock)) => self.put_turn(
                    task,
                    clock_turn(clock, now),
                ),
                _ => self,
            },
            Step::Woken { task, timed_out } => match self.place(task) {
                Place::Waiting(TurnView::Sleep { timeout, sleeping }) => self.put_turn(
                    task,
                    woken_turn(sleeping, timed_out, self.state),
                ),
                _ => self,
            },
            Step::Peeked { task, peeked } => match self.place(task) {
                Place::Waiting(TurnView::Peek(peeking)) => self.put_turn(
                    task,
                    peek_turn(peeking, peeked),
                ),
                _ => self,
            },
            Step::Read { task, read } => match self.place(task) {
                Place::Waiting(TurnView::Read(draining)) => {
                    let drained = drain_outcome(draining.signaled, read);
                    System {
                        state: state_after_read(draining, self.state, read),
                        pipe: pipe_after(self.pipe, read),
                        lost_at: if draining.signaled && (drained matches Some(Err(_))) {
                            self.delivered
                        } else {
                            self.lost_at
                        },
                        ..self
                    }.put_turn(task, read_turn(draining, read))
                },
                _ => self,
            },
            Step::Polled { task, polled } => match self.place(task) {
                Place::Waiting(TurnView::Poll { timeout_ms, maybe_deadline }) => self.put_turn(
                    task,
                    polled_turn(maybe_deadline, polled),
                ),
                _ => self,
            },
            Step::Relocked { task } => match self.place(task) {
                Place::Waiting(TurnView::Relock { result }) => {
                    let turn = relocked_turn(result);
                    let next = System { state: state_after_relock(self.state), ..self };
                    if turn matches TurnView::Return { result, notify_all } && notify_all {
                        next.notify_all().put_turn(task, turn)
                    } else {
                        next.put_turn(task, turn)
                    }
                },
                _ => self,
            },
            Step::Leave { task } => self.put(
                task,
                Task { place: Place::Gone, ..self.tasks[task] },
            ),
        }
    }

    /// Whether a whole sequence of steps can be taken.
    pub open spec fn enables_all(self, steps: Seq<Step<E>>) -> bool
        decreases steps.len(),
    {
        steps.len() > 0 ==> self.enables(steps[0]) && self.after(steps[0]).enables_all(
            steps.skip(1),
        )
    }

    /// The system after a whole sequence of steps.
    pub open spec fn after_all(self, steps: Seq<Step<E>>) -> System<E>
        decreases steps.len(),
    {
        if steps.len() > 0 {
            self.after(steps[0]).after_all(steps.skip(1))
        } else {
            self
        }
    }

    /// Whether the system can get here from the start of the process.
    pub open spec fn reachable(self) -> bool {
        exists|steps: Seq<Step<E>>|
            System::<E>::start().enables_all(steps) && self == #[trigger] System::<
                E,
            >::start().after_all(steps)
    }
}

} // verus!
