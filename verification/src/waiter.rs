//! Waiters: how one is created, and what it takes to wait with one.
//!
//! Nothing here touches the pipe, the clock, the lock or the condition variable. Each function
//! decides on the next thing to do there, a `Creation` or a `Turn`. The caller does it, and hands
//! what came of it to the value that is found next to the instruction. The shared state is
//! borrowed where the caller holds the lock.

use vstd::prelude::*;

use crate::marker::Marker;
use crate::state::{
    drain_outcome, drain_sigchld_reader, pipe_still_open, state_after_drain, ErrorKind, Failure,
    State, StateView,
};
use crate::time::{nanos_left, poll_millis, poll_timeout, Duration, Instant};

verus! {

/// An object that buffers `SIGCHLD` signals so that you can wait on them reliably.
///
/// There's a required order of operations here:
///
/// 1. Create a `Waiter`.
/// 2. Poll your child process, to see if it's already exited.
/// 3. Call [`wait`](Self::wait), [`wait_timeout`](Self::wait_timeout), or
///    [`wait_deadline`](Self::wait_deadline).
/// 4. Loop back to step 1.
///
/// If you don't create the `Waiter` _before_ polling the child, then a signal delivered
/// immediately after you poll could get missed, and you could wait forever.
#[derive(Debug)]
pub struct Waiter {
    original_signal_marker: Marker,
}

impl View for Waiter {
    type V = nat;

    /// The marker at the time when the waiter was created.
    closed spec fn view(&self) -> nat {
        self.original_signal_marker@
    }
}

// ---------------------------------------------------------------------------------------------
// Creating a waiter
// ---------------------------------------------------------------------------------------------

/// The next thing to do in order to create a waiter.
#[derive(Debug)]
pub enum Creation<E> {
    /// Keep holding the lock, open the pipe, and have `SIGCHLD` write to it.
    Open(Opening),
    /// Keep holding the lock, and read from the pipe.
    Read(CreationDrain),
    /// Release the lock. The waiter has been created, or it could not be.
    Return(Result<Waiter, E>),
}

/// The pipe is being opened.
#[derive(Debug)]
pub struct Opening {
    _private: (),
}

/// Signals from before the waiter's time are being drained.
#[derive(Debug)]
pub struct CreationDrain {
    signaled: bool,
}

/// A `Creation`, with a waiter as its marker.
pub enum CreationView<E> {
    Open,
    Read { signaled: bool },
    Return(Result<nat, E>),
}

impl View for CreationDrain {
    type V = bool;

    /// Whether a read has found bytes so far.
    closed spec fn view(&self) -> bool {
        self.signaled
    }
}

impl<E> View for Creation<E> {
    type V = CreationView<E>;

    open spec fn view(&self) -> CreationView<E> {
        match *self {
            Creation::Open(_) => CreationView::Open,
            Creation::Read(next) => CreationView::Read { signaled: next@ },
            Creation::Return(Ok(waiter)) => CreationView::Return(Ok(waiter@)),
            Creation::Return(Err(error)) => CreationView::Return(Err(error)),
        }
    }
}

/// How a creation goes on when the pipe is open: it is drained, unless another thread is polling
/// it and will want to see what is in it.
pub open spec fn creation_with_reader<E>(state: StateView) -> CreationView<E> {
    if state.someone_is_polling {
        CreationView::Return(Ok(state.signal_marker))
    } else {
        CreationView::Read { signaled: false }
    }
}

/// How a creation starts.
pub open spec fn creation_start<E>(state: StateView) -> CreationView<E> {
    if state.reader_is_open {
        creation_with_reader(state)
    } else {
        CreationView::Open
    }
}

/// How a creation goes on after the attempt to open the pipe.
pub open spec fn creation_opened<E>(state: StateView, outcome: Result<(), E>) -> CreationView<E> {
    match outcome {
        Ok(()) => creation_with_reader(state),
        Err(error) => CreationView::Return(Err(error)),
    }
}

/// The shared state after the attempt to open the pipe.
pub open spec fn state_after_open<E>(state: StateView, outcome: Result<(), E>) -> StateView {
    if outcome is Ok {
        state.with_reader()
    } else {
        state
    }
}

/// How a creation goes on after a read. The waiter gets the marker that is current after the
/// drain, so what the drain found is not news to it.
pub open spec fn creation_read<E>(
    signaled: bool,
    state: StateView,
    read: Result<usize, Failure<E>>,
) -> CreationView<E> {
    let drained = drain_outcome(signaled, read);
    match drained {
        None => CreationView::Read { signaled: true },
        Some(Ok(_)) => CreationView::Return(Ok(state_after_drain(state, drained).signal_marker)),
        Some(Err(error)) => CreationView::Return(Err(error)),
    }
}

impl Waiter {
    /// Begins to create a `Waiter`. The caller has just taken the lock.
    ///
    /// Any `SIGCHLD` signals that arrive after a `Waiter` is created, but before a call to
    /// [`wait`](Self::wait), [`wait_timeout`](Self::wait_timeout), or
    /// [`wait_deadline`](Self::wait_deadline), will be buffered. In that case the next call to one
    /// of those methods will return immediately.
    pub fn new<E>(state: &State) -> (creation: Creation<E>)
        ensures
            creation@ == creation_start::<E>(state@),
    {
        if state.reader_is_open() {
            Waiter::with_reader(state)
        } else {
            // The first time we get here, the pipe has to be opened. The lock is held meanwhile,
            // so only one thread does this.
            Creation::Open(Opening { _private: () })
        }
    }

    fn with_reader<E>(state: &State) -> (creation: Creation<E>)
        ensures
            creation@ == creation_with_reader::<E>(state@),
    {
        if state.someone_is_polling() {
            Creation::Return(Ok(Waiter::marked(state)))
        } else {
            Creation::Read(CreationDrain { signaled: false })
        }
    }

    fn marked(state: &State) -> (waiter: Waiter)
        ensures
            waiter@ == state@.signal_marker,
    {
        Waiter { original_signal_marker: state.signal_marker().clone() }
    }
}

impl Opening {
    /// Takes what came of opening the pipe. After a failure it counts as not open, and the next
    /// creation will try again.
    pub fn opened<E>(self, outcome: Result<(), E>, state: &mut State) -> (creation: Creation<E>)
        ensures
            final(state)@ == state_after_open(old(state)@, outcome),
            creation@ == creation_opened(final(state)@, outcome),
    {
        match outcome {
            Ok(()) => {
                state.set_reader_is_open();
                Waiter::with_reader(state)
            },
            Err(error) => Creation::Return(Err(error)),
        }
    }
}

impl CreationDrain {
    /// Takes the outcome of a read.
    pub fn read<E>(self, read: Result<usize, Failure<E>>, state: &mut State) -> (creation: Creation<
        E,
    >)
        requires
            pipe_still_open(read),
        ensures
            final(state)@ == state_after_drain(old(state)@, drain_outcome(self@, read)),
            creation@ == creation_read(self@, old(state)@, read),
    {
        match drain_sigchld_reader(self.signaled, read, state) {
            None => Creation::Read(CreationDrain { signaled: true }),
            // Nobody sleeps on the condition variable while nobody polls: no need to notify.
            Some(Ok(_)) => Creation::Return(Ok(Waiter::marked(state))),
            Some(Err(error)) => Creation::Return(Err(error)),
        }
    }
}

// ---------------------------------------------------------------------------------------------
// Waiting
// ---------------------------------------------------------------------------------------------

/// The next thing to do in order to wait.
#[derive(Debug)]
pub enum Turn<E> {
    /// Notify all threads that sleep on the condition variable, if it says so, then release the
    /// lock. The wait is over: a signal has arrived, or the time is up, or it failed.
    Return { result: Result<bool, E>, notify_all: bool },
    /// Keep holding the lock, and read the clock.
    Clock(Clock),
    /// Sleep on the condition variable, for as long as the timeout says or with no timeout, and
    /// take the lock again.
    Sleep { timeout: Option<Duration>, sleeping: Sleeping },
    /// Keep holding the lock, and see whether there is anything in the pipe, without reading it.
    Peek(Peeking),
    /// Keep holding the lock, and read from the pipe.
    Read(Draining),
    /// Release the lock, poll the pipe for up to so many milliseconds, or with no timeout if they
    /// are negative, and take the lock again.
    Poll { timeout_ms: i32, polling: Polling },
    /// Release the lock, and take it again.
    Relock(Settling<E>),
}

/// The clock is being read.
#[derive(Debug)]
pub struct Clock {
    deadline: Instant,
    purpose: Purpose,
}

#[derive(Debug)]
enum Purpose {
    Sleep(Waiter),
    Poll,
    Expiry,
}

/// The thread sleeps, while another one is polling.
#[derive(Debug)]
pub struct Sleeping {
    waiter: Waiter,
    maybe_deadline: Option<Instant>,
}

/// The thread's time is up, and it makes sure that there is no signal on its way to the thread that
/// polls.
#[derive(Debug)]
pub struct Peeking {
    waiter: Waiter,
    maybe_deadline: Option<Instant>,
}

/// The pipe is being drained, before the first poll or after one.
#[derive(Debug)]
pub struct Draining {
    maybe_deadline: Option<Instant>,
    polling: bool,
    expired: bool,
    signaled: bool,
}

/// The thread is the one that polls.
#[derive(Debug)]
pub struct Polling {
    maybe_deadline: Option<Instant>,
}

/// The thread is done polling, and gives up its role.
#[derive(Debug)]
pub struct Settling<E> {
    result: Result<bool, E>,
}

/// What the clock is read for.
pub enum PurposeView {
    /// To know how long to sleep.
    Sleep { marker: nat },
    /// To know how long to poll.
    Poll,
    /// To know whether the deadline has passed, before the look into the pipe that follows a poll.
    Expiry,
}

pub struct ClockView {
    pub deadline: Instant,
    pub purpose: PurposeView,
}

pub struct SleepingView {
    pub marker: nat,
    pub maybe_deadline: Option<Instant>,
}

pub struct DrainingView {
    pub maybe_deadline: Option<Instant>,
    /// The thread has the role of the one that polls.
    pub polling: bool,
    /// The deadline had passed before the drain began.
    pub expired: bool,
    /// A read has found bytes so far.
    pub signaled: bool,
}

/// A `Turn`, with a waiter as its marker.
pub enum TurnView<E> {
    Return { result: Result<bool, E>, notify_all: bool },
    Clock(ClockView),
    Sleep { timeout: Option<Duration>, sleeping: SleepingView },
    Peek(SleepingView),
    Read(DrainingView),
    Poll { timeout_ms: i32, maybe_deadline: Option<Instant> },
    Relock { result: Result<bool, E> },
}

impl View for Clock {
    type V = ClockView;

    closed spec fn view(&self) -> ClockView {
        ClockView {
            deadline: self.deadline,
            purpose: match self.purpose {
                Purpose::Sleep(waiter) => PurposeView::Sleep { marker: waiter@ },
                Purpose::Poll => PurposeView::Poll,
                Purpose::Expiry => PurposeView::Expiry,
            },
        }
    }
}

impl View for Sleeping {
    type V = SleepingView;

    closed spec fn view(&self) -> SleepingView {
        SleepingView { marker: self.waiter@, maybe_deadline: self.maybe_deadline }
    }
}

impl View for Peeking {
    type V = SleepingView;

    closed spec fn view(&self) -> SleepingView {
        SleepingView { marker: self.waiter@, maybe_deadline: self.maybe_deadline }
    }
}

impl View for Draining {
    type V = DrainingView;

    closed spec fn view(&self) -> DrainingView {
        DrainingView {
            maybe_deadline: self.maybe_deadline,
            polling: self.polling,
            expired: self.expired,
            signaled: self.signaled,
        }
    }
}

impl View for Polling {
    type V = Option<Instant>;

    /// The deadline.
    closed spec fn view(&self) -> Option<Instant> {
        self.maybe_deadline
    }
}

impl<E> View for Settling<E> {
    type V = Result<bool, E>;

    /// The result that the wait is going to have.
    closed spec fn view(&self) -> Result<bool, E> {
        self.result
    }
}

impl<E> View for Turn<E> {
    type V = TurnView<E>;

    open spec fn view(&self) -> TurnView<E> {
        match *self {
            Turn::Return { result, notify_all } => TurnView::Return { result, notify_all },
            Turn::Clock(next) => TurnView::Clock(next@),
            Turn::Sleep { timeout, sleeping } => TurnView::Sleep { timeout, sleeping: sleeping@ },
            Turn::Peek(next) => TurnView::Peek(next@),
            Turn::Read(next) => TurnView::Read(next@),
            Turn::Poll { timeout_ms, polling } => TurnView::Poll {
                timeout_ms,
                maybe_deadline: polling@,
            },
            Turn::Relock(next) => TurnView::Relock { result: next@ },
        }
    }
}

/// The look into the pipe before a thread takes over the polling.
pub open spec fn first_drain(maybe_deadline: Option<Instant>) -> DrainingView {
    DrainingView { maybe_deadline, polling: false, expired: false, signaled: false }
}

/// The look into the pipe after a poll, by which time the deadline had passed or not.
pub open spec fn next_drain(maybe_deadline: Option<Instant>, expired: bool) -> DrainingView {
    DrainingView { maybe_deadline, polling: true, expired, signaled: false }
}

/// The decision at the start of a wait, and again after every sleep. If signals have been observed
/// since the waiter was created, the wait is over. If another thread is polling, sleep until it
/// wakes us up. Otherwise take over the polling, which starts with a look at what is in the pipe.
pub open spec fn wait_turn<E>(
    marker: nat,
    maybe_deadline: Option<Instant>,
    state: StateView,
) -> TurnView<E> {
    if marker != state.signal_marker {
        TurnView::Return { result: Ok(true), notify_all: false }
    } else if state.someone_is_polling {
        match maybe_deadline {
            Some(deadline) => TurnView::Clock(
                ClockView { deadline, purpose: PurposeView::Sleep { marker } },
            ),
            None => TurnView::Sleep {
                timeout: None,
                sleeping: SleepingView { marker, maybe_deadline },
            },
        }
    } else {
        TurnView::Read(first_drain(maybe_deadline))
    }
}

/// The decision after a sleep. If the time is up, no signal has been observed, and another thread
/// is polling, then a signal may still be in the pipe, and it takes a look to know. If nobody polls
/// any more, there is the look into the pipe that every wait takes.
pub open spec fn woken_turn<E>(
    sleeping: SleepingView,
    timed_out: bool,
    state: StateView,
) -> TurnView<E> {
    if timed_out && sleeping.maybe_deadline is Some && sleeping.marker == state.signal_marker
        && state.someone_is_polling {
        TurnView::Peek(sleeping)
    } else {
        wait_turn(sleeping.marker, sleeping.maybe_deadline, state)
    }
}

/// The decision of a thread whose time is up, while another one polls. What is in the pipe is for
/// that one to read, or it could be stuck in its poll. It is going to be done soon, and then wakes
/// this one.
pub open spec fn peek_turn<E>(
    peeking: SleepingView,
    outcome: Result<bool, Failure<E>>,
) -> TurnView<E> {
    match outcome {
        Ok(true) => TurnView::Sleep { timeout: None, sleeping: peeking },
        Ok(false) => TurnView::Return { result: Ok(false), notify_all: false },
        Err(failure) => if failure.kind == ErrorKind::Interrupted {
            TurnView::Peek(peeking)
        } else {
            TurnView::Return { result: Err(failure.error), notify_all: false }
        },
    }
}

/// The decision to poll, which takes a look at the clock first if there is a deadline.
pub open spec fn poll_turn<E>(maybe_deadline: Option<Instant>) -> TurnView<E> {
    match maybe_deadline {
        Some(deadline) => TurnView::Clock(ClockView { deadline, purpose: PurposeView::Poll }),
        None => TurnView::Poll { timeout_ms: (-1) as i32, maybe_deadline },
    }
}

/// The decision once the time is known.
pub open spec fn clock_turn<E>(clock: ClockView, now: Instant) -> TurnView<E> {
    let left = nanos_left(clock.deadline, now);
    match clock.purpose {
        PurposeView::Sleep { marker } => TurnView::Sleep {
            timeout: Some(Duration { nanos: left as u128 }),
            sleeping: SleepingView { marker, maybe_deadline: Some(clock.deadline) },
        },
        PurposeView::Poll => TurnView::Poll {
            timeout_ms: poll_millis(left),
            maybe_deadline: Some(clock.deadline),
        },
        PurposeView::Expiry => TurnView::Read(
            next_drain(Some(clock.deadline), now.nanos > clock.deadline.nanos),
        ),
    }
}

/// The decision after a read. A drain before the first poll ends the wait if it found something or
/// failed, and otherwise makes the thread the one that polls. A drain after a poll ends the polling
/// if it found something or failed, or if the deadline had already passed. Otherwise the thread
/// polls again.
pub open spec fn read_turn<E>(
    draining: DrainingView,
    read: Result<usize, Failure<E>>,
) -> TurnView<E> {
    match drain_outcome(draining.signaled, read) {
        None => TurnView::Read(DrainingView { signaled: true, ..draining }),
        Some(Ok(false)) => if draining.polling && draining.expired {
            TurnView::Relock { result: Ok(false) }
        } else {
            poll_turn(draining.maybe_deadline)
        },
        Some(result) => if draining.polling {
            TurnView::Relock { result }
        } else {
            TurnView::Return { result, notify_all: false }
        },
    }
}

/// The shared state after a read. An empty pipe makes the thread the one that polls.
pub open spec fn state_after_read<E>(
    draining: DrainingView,
    state: StateView,
    read: Result<usize, Failure<E>>,
) -> StateView {
    let drained = drain_outcome(draining.signaled, read);
    let state = state_after_drain(state, drained);
    if drained == Some(Ok::<bool, E>(false)) && !draining.polling {
        state.with_polling(true)
    } else {
        state
    }
}

/// The decision after a poll. An interruption is expected, because that is what signals do.
/// Otherwise there is a look into the pipe. If there is a deadline, the clock is read before that,
/// so that signals from before the deadline are found even if the time is up.
pub open spec fn polled_turn<E>(
    maybe_deadline: Option<Instant>,
    outcome: Result<(), Failure<E>>,
) -> TurnView<E> {
    match outcome {
        Ok(()) => match maybe_deadline {
            Some(deadline) => TurnView::Clock(ClockView { deadline, purpose: PurposeView::Expiry }),
            None => TurnView::Read(next_drain(maybe_deadline, false)),
        },
        Err(failure) => if failure.kind == ErrorKind::Interrupted {
            poll_turn(maybe_deadline)
        } else {
            TurnView::Relock { result: Err(failure.error) }
        },
    }
}

/// The decision of a thread that is done polling, once it has the lock again.
pub open spec fn relocked_turn<E>(result: Result<bool, E>) -> TurnView<E> {
    TurnView::Return { result, notify_all: true }
}

/// The shared state after a thread that is done polling has given up its role.
pub open spec fn state_after_relock(state: StateView) -> StateView {
    state.with_polling(false)
}

impl Waiter {
    /// Begins to block the current thread until any `SIGCHLD` signal arrives. The caller has just
    /// taken the lock.
    ///
    /// If any `SIGCHLD` signals have arrived since the `Waiter` was created, this returns
    /// immediately. This avoids a race condition where the child exits right after you poll it but
    /// right before you wait.
    pub fn wait<E>(self, state: &State) -> (turn: Turn<E>)
        ensures
            turn@ == wait_turn::<E>(self@, None, state@),
    {
        self.wait_inner(None, state)
    }

    /// Begins to block the current thread until either any `SIGCHLD` signal arrives or a timeout
    /// passes, counted from `now`. The caller has read the clock, and has then taken the lock. The
    /// result is `true` if a signal arrived before the timeout.
    pub fn wait_timeout<E>(self, timeout: Duration, now: Instant, state: &State) -> (turn: Turn<E>)
        requires
            now.nanos + timeout.nanos <= i128::MAX,
        ensures
            turn@ == wait_turn::<E>(
                self@,
                Some(Instant { nanos: (now.nanos + timeout.nanos) as i128 }),
                state@,
            ),
    {
        let deadline = now.plus(timeout);
        self.wait_inner(Some(deadline), state)
    }

    /// Begins to block the current thread until either any `SIGCHLD` signal arrives or a deadline
    /// passes. The caller has just taken the lock. The result is `true` if a signal arrived before
    /// the deadline.
    pub fn wait_deadline<E>(self, deadline: Instant, state: &State) -> (turn: Turn<E>)
        ensures
            turn@ == wait_turn::<E>(self@, Some(deadline), state@),
    {
        self.wait_inner(Some(deadline), state)
    }

    /// Begins to wait, or looks again after a sleep, with or without a deadline. The caller has
    /// just taken the lock.
    pub fn wait_inner<E>(self, maybe_deadline: Option<Instant>, state: &State) -> (turn: Turn<E>)
        ensures
            turn@ == wait_turn::<E>(self@, maybe_deadline, state@),
    {
        // Another thread has observed a signal.
        if !self.original_signal_marker.same(state.signal_marker()) {
            return Turn::Return { result: Ok(true), notify_all: false };
        }
        // If there wasn't already a polling thread, we'd do at least one nonblocking check for
        // buffered signals, even if our deadline was in the past. Since there is one, we rely on
        // it to have done that check before it released the lock.
        if state.someone_is_polling() {
            return match maybe_deadline {
                Some(deadline) => Turn::Clock(Clock { deadline, purpose: Purpose::Sleep(self) }),
                None => Turn::Sleep {
                    timeout: None,
                    sleeping: Sleeping { waiter: self, maybe_deadline },
                },
            };
        }
        poll_sigchld_reader(maybe_deadline)
    }
}

/// Takes over the polling. Before the lock is released there has to be a nonblocking check for
/// signals, or other threads would rely on a check that nobody made.
fn poll_sigchld_reader<E>(maybe_deadline: Option<Instant>) -> (turn: Turn<E>)
    ensures
        turn@ == TurnView::<E>::Read(first_drain(maybe_deadline)),
{
    Turn::Read(Draining { maybe_deadline, polling: false, expired: false, signaled: false })
}

impl Clock {
    /// Takes the time.
    pub fn now<E>(self, now: Instant) -> (turn: Turn<E>)
        ensures
            turn@ == clock_turn::<E>(self@, now),
    {
        let deadline = self.deadline;
        match self.purpose {
            Purpose::Sleep(waiter) => Turn::Sleep {
                timeout: Some(deadline.saturating_duration_since(now)),
                sleeping: Sleeping { waiter, maybe_deadline: Some(deadline) },
            },
            Purpose::Poll => Turn::Poll {
                timeout_ms: poll_timeout(deadline.saturating_duration_since(now)),
                polling: Polling { maybe_deadline: Some(deadline) },
            },
            Purpose::Expiry => Turn::Read(
                Draining {
                    maybe_deadline: Some(deadline),
                    polling: true,
                    expired: now.nanos > deadline.nanos,
                    signaled: false,
                },
            ),
        }
    }
}

impl Sleeping {
    /// Takes notice that the thread is awake and holds the lock again, either because its timeout
    /// passed or for any other reason. A signal that has been observed counts even if the time is
    /// up. If the polling thread gave up, this one might take over.
    pub fn woken<E>(self, timed_out: bool, state: &State) -> (turn: Turn<E>)
        ensures
            turn@ == woken_turn::<E>(self@, timed_out, state@),
    {
        if timed_out && self.maybe_deadline.is_some() && state.someone_is_polling()
            && self.waiter.original_signal_marker.same(state.signal_marker()) {
            return Turn::Peek(
                Peeking { waiter: self.waiter, maybe_deadline: self.maybe_deadline },
            );
        }
        self.waiter.wait_inner(self.maybe_deadline, state)
    }
}

impl Peeking {
    /// Takes whether there is anything in the pipe.
    pub fn peeked<E>(self, outcome: Result<bool, Failure<E>>) -> (turn: Turn<E>)
        ensures
            turn@ == peek_turn(self@, outcome),
    {
        match outcome {
            Ok(true) => Turn::Sleep {
                timeout: None,
                sleeping: Sleeping { waiter: self.waiter, maybe_deadline: self.maybe_deadline },
            },
            Ok(false) => Turn::Return { result: Ok(false), notify_all: false },
            Err(failure) => match failure.kind {
                ErrorKind::Interrupted => Turn::Peek(self),
                _ => Turn::Return { result: Err(failure.error), notify_all: false },
            },
        }
    }
}

impl Draining {
    /// Takes the outcome of a read.
    pub fn read<E>(self, read: Result<usize, Failure<E>>, state: &mut State) -> (turn: Turn<E>)
        requires
            pipe_still_open(read),
        ensures
            final(state)@ == state_after_read(self@, old(state)@, read),
            turn@ == read_turn(self@, read),
    {
        let Draining { maybe_deadline, polling, expired, signaled } = self;
        match drain_sigchld_reader(signaled, read, state) {
            None => Turn::Read(Draining { maybe_deadline, polling, expired, signaled: true }),
            Some(Ok(false)) => {
                if !polling {
                    // There were no pending signals. From here on there is a role to give up.
                    state.set_someone_is_polling(true);
                } else if expired {
                    return Turn::Relock(Settling { result: Ok(false) });
                }
                // Otherwise we must've woken up spuriously. Keep polling.
                Polling { maybe_deadline }.poll_sigchld_reader_inner()
            },
            Some(result) => {
                if polling {
                    Turn::Relock(Settling { result })
                } else {
                    // Nobody sleeps on the condition variable at this point, no need to notify.
                    Turn::Return { result, notify_all: false }
                }
            },
        }
    }
}

impl Polling {
    /// Begins to poll, or polls again. Everyone knows that this thread is the one that polls.
    pub fn poll_sigchld_reader_inner<E>(self) -> (turn: Turn<E>)
        ensures
            turn@ == poll_turn::<E>(self@),
    {
        match self.maybe_deadline {
            Some(deadline) => Turn::Clock(Clock { deadline, purpose: Purpose::Poll }),
            None => Turn::Poll { timeout_ms: -1, polling: self },
        }
    }

    /// Takes the outcome of the poll: whether it worked, not what it found.
    pub fn polled<E>(self, outcome: Result<(), Failure<E>>) -> (turn: Turn<E>)
        ensures
            turn@ == polled_turn(self@, outcome),
    {
        let maybe_deadline = self.maybe_deadline;
        match outcome {
            Ok(()) => match maybe_deadline {
                Some(deadline) => Turn::Clock(Clock { deadline, purpose: Purpose::Expiry }),
                None => Turn::Read(
                    Draining { maybe_deadline, polling: true, expired: false, signaled: false },
                ),
            },
            Err(failure) => match failure.kind {
                ErrorKind::Interrupted => self.poll_sigchld_reader_inner(),
                _ => Turn::Relock(Settling { result: Err(failure.error) }),
            },
        }
    }
}

impl<E> Settling<E> {
    /// Takes notice that the lock is held again. Whatever came of the polling, nobody polls any
    /// more, and the sleeping threads are to be woken. If the time was up, one of them will take
    /// over.
    pub fn relocked(self, state: &mut State) -> (turn: Turn<E>)
        ensures
            final(state)@ == old(state)@.with_polling(false),
            turn@ == (TurnView::Return { result: self@, notify_all: true }),
            final(state)@ == state_after_relock(old(state)@),
            turn@ == relocked_turn(self@),
    {
        state.set_someone_is_polling(false);
        Turn::Return { result: self.result, notify_all: true }
    }
}

// ---------------------------------------------------------------------------------------------
// Laws
// ---------------------------------------------------------------------------------------------

/// The view of an instruction tells what the caller is told: the result and whether to notify, the
/// timeout of a sleep, and the timeout of a poll.
pub proof fn view_tells_the_instruction<E>(turn: Turn<E>)
    ensures
        match turn {
            Turn::Return { result, notify_all } => turn@ == (TurnView::Return {
                result,
                notify_all,
            }),
            Turn::Clock(_) => turn@ is Clock,
            Turn::Sleep { timeout, .. } => turn@ matches TurnView::Sleep { timeout: seen, .. }
                && seen == timeout,
            Turn::Peek(_) => turn@ is Peek,
            Turn::Read(_) => turn@ is Read,
            Turn::Poll { timeout_ms, .. } => turn@ matches TurnView::Poll { timeout_ms: seen, .. }
                && seen == timeout_ms,
            Turn::Relock(_) => turn@ is Relock,
        },
{
}

/// The view of an instruction for a creation tells what the caller is told.
pub proof fn view_tells_the_creation<E>(creation: Creation<E>)
    ensures
        match creation {
            Creation::Open(_) => creation@ is Open,
            Creation::Read(_) => creation@ is Read,
            Creation::Return(Ok(waiter)) => creation@ == CreationView::<E>::Return(Ok(waiter@)),
            Creation::Return(Err(error)) => creation@ == CreationView::<E>::Return(Err(error)),
        },
{
}

/// If signals have been observed since a waiter was created, its wait is over at once, whatever the
/// deadline and whether or not anyone is polling. The same goes for a thread that wakes up, even if
/// its time is up.
pub proof fn observed_signal_ends_the_wait_at_once<E>(
    marker: nat,
    maybe_deadline: Option<Instant>,
    timed_out: bool,
    state: StateView,
)
    requires
        marker != state.signal_marker,
    ensures
        wait_turn::<E>(marker, maybe_deadline, state) == (TurnView::<E>::Return {
            result: Ok(true),
            notify_all: false,
        }),
        woken_turn::<E>((SleepingView { marker, maybe_deadline }), timed_out, state) == (
        TurnView::<E>::Return { result: Ok(true), notify_all: false }),
{
}

/// If nobody polls, a wait always makes a check for buffered signals, even if the timeout is zero
/// or the deadline is in the past. If there are any, they end the wait before it has blocked or
/// looked at the clock.
pub proof fn buffered_signals_are_found_whatever_the_deadline<E>(
    marker: nat,
    maybe_deadline: Option<Instant>,
    state: StateView,
    found: Result<usize, Failure<E>>,
    empty: Result<usize, Failure<E>>,
)
    requires
        marker == state.signal_marker,
        !state.someone_is_polling,
        found is Ok,
        empty matches Err(failure) && failure.kind == ErrorKind::WouldBlock,
    ensures
        wait_turn::<E>(marker, maybe_deadline, state) matches TurnView::Read(first)
            && read_turn(first, found) matches TurnView::Read(second) && read_turn(second, empty)
            == (TurnView::<E>::Return { result: Ok(true), notify_all: false }),
{
}

/// A waiter starts with the current marker, in whatever way its creation came to an end. So it has
/// no news yet, and what its creation has drained does not end its wait.
pub proof fn new_waiter_has_no_news<E>(
    state: StateView,
    signaled: bool,
    outcome: Result<(), E>,
    read: Result<usize, Failure<E>>,
    marker: nat,
)
    ensures
        creation_start::<E>(state) == CreationView::<E>::Return(Ok(marker)) ==> marker
            == state.signal_marker,
        creation_opened(state_after_open(state, outcome), outcome) == CreationView::<E>::Return(
            Ok(marker),
        ) ==> marker == state_after_open(state, outcome).signal_marker,
        creation_read(signaled, state, read) == CreationView::<E>::Return(Ok(marker)) ==> marker
            == state_after_drain(state, drain_outcome(signaled, read)).signal_marker,
{
}

/// A failed creation gives back the error. If it was the pipe that could not be opened, nothing has
/// changed, and the next creation tries to open it again.
pub proof fn failed_opening_is_tried_again<E>(state: StateView, error: E)
    requires
        !state.reader_is_open,
    ensures
        creation_opened(state, Err::<(), E>(error)) == CreationView::<E>::Return(Err(error)),
        creation_start::<E>(state_after_open(state, Err::<(), E>(error))) == CreationView::<
            E,
        >::Open,
{
}

} // verus!
