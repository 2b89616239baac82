//! The state that all waiters share, and draining the pipe that signals arrive in.

use vstd::prelude::*;

use crate::marker::Marker;

verus! {

/// What the caller keeps behind one lock for the whole process.
#[derive(Debug)]
pub struct State {
    /// The pipe is open and the signal handler writes to it.
    reader_is_open: bool,
    /// Some thread waits for the pipe to become readable, and wakes the others when it is done.
    someone_is_polling: bool,
    /// Replaced every time signals are observed. Waiters keep a copy from when they were created,
    /// and compare it with this one.
    signal_marker: Marker,
}

/// The shared state, with the marker as the number that it stands for.
pub struct StateView {
    pub reader_is_open: bool,
    pub someone_is_polling: bool,
    pub signal_marker: nat,
}

impl View for State {
    type V = StateView;

    closed spec fn view(&self) -> StateView {
        StateView {
            reader_is_open: self.reader_is_open,
            someone_is_polling: self.someone_is_polling,
            signal_marker: self.signal_marker@,
        }
    }
}

impl StateView {
    /// The state at the start of the process.
    pub open spec fn initial() -> StateView {
        StateView { reader_is_open: false, someone_is_polling: false, signal_marker: 0 }
    }

    /// The state once the pipe is open.
    pub open spec fn with_reader(self) -> StateView {
        StateView { reader_is_open: true, ..self }
    }

    /// The state once a thread has begun or ended polling.
    pub open spec fn with_polling(self, someone_is_polling: bool) -> StateView {
        StateView { someone_is_polling, ..self }
    }

    /// The state once signals have been observed.
    pub open spec fn with_signal(self) -> StateView {
        StateView { signal_marker: self.signal_marker + 1, ..self }
    }
}

/// What the decisions depend on in an error from the operating system.
#[derive(Debug, Clone, Copy, PartialEq, Eq, Structural)]
pub enum ErrorKind {
    /// A signal handler ran in the middle of the call.
    Interrupted,
    /// There was nothing to read, and the pipe does not block.
    WouldBlock,
    /// Anything else.
    Other,
}

/// A failed system call: the kind of error, and the error itself, which is only handed on.
#[derive(Debug)]
pub struct Failure<E> {
    pub kind: ErrorKind,
    pub error: E,
}

/// Whether the outcome of a read is one that an open pipe can give: zero bytes would mean that the
/// other end has been closed, and it never is.
pub open spec fn pipe_still_open<E>(read: Result<usize, Failure<E>>) -> bool {
    match read {
        Ok(count) => count > 0,
        Err(_) => true,
    }
}

/// What the outcome of a read, after earlier reads that did or did not find bytes, says of the
/// whole drain. `None` means that the pipe may hold more. Otherwise the pipe is empty, and it is
/// told whether anything was in it, or the read failed.
pub open spec fn drain_outcome<E>(signaled: bool, read: Result<usize, Failure<E>>) -> Option<
    Result<bool, E>,
> {
    match read {
        Ok(_) => None,
        Err(failure) => Some(
            if failure.kind == ErrorKind::WouldBlock {
                Ok(signaled)
            } else {
                Err(failure.error)
            },
        ),
    }
}

/// The shared state after a drain: the marker is replaced just if the drain found something.
pub open spec fn state_after_drain<E>(
    state: StateView,
    drained: Option<Result<bool, E>>,
) -> StateView {
    if drained == Some(Ok::<bool, E>(true)) {
        state.with_signal()
    } else {
        state
    }
}

impl State {
    /// The state at the start of the process.
    pub fn new() -> (state: State)
        ensures
            state@ == (StateView {
                reader_is_open: false,
                someone_is_polling: false,
                signal_marker: 0,
            }),
            state@ == StateView::initial(),
    {
        State { reader_is_open: false, someone_is_polling: false, signal_marker: Marker::new() }
    }

    /// Whether the pipe is open.
    pub fn reader_is_open(&self) -> (open: bool)
        ensures
            open == self@.reader_is_open,
    {
        self.reader_is_open
    }

    /// Whether some thread is polling the pipe.
    pub fn someone_is_polling(&self) -> (polling: bool)
        ensures
            polling == self@.someone_is_polling,
    {
        self.someone_is_polling
    }

    pub(crate) fn signal_marker(&self) -> (marker: &Marker)
        ensures
            marker@ == self@.signal_marker,
    {
        &self.signal_marker
    }

    pub(crate) fn set_reader_is_open(&mut self)
        ensures
            final(self)@ == old(self)@.with_reader(),
    {
        self.reader_is_open = true;
    }

    pub(crate) fn set_someone_is_polling(&mut self, someone_is_polling: bool)
        ensures
            final(self)@ == old(self)@.with_polling(someone_is_polling),
    {
        self.someone_is_polling = someone_is_polling;
    }
}

/// Takes the outcome of one nonblocking read of the pipe. Emptying it can take more than one:
/// `None` asks for the next read. At the end it is told whether anything was in the pipe, and in
/// that case the marker is replaced.
///
/// If a read fails otherwise than by finding the pipe empty, the drain fails, and the bytes that
/// earlier reads found go unnoticed.
pub(crate) fn drain_sigchld_reader<E>(
    signaled: bool,
    read: Result<usize, Failure<E>>,
    state: &mut State,
) -> (drained: Option<Result<bool, E>>)
    requires
        pipe_still_open(read),
    ensures
        drained == drain_outcome(signaled, read),
        final(state)@ == state_after_drain(old(state)@, drained),
{
    match read {
        Ok(_) => None,
        Err(failure) => match failure.kind {
            ErrorKind::WouldBlock => {
                if signaled {
                    state.signal_marker = state.signal_marker.successor();
                }
                Some(Ok(signaled))
            },
            _ => Some(Err(failure.error)),
        },
    }
}

/// What a whole drain comes to, and the state after it, for a given sequence of reads. `None` means
/// that the reads do not get to the end of it.
pub open spec fn drain<E>(
    signaled: bool,
    reads: Seq<Result<usize, Failure<E>>>,
    state: StateView,
) -> (Option<Result<bool, E>>, StateView)
    decreases reads.len(),
{
    if reads.len() == 0 {
        (None, state)
    } else {
        let drained = drain_outcome(signaled, reads[0]);
        if drained is Some {
            (drained, state_after_drain(state, drained))
        } else {
            drain(true, reads.skip(1), state)
        }
    }
}

/// As long as reads find bytes, a drain is not over, whatever their number. So it does not end
/// before it has found the pipe empty, or has failed.
pub proof fn drain_goes_on_while_there_are_bytes<E>(
    signaled: bool,
    reads: Seq<Result<usize, Failure<E>>>,
    state: StateView,
)
    requires
        forall|i: int| 0 <= i < reads.len() ==> reads[i] is Ok,
    ensures
        drain(signaled, reads, state) == (None::<Result<bool, E>>, state),
    decreases reads.len(),
{
    if reads.len() > 0 {
        drain_goes_on_while_there_are_bytes(true, reads.skip(1), state);
    }
}

/// Observing signals puts the marker one up and changes nothing else. Opening the pipe and taking
/// on or giving up the polling leave the marker and each other alone.
pub proof fn changes_of_the_state_are_separate(state: StateView, polling: bool)
    ensures
        state.with_signal().signal_marker == state.signal_marker + 1,
        state.with_signal().someone_is_polling == state.someone_is_polling,
        state.with_signal().reader_is_open == state.reader_is_open,
        state.with_polling(polling).someone_is_polling == polling,
        state.with_polling(polling).signal_marker == state.signal_marker,
        state.with_polling(polling).reader_is_open == state.reader_is_open,
        state.with_reader().reader_is_open,
        state.with_reader().signal_marker == state.signal_marker,
        state.with_reader().someone_is_polling == state.someone_is_polling,
{
}

/// A drain that gets to the end of the pipe tells whether there was anything in it, however many
/// reads it took. The marker is replaced once if there was, and left alone if there was not.
pub proof fn drain_counts_once<E>(
    signaled: bool,
    reads: Seq<Result<usize, Failure<E>>>,
    state: StateView,
)
    requires
        reads.len() > 0,
        forall|i: int| 0 <= i < reads.len() - 1 ==> reads[i] is Ok,
        reads.last() matches Err(failure) && failure.kind == ErrorKind::WouldBlock,
    ensures
        drain(signaled, reads, state) == (
            Some(Ok::<bool, E>(signaled || reads.len() > 1)),
            if signaled || reads.len() > 1 {
                state.with_signal()
            } else {
                state
            },
        ),
    decreases reads.len(),
{
    if reads.len() > 1 {
        assert(reads.skip(1).last() == reads.last());
        drain_counts_once(true, reads.skip(1), state);
    }
}

/// A drain that fails hands on the error and leaves the state alone, whatever earlier reads found.
pub proof fn drain_fails_without_a_trace<E>(
    signaled: bool,
    reads: Seq<Result<usize, Failure<E>>>,
    state: StateView,
)
    requires
        reads.len() > 0,
        forall|i: int| 0 <= i < reads.len() - 1 ==> reads[i] is Ok,
        reads.last() matches Err(failure) && failure.kind != ErrorKind::WouldBlock,
    ensures
        drain(signaled, reads, state) == (Some(Err::<bool, E>(reads.last()->Err_0.error)), state),
    decreases reads.len(),
{
    if reads.len() > 1 {
        assert(reads.skip(1).last() == reads.last());
        drain_fails_without_a_trace(true, reads.skip(1), state);
    }
}

} // verus!
