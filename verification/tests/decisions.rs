//! Single decisions, with the exact instruction that comes next.

use sigchld::{Creation, Duration, ErrorKind, Failure, Instant, State, Turn, Waiter};
use sigchld::waiter::{Draining, Peeking, Polling};

type Reply = Turn<&'static str>;

fn failure(kind: ErrorKind) -> Failure<&'static str> {
    Failure { kind, error: "failed" }
}

fn would_block() -> Result<usize, Failure<&'static str>> {
    Err(failure(ErrorKind::WouldBlock))
}

/// A state with an open, empty pipe, and a waiter.
fn ready() -> (State, Waiter) {
    let mut state = State::new();
    let creation: Creation<&'static str> = Waiter::new(&state);
    let Creation::Open(opening) = creation else { panic!("{:?}", creation) };
    let creation: Creation<&'static str> = opening.opened(Ok(()), &mut state);
    let Creation::Read(drain) = creation else { panic!("{:?}", creation) };
    let Creation::Return(Ok(waiter)) = drain.read(would_block(), &mut state) else { panic!() };
    (state, waiter)
}

fn another(state: &mut State) -> Waiter {
    let creation: Creation<&'static str> = Waiter::new(state);
    match creation {
        Creation::Read(drain) => {
            let Creation::Return(Ok(waiter)) = drain.read(would_block(), state) else { panic!() };
            waiter
        }
        Creation::Return(Ok(waiter)) => waiter,
        other => panic!("{:?}", other),
    }
}

fn draining(turn: Reply) -> Draining {
    let Turn::Read(draining) = turn else { panic!("{:?}", turn) };
    draining
}

fn polling(turn: Reply) -> (i32, Polling) {
    let Turn::Poll { timeout_ms, polling } = turn else { panic!("{:?}", turn) };
    (timeout_ms, polling)
}

fn clock(turn: Reply, nanos: i128) -> Reply {
    let Turn::Clock(clock) = turn else { panic!("{:?}", turn) };
    clock.now(Instant { nanos })
}

fn returned(turn: Reply) -> (Result<bool, &'static str>, bool) {
    let Turn::Return { result, notify_all } = turn else { panic!("{:?}", turn) };
    (result, notify_all)
}

fn peeking(turn: Reply) -> Peeking {
    let Turn::Peek(peeking) = turn else { panic!("{:?}", turn) };
    peeking
}

fn relocked(turn: Reply, state: &mut State) -> Reply {
    let Turn::Relock(settling) = turn else { panic!("{:?}", turn) };
    settling.relocked(state)
}

/// Makes a thread poll, with this deadline.
fn start_polling(state: &mut State, waiter: Waiter, maybe_deadline: Option<Instant>) -> Reply {
    let turn = match maybe_deadline {
        Some(deadline) => waiter.wait_deadline(deadline, state),
        None => waiter.wait(state),
    };
    draining(turn).read(would_block(), state)
}

#[test]
fn pipe_that_cannot_be_opened_is_tried_again() {
    let mut state = State::new();
    for _ in 0..3 {
        assert!(!state.reader_is_open());
        let creation: Creation<&'static str> = Waiter::new(&state);
        let Creation::Open(opening) = creation else { panic!() };
        let creation = opening.opened(Err("no descriptors"), &mut state);
        assert!(matches!(creation, Creation::Return(Err("no descriptors"))));
    }
    let creation: Creation<&'static str> = Waiter::new(&state);
    let Creation::Open(opening) = creation else { panic!() };
    let creation: Creation<&'static str> = opening.opened(Ok(()), &mut state);
    assert!(matches!(creation, Creation::Read(_)));
    assert!(state.reader_is_open());
    let creation: Creation<&'static str> = Waiter::new(&state);
    assert!(matches!(creation, Creation::Read(_)));
}

#[test]
fn creation_fails_with_the_error_of_its_drain() {
    let (mut state, _) = ready();
    let creation: Creation<&'static str> = Waiter::new(&state);
    let Creation::Read(drain) = creation else { panic!() };
    let Creation::Read(drain) = drain.read::<&'static str>(Ok(1024), &mut state) else { panic!() };
    let creation = drain.read(Err(failure(ErrorKind::Other)), &mut state);
    assert!(matches!(creation, Creation::Return(Err("failed"))));
    // An interruption is no reason to read again either.
    let creation: Creation<&'static str> = Waiter::new(&state);
    let Creation::Read(drain) = creation else { panic!() };
    let creation = drain.read(Err(failure(ErrorKind::Interrupted)), &mut state);
    assert!(matches!(creation, Creation::Return(Err("failed"))));
}

#[test]
fn creation_leaves_the_pipe_to_the_polling_thread() {
    let (mut state, waiter) = ready();
    start_polling(&mut state, waiter, None);
    assert!(state.someone_is_polling());
    let creation: Creation<&'static str> = Waiter::new(&state);
    assert!(matches!(creation, Creation::Return(Ok(_))));
}

#[test]
fn creation_drain_is_news_to_older_waiters() {
    let (mut state, old) = ready();
    let creation: Creation<&'static str> = Waiter::new(&state);
    let Creation::Read(drain) = creation else { panic!() };
    let Creation::Read(drain) = drain.read::<&'static str>(Ok(1024), &mut state) else { panic!() };
    let Creation::Read(drain) = drain.read::<&'static str>(Ok(3), &mut state) else { panic!() };
    let Creation::Return(Ok(new)) = drain.read(would_block(), &mut state) else { panic!() };
    assert_eq!(returned(old.wait(&state)), (Ok(true), false));
    draining(new.wait(&state));
}

#[test]
fn poll_without_a_deadline_has_no_timeout() {
    let (mut state, waiter) = ready();
    let (timeout_ms, poll) = polling(start_polling(&mut state, waiter, None));
    assert_eq!(timeout_ms, -1);
    assert!(state.someone_is_polling());
    // An empty pipe after the poll means that it woke up for no reason.
    let turn = draining(poll.polled(Ok(()))).read(would_block(), &mut state);
    let (timeout_ms, poll) = polling(turn);
    assert_eq!(timeout_ms, -1);
    // So does an interruption, with no look into the pipe.
    let (timeout_ms, _) = polling(poll.polled(Err(failure(ErrorKind::Interrupted))));
    assert_eq!(timeout_ms, -1);
}

#[test]
fn poll_timeout_is_rounded_up() {
    let (mut state, waiter) = ready();
    let turn = start_polling(&mut state, waiter, Some(Instant { nanos: 10_000_000 }));
    let (timeout_ms, poll) = polling(clock(turn, 0));
    assert_eq!(timeout_ms, 10);
    let turn: Reply = poll.polled(Err(failure(ErrorKind::Interrupted)));
    let (timeout_ms, poll) = polling(clock(turn, 1));
    assert_eq!(timeout_ms, 10);
    let turn: Reply = poll.polled(Err(failure(ErrorKind::Interrupted)));
    let (timeout_ms, poll) = polling(clock(turn, 9_999_999));
    assert_eq!(timeout_ms, 1);
    let turn: Reply = poll.polled(Err(failure(ErrorKind::Interrupted)));
    let (timeout_ms, poll) = polling(clock(turn, 10_000_000));
    assert_eq!(timeout_ms, 0);
    // Even when the deadline has passed, an interrupted poll is repeated.
    let turn: Reply = poll.polled(Err(failure(ErrorKind::Interrupted)));
    let (timeout_ms, _) = polling(clock(turn, 10_000_001));
    assert_eq!(timeout_ms, 0);
}

#[test]
fn poll_timeout_is_capped() {
    let (mut state, waiter) = ready();
    let turn = start_polling(&mut state, waiter, Some(Instant { nanos: i128::MAX }));
    assert_eq!(polling(clock(turn, i128::MIN)).0, i32::MAX);
}

#[test]
fn polling_goes_on_until_the_deadline_has_passed() {
    let (mut state, waiter) = ready();
    let turn = start_polling(&mut state, waiter, Some(Instant { nanos: 50 }));
    let (_, poll) = polling(clock(turn, 40));
    // At the deadline it is not over.
    let turn = draining(clock(poll.polled(Ok(())), 50)).read(would_block(), &mut state);
    let (timeout_ms, poll) = polling(clock(turn, 50));
    assert_eq!(timeout_ms, 0);
    let turn = draining(clock(poll.polled(Ok(())), 51)).read(would_block(), &mut state);
    assert!(state.someone_is_polling());
    assert_eq!(returned(relocked(turn, &mut state)), (Ok(false), true));
    assert!(!state.someone_is_polling());
}

#[test]
fn polling_ends_with_a_signal() {
    let (mut state, waiter) = ready();
    let other = another(&mut state);
    // The deadline is long gone, but the signal counts.
    let turn = start_polling(&mut state, waiter, Some(Instant { nanos: -5 }));
    let (timeout_ms, poll) = polling(clock(turn, 100));
    assert_eq!(timeout_ms, 0);
    let turn: Reply = draining(clock(poll.polled(Ok(())), 101)).read(Ok(1), &mut state);
    let turn = draining(turn).read(would_block(), &mut state);
    assert!(state.someone_is_polling());
    // The signal is visible before the role has been given up.
    assert_eq!(returned(other.wait(&state)), (Ok(true), false));
    assert_eq!(returned(relocked(turn, &mut state)), (Ok(true), true));
    assert!(!state.someone_is_polling());
}

#[test]
fn failed_poll_gives_up_the_role() {
    let (mut state, waiter) = ready();
    let (_, poll) = polling(start_polling(&mut state, waiter, None));
    let turn = poll.polled(Err(failure(ErrorKind::Other)));
    assert!(state.someone_is_polling());
    assert_eq!(returned(relocked(turn, &mut state)), (Err("failed"), true));
    assert!(!state.someone_is_polling());
}

#[test]
fn failed_drain_gives_up_the_role() {
    let (mut state, waiter) = ready();
    let (_, poll) = polling(start_polling(&mut state, waiter, None));
    let turn = draining(poll.polled(Ok(()))).read(Err(failure(ErrorKind::Other)), &mut state);
    assert_eq!(returned(relocked(turn, &mut state)), (Err("failed"), true));
    assert!(!state.someone_is_polling());
}

#[test]
fn failed_first_drain_returns_at_once() {
    let (mut state, waiter) = ready();
    let other = another(&mut state);
    let turn: Reply = draining(waiter.wait(&state)).read(Ok(5), &mut state);
    let turn = draining(turn).read(Err(failure(ErrorKind::Interrupted)), &mut state);
    assert_eq!(returned(turn), (Err("failed"), false));
    assert!(!state.someone_is_polling());
    // What the drain had found is gone.
    draining(other.wait(&state));
}

#[test]
fn sleep_lasts_until_the_deadline() {
    let (mut state, waiter) = ready();
    let second = another(&mut state);
    let third = another(&mut state);
    let fourth = another(&mut state);
    start_polling(&mut state, waiter, None);

    let turn: Reply = second.wait(&state);
    assert!(matches!(turn, Turn::Sleep { timeout: None, .. }));

    let now = Instant { nanos: 30 };
    let turn: Reply = third.wait_timeout(Duration { nanos: 70 }, now, &state);
    let Turn::Sleep { timeout: Some(timeout), sleeping } = clock(turn, 35) else { panic!() };
    assert_eq!(timeout.nanos, 65);
    let peek = peeking(sleeping.woken(true, &state));
    assert_eq!(returned(peek.peeked(Ok(false))), (Ok(false), false));

    // A deadline in the past leaves no time at all.
    let turn: Reply = fourth.wait_deadline(Instant { nanos: 10 }, &state);
    let Turn::Sleep { timeout: Some(timeout), sleeping } = clock(turn, 35) else { panic!() };
    assert_eq!(timeout.nanos, 0);
    // Being woken for any other reason means to look again.
    let turn: Reply = sleeping.woken(false, &state);
    assert!(matches!(turn, Turn::Clock(_)));
}

#[test]
fn sleep_without_a_deadline_does_not_time_out() {
    let (mut state, waiter) = ready();
    let second = another(&mut state);
    start_polling(&mut state, waiter, None);
    let turn: Reply = second.wait(&state);
    let Turn::Sleep { sleeping, .. } = turn else { panic!() };
    let turn: Reply = sleeping.woken(true, &state);
    assert!(matches!(turn, Turn::Sleep { timeout: None, .. }));
}

/// A thread that polls, and a second one that sleeps and whose time is up.
fn late_sleeper() -> (State, Polling, Peeking) {
    let (mut state, waiter) = ready();
    let second = another(&mut state);
    let (_, poll) = polling(start_polling(&mut state, waiter, None));
    let turn: Reply = second.wait_deadline(Instant { nanos: 10 }, &state);
    let Turn::Sleep { sleeping, .. } = clock(turn, 0) else { panic!() };
    let peek = peeking(sleeping.woken(true, &state));
    (state, poll, peek)
}

#[test]
fn sleeper_that_times_out_leaves_the_pipe_to_the_polling_thread() {
    let (mut state, poll, peek) = late_sleeper();
    let turn: Reply = peek.peeked(Ok(true));
    let Turn::Sleep { timeout: None, sleeping } = turn else { panic!("{:?}", turn) };
    let turn: Reply = draining(poll.polled(Ok(()))).read(Ok(1), &mut state);
    let turn = draining(turn).read(would_block(), &mut state);
    assert_eq!(returned(relocked(turn, &mut state)), (Ok(true), true));
    assert_eq!(returned(sleeping.woken(false, &state)), (Ok(true), false));
}

#[test]
fn sleeper_that_times_out_takes_over_what_a_failed_poll_leaves() {
    let (mut state, poll, peek) = late_sleeper();
    let turn: Reply = peek.peeked(Ok(true));
    let Turn::Sleep { timeout: None, sleeping } = turn else { panic!("{:?}", turn) };
    let turn = poll.polled(Err(failure(ErrorKind::Other)));
    assert_eq!(returned(relocked(turn, &mut state)), (Err("failed"), true));
    let turn: Reply = draining(sleeping.woken(false, &state)).read(Ok(1), &mut state);
    let turn = draining(turn).read(would_block(), &mut state);
    assert_eq!(returned(turn), (Ok(true), false));
}

#[test]
fn failed_peek_is_repeated_or_handed_on() {
    let (_, _, peek) = late_sleeper();
    let peek = peeking(peek.peeked(Err(failure(ErrorKind::Interrupted))));
    let peek = peeking(peek.peeked(Err(failure(ErrorKind::Interrupted))));
    assert_eq!(returned(peek.peeked(Err(failure(ErrorKind::Other)))), (Err("failed"), false));
    let (state, _, peek) = late_sleeper();
    assert_eq!(returned(peek.peeked(Err(failure(ErrorKind::WouldBlock)))), (Err("failed"), false));
    assert!(state.someone_is_polling());
}

#[test]
fn polling_can_be_begun_again() {
    let (_, poll, _) = late_sleeper();
    let (timeout_ms, _) = polling(poll.poll_sigchld_reader_inner());
    assert_eq!(timeout_ms, -1);
}

#[test]
fn sleeper_that_times_out_sees_an_observed_signal() {
    let (mut state, waiter) = ready();
    let second = another(&mut state);
    let (_, poll) = polling(start_polling(&mut state, waiter, None));
    let turn: Reply = second.wait_deadline(Instant { nanos: 10 }, &state);
    let Turn::Sleep { sleeping, .. } = clock(turn, 0) else { panic!() };
    let turn: Reply = draining(poll.polled(Ok(()))).read(Ok(1), &mut state);
    draining(turn).read(would_block(), &mut state);
    // The other thread is still about to give up its role.
    assert!(state.someone_is_polling());
    assert_eq!(returned(sleeping.woken(true, &state)), (Ok(true), false));
}

#[test]
fn sleeper_that_times_out_looks_into_the_pipe_if_nobody_polls() {
    let (mut state, waiter) = ready();
    let second = another(&mut state);
    let third = another(&mut state);
    let (_, poll) = polling(start_polling(&mut state, waiter, None));
    let turn: Reply = second.wait_deadline(Instant { nanos: 10 }, &state);
    let Turn::Sleep { sleeping, .. } = clock(turn, 0) else { panic!() };
    let turn: Reply = third.wait_deadline(Instant { nanos: 10 }, &state);
    let Turn::Sleep { sleeping: last, .. } = clock(turn, 0) else { panic!() };
    let turn = poll.polled(Err(failure(ErrorKind::Other)));
    assert_eq!(returned(relocked(turn, &mut state)), (Err("failed"), true));

    // With an empty pipe it still has to find out that the time is up.
    let turn = draining(last.woken(true, &state)).read(would_block(), &mut state);
    let (timeout_ms, poll) = polling(clock(turn, 11));
    assert_eq!(timeout_ms, 0);
    let turn = draining(clock(poll.polled(Ok(())), 12)).read(would_block(), &mut state);
    assert_eq!(returned(relocked(turn, &mut state)), (Ok(false), true));

    let turn: Reply = draining(sleeping.woken(true, &state)).read(Ok(1), &mut state);
    let turn = draining(turn).read(would_block(), &mut state);
    assert_eq!(returned(turn), (Ok(true), false));
}

#[test]
fn woken_sleeper_takes_over() {
    let (mut state, waiter) = ready();
    let second = another(&mut state);
    let turn = start_polling(&mut state, waiter, Some(Instant { nanos: 5 }));
    let (_, poll) = polling(clock(turn, 0));
    let turn: Reply = second.wait(&state);
    let Turn::Sleep { sleeping, .. } = turn else { panic!() };

    let turn = draining(clock(poll.polled(Ok(())), 6)).read(would_block(), &mut state);
    assert_eq!(returned(relocked(turn, &mut state)), (Ok(false), true));

    let turn = draining(sleeping.woken(false, &state)).read(would_block(), &mut state);
    assert_eq!(polling(turn).0, -1);
    assert!(state.someone_is_polling());
}
