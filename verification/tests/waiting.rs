//! Waits from beginning to end, with a simulated clock, pipe and scheduler.

use sigchld::{Creation, Duration, ErrorKind, Failure, Instant, State, Turn, Waiter};
use sigchld::waiter::{Polling, Sleeping};

const MILLI: i128 = 1_000_000;

/// What a simulated thread is up to.
enum Status {
    Ready(Turn<&'static str>),
    Asleep(Option<i128>, Sleeping),
    Polling(Option<i128>, Polling),
    Done,
}

struct Thread {
    status: Status,
    result: Option<Result<bool, &'static str>>,
    done_at: i128,
}

struct World {
    state: State,
    now: i128,
    pipe: usize,
    /// When a child is going to exit.
    exits: Vec<i128>,
    threads: Vec<Thread>,
    /// How often the pipe was opened.
    opened: usize,
}

fn would_block() -> Failure<&'static str> {
    Failure { kind: ErrorKind::WouldBlock, error: "would block" }
}

impl World {
    fn new() -> World {
        World {
            state: State::new(),
            now: 0,
            pipe: 0,
            exits: Vec::new(),
            threads: Vec::new(),
            opened: 0,
        }
    }

    /// Every look at the clock takes a microsecond.
    fn clock(&mut self) -> Instant {
        self.now += 1_000;
        Instant { nanos: self.now }
    }

    /// A read gets at most three bytes.
    fn read(&mut self) -> Result<usize, Failure<&'static str>> {
        if self.pipe == 0 {
            return Err(would_block());
        }
        let count = if self.pipe < 3 { self.pipe } else { 3 };
        self.pipe -= count;
        Ok(count)
    }

    fn start_child(&mut self, millis: i128) {
        self.exits.push(self.now + millis * MILLI);
    }

    fn waiter(&mut self) -> Waiter {
        let mut creation: Creation<&'static str> = Waiter::new(&self.state);
        loop {
            creation = match creation {
                Creation::Open(opening) => {
                    self.opened += 1;
                    opening.opened(Ok(()), &mut self.state)
                }
                Creation::Read(drain) => {
                    let read = self.read();
                    drain.read(read, &mut self.state)
                }
                Creation::Return(result) => return result.unwrap(),
            };
        }
    }

    /// A thread begins to wait. It holds the lock until it blocks.
    fn spawn(&mut self, turn: Turn<&'static str>) -> usize {
        self.threads.push(Thread { status: Status::Ready(turn), result: None, done_at: 0 });
        let index = self.threads.len() - 1;
        self.run_thread(index);
        index
    }

    fn spawn_wait(&mut self, waiter: Waiter) -> usize {
        let turn = waiter.wait(&self.state);
        self.spawn(turn)
    }

    fn spawn_wait_timeout(&mut self, waiter: Waiter, millis: u128) -> usize {
        let now = self.clock();
        let turn = waiter.wait_timeout(Duration { nanos: millis * 1_000_000 }, now, &self.state);
        self.spawn(turn)
    }

    /// Runs one thread until it blocks or is done.
    fn run_thread(&mut self, index: usize) {
        loop {
            let status = std::mem::replace(&mut self.threads[index].status, Status::Done);
            let turn = match status {
                Status::Ready(turn) => turn,
                other => {
                    self.threads[index].status = other;
                    return;
                }
            };
            let status = match turn {
                Turn::Return { result, notify_all } => {
                    self.threads[index].result = Some(result);
                    self.threads[index].done_at = self.now;
                    if notify_all {
                        self.notify_all();
                    }
                    Status::Done
                }
                Turn::Clock(clock) => {
                    let now = self.clock();
                    Status::Ready(clock.now(now))
                }
                Turn::Sleep { timeout, sleeping } => {
                    Status::Asleep(timeout.map(|left| self.now + left.nanos as i128), sleeping)
                }
                Turn::Peek(peeking) => Status::Ready(peeking.peeked(Ok(self.pipe > 0))),
                Turn::Read(draining) => {
                    let read = self.read();
                    Status::Ready(draining.read(read, &mut self.state))
                }
                Turn::Poll { timeout_ms, polling } => {
                    let until = if timeout_ms < 0 {
                        None
                    } else {
                        Some(self.now + timeout_ms as i128 * MILLI)
                    };
                    Status::Polling(until, polling)
                }
                Turn::Relock(settling) => Status::Ready(settling.relocked(&mut self.state)),
            };
            self.threads[index].status = status;
        }
    }

    /// Wakes a thread, if it is asleep.
    fn wake(&mut self, index: usize, timed_out: bool) {
        let status = std::mem::replace(&mut self.threads[index].status, Status::Done);
        self.threads[index].status = match status {
            Status::Asleep(_, sleeping) => Status::Ready(sleeping.woken(timed_out, &self.state)),
            other => other,
        };
    }

    fn notify_all(&mut self) {
        for index in 0..self.threads.len() {
            self.wake(index, false);
            // A thread that wakes up holds the lock until it blocks again.
            self.run_thread(index);
        }
    }

    /// Ends a thread's poll, if it is polling.
    fn end_poll(&mut self, index: usize) {
        let status = std::mem::replace(&mut self.threads[index].status, Status::Done);
        self.threads[index].status = match status {
            Status::Polling(_, polling) => Status::Ready(polling.polled(Ok(()))),
            other => other,
        };
    }

    fn until(&self, index: usize) -> Option<i128> {
        match &self.threads[index].status {
            Status::Asleep(until, _) => *until,
            Status::Polling(until, _) => *until,
            _ => None,
        }
    }

    /// Runs everything until all threads are done.
    fn run(&mut self) {
        loop {
            if self.threads.iter().all(|thread| matches!(thread.status, Status::Done)) {
                return;
            }
            // Let the time pass until something happens.
            if self.pipe == 0 {
                let untils = (0..self.threads.len()).filter_map(|index| self.until(index));
                let next = untils.chain(self.exits.iter().copied()).min();
                let next = next.expect("nothing is ever going to happen");
                if next > self.now {
                    self.now = next;
                }
            }
            let now = self.now;
            self.pipe += self.exits.iter().filter(|exit| **exit <= now).count();
            self.exits.retain(|exit| *exit > now);
            for index in 0..self.threads.len() {
                let expired = self.until(index).map_or(false, |until| until <= now);
                if matches!(self.threads[index].status, Status::Polling(_, _)) {
                    if expired || self.pipe > 0 {
                        self.end_poll(index);
                        self.run_thread(index);
                    }
                } else if expired {
                    self.wake(index, true);
                    self.run_thread(index);
                }
            }
        }
    }

    fn result(&self, index: usize) -> bool {
        self.threads[index].result.unwrap().unwrap()
    }
}

fn assert_approx_eq(millis: i128, nanos: i128) {
    let ratio = (millis * MILLI) as f64 / nanos as f64;
    assert!(0.9 < ratio && ratio < 1.1, "{} ms and {} ns are not close enough", millis, nanos);
}

#[test]
fn test_wait() {
    let mut world = World::new();
    let start = world.now;

    let waiter = world.waiter();
    world.start_child(250);
    let wait = world.spawn_wait(waiter);
    world.run();
    assert!(world.result(wait));
    assert_approx_eq(250, world.now - start);
}

#[test]
fn test_wait_deadline() {
    let mut world = World::new();
    let start = world.now;

    let timeout = Duration { nanos: 500_000_000 };
    let waiter = world.waiter();
    world.start_child(250);
    // This first wait should return true.
    let deadline = world.clock().plus(timeout);
    let turn = waiter.wait_deadline(deadline, &world.state);
    let wait = world.spawn(turn);
    world.run();
    assert_approx_eq(250, world.now - start);
    assert!(world.result(wait));

    // This second wait should time out and return false.
    let waiter2 = world.waiter();
    let deadline2 = world.clock().plus(timeout);
    let turn2 = waiter2.wait_deadline(deadline2, &world.state);
    let wait2 = world.spawn(turn2);
    world.run();
    assert_approx_eq(750, world.now - start);
    assert!(!world.result(wait2));
    assert!(world.now > deadline2.nanos);
}

#[test]
fn test_wait_timeout() {
    let mut world = World::new();
    let start = world.now;

    let waiter = world.waiter();
    world.start_child(250);
    // This first wait should return true.
    let wait = world.spawn_wait_timeout(waiter, 500);
    world.run();
    assert_approx_eq(250, world.now - start);
    assert!(world.result(wait));

    // This second wait should time out and return false.
    let waiter2 = world.waiter();
    let wait2 = world.spawn_wait_timeout(waiter2, 500);
    world.run();
    assert_approx_eq(750, world.now - start);
    assert!(!world.result(wait2));
}

/// Three threads wait without a timeout, three with a short one and three with a long one. In
/// which order they begin is told by `order`.
fn many_threads(order: [usize; 3]) {
    let mut world = World::new();
    let start = world.now;

    world.start_child(1000);
    let exit = world.now + 1000 * MILLI;
    let mut wait_threads = Vec::new();
    let mut short_timeout_threads = Vec::new();
    let mut long_timeout_threads = Vec::new();
    for _ in 0..3 {
        for kind in order {
            let waiter = world.waiter();
            if kind == 0 {
                wait_threads.push(world.spawn_wait(waiter));
            } else if kind == 1 {
                short_timeout_threads.push(world.spawn_wait_timeout(waiter, 500));
            } else {
                long_timeout_threads.push(world.spawn_wait_timeout(waiter, 1500));
            }
        }
    }
    world.run();
    assert_eq!(world.opened, 1);
    assert!(!world.state.someone_is_polling());
    for thread in wait_threads {
        assert!(world.result(thread));
        assert_approx_eq(1000, world.threads[thread].done_at - start);
        assert!(world.threads[thread].done_at >= exit, "should've exited");
    }
    for thread in short_timeout_threads {
        assert!(world.threads[thread].done_at < exit, "shouldn't have exited");
        assert_approx_eq(500, world.threads[thread].done_at - start);
        assert!(!world.result(thread), "should not be signaled");
    }
    for thread in long_timeout_threads {
        assert!(world.threads[thread].done_at >= exit, "should've exited");
        assert!(world.result(thread), "should be signaled");
    }
}

#[test]
fn test_wait_many_threads() {
    many_threads([0, 1, 2]);
}

#[test]
fn polling_thread_that_times_out_is_replaced() {
    many_threads([1, 0, 2]);
    many_threads([1, 2, 0]);
    many_threads([2, 1, 0]);
}

/// A signal is delivered just before the deadline, and the sleeping thread's time is up before the
/// polling one gets to run. It still returns true, once that one has read the signal.
#[test]
fn sleeper_waits_for_a_signal_from_before_its_deadline() {
    let mut world = World::new();
    let first = world.waiter();
    let second = world.waiter();
    let poller = world.spawn_wait(first);
    let sleeper = world.spawn_wait_timeout(second, 10);
    world.now += 9 * MILLI;
    world.pipe += 1;
    world.now += 2 * MILLI;
    world.wake(sleeper, true);
    world.run_thread(sleeper);
    assert!(matches!(world.threads[sleeper].status, Status::Asleep(None, _)));
    world.run();
    assert!(world.result(poller));
    assert!(world.result(sleeper));
}

/// A waiter that is created while another thread polls leaves an older signal in the pipe. Its wait
/// is past its deadline from the start, and ends as soon as the other thread has read the signal.
#[test]
fn sleeper_past_its_deadline_does_not_sleep_for_ever() {
    let mut world = World::new();
    let first = world.waiter();
    let poller = world.spawn_wait(first);
    world.pipe += 1;
    let second = world.waiter();
    assert_eq!(world.pipe, 1);
    let sleeper = world.spawn_wait_timeout(second, 0);
    world.wake(sleeper, true);
    world.run_thread(sleeper);
    assert!(matches!(world.threads[sleeper].status, Status::Asleep(None, _)));
    world.run();
    assert!(world.result(poller));
    assert!(world.result(sleeper));
}

/// Many threads with different deadlines and no signal all time out, each at its own deadline.
#[test]
fn every_deadline_ends_its_wait() {
    let mut world = World::new();
    let mut threads = Vec::new();
    for millis in [30, 10, 50, 20, 40] {
        let waiter = world.waiter();
        let started = world.now;
        threads.push((world.spawn_wait_timeout(waiter, millis), started, millis as i128));
    }
    world.run();
    for (thread, started, millis) in threads {
        assert!(!world.result(thread));
        let done_at = world.threads[thread].done_at;
        assert!(done_at > started + millis * MILLI);
        assert_approx_eq(millis, done_at - started);
    }
}

#[test]
fn signal_between_creation_and_wait_is_buffered() {
    let mut world = World::new();
    let waiter = world.waiter();
    world.pipe += 1;
    let wait = world.spawn_wait(waiter);
    world.run();
    assert!(world.result(wait));
    assert_eq!(world.now, 0);
}

#[test]
fn signal_from_before_creation_is_forgotten() {
    let mut world = World::new();
    let _ = world.waiter();
    world.pipe += 7;
    let waiter = world.waiter();
    assert_eq!(world.pipe, 0);
    let wait = world.spawn_wait_timeout(waiter, 20);
    world.run();
    assert!(!world.result(wait));
    assert!(world.now > 20 * MILLI);
}

#[test]
fn one_signal_wakes_every_waiter_from_before() {
    let mut world = World::new();
    let early = world.waiter();
    let other = world.waiter();
    world.pipe += 1;
    let first = world.spawn_wait(early);
    world.run();
    assert_eq!(world.pipe, 0);
    // The byte is gone, and the marker tells.
    let second = world.spawn_wait(other);
    world.run();
    assert!(world.result(first));
    assert!(world.result(second));
    assert_eq!(world.now, 0);
}

#[test]
fn zero_timeout_still_finds_a_buffered_signal() {
    let mut world = World::new();
    let waiter = world.waiter();
    let other = world.waiter();
    world.pipe += 1;
    let wait = world.spawn_wait_timeout(waiter, 0);
    world.run();
    assert!(world.result(wait));
    let again = world.spawn_wait_timeout(other, 0);
    world.run();
    assert!(world.result(again));
    let fresh = world.waiter();
    let last = world.spawn_wait_timeout(fresh, 0);
    world.run();
    assert!(!world.result(last));
}
