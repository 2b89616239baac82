# sigchld

Unix has no portable way to wait for a child process to exit with a timeout. The closest thing is
to wait for the `SIGCHLD` signal. This project lets any number of threads do that, with an optional
timeout, and proves how signals reach those who wait for them.

- `src/` is the verified library. It decides what each thread does next: open the pipe that the
  signal handler writes to, read from it, poll it, sleep until another thread has polled it, or
  return. It touches none of these things itself. `waiter.rs` has the decisions, `state.rs` what
  the threads share, `marker.rs` and `time.rs` the arithmetic. `system.rs` puts any number of
  threads together. `laws.rs` proves what holds of them at any time: one thread polls at a time, a
  thread that sleeps and has not been notified has someone to wake it, a signal after a waiter's
  creation is buffered for it, and no wait ends without a signal, a deadline or an error.
  `progress.rs` proves that one signal ends every wait, and `deadlines.rs` that a deadline which
  has passed does.
- `app/` is the crate that programs use. It owns the pipe, the clock, the lock and the condition
  variable, and does what the library says.
- `tests/` runs the library with a simulated clock, pipe and scheduler.
