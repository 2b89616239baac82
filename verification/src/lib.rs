//! The decisions behind waiting for `SIGCHLD`.
//!
//! `SIGCHLD` tells a process that one of its children has exited. A signal handler turns every
//! signal into a byte in a nonblocking pipe. Any number of threads can wait for one, with or
//! without a timeout: one of them polls the pipe, and the others sleep on a condition variable
//! until it wakes them. This library decides what each thread does next. Its caller owns the pipe,
//! the clock, the lock and the condition variable, and does it.
//!
//! - [`waiter`] has the decisions, step by step.
//! - [`state`] has what the threads share behind the lock.
//! - [`marker`] has the count by which a waiter sees that it has been signaled.
//! - [`time`] has the arithmetic of deadlines and timeouts.
//! - [`system`] puts any number of threads together. [`laws`] says what holds of them then at any
//!   time, [`steps`] how they get from one place to the next, [`progress`] that a signal ends their
//!   waits, [`deadlines`] that a deadline does, and [`clock`] that it does so in time.

pub mod clock;
pub mod deadlines;
pub mod laws;
pub mod marker;
pub mod progress;
pub mod state;
pub mod steps;
pub mod system;
pub mod time;
pub mod waiter;

pub use crate::state::{ErrorKind, Failure, State};
pub use crate::time::{Duration, Instant};
pub use crate::waiter::{Creation, Turn, Waiter};
