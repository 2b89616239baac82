//! Points in time, spans of time, and the timeout that `poll` takes.

use vstd::prelude::*;

verus! {

/// A point on a monotonic clock, in nanoseconds from a fixed but arbitrary origin. Points before
/// the origin are negative.
#[derive(Debug, Clone, Copy)]
pub struct Instant {
    pub nanos: i128,
}

/// A span of time, in nanoseconds.
#[derive(Debug, Clone, Copy)]
pub struct Duration {
    pub nanos: u128,
}

/// The nanoseconds from `now` until `deadline`, or zero once the deadline is in the past.
pub open spec fn nanos_left(deadline: Instant, now: Instant) -> nat {
    if deadline.nanos > now.nanos {
        (deadline.nanos - now.nanos) as nat
    } else {
        0
    }
}

/// The smallest number of milliseconds that lasts for at least `nanos` nanoseconds.
pub open spec fn millis_covering(nanos: nat) -> nat {
    (nanos + 999_999) / 1_000_000
}

/// The timeout that `poll` gets when `nanos` nanoseconds are left: enough milliseconds to cover
/// them, as far as a C `int` goes.
pub open spec fn poll_millis(nanos: nat) -> i32 {
    if millis_covering(nanos) <= i32::MAX {
        millis_covering(nanos) as i32
    } else {
        i32::MAX
    }
}

impl Instant {
    /// The point in time that lies `duration` after this one.
    pub fn plus(self, duration: Duration) -> (sum: Instant)
        requires
            self.nanos + duration.nanos <= i128::MAX,
        ensures
            sum.nanos == self.nanos + duration.nanos,
    {
        let half: i128 = (duration.nanos / 2) as i128;
        let odd: i128 = (duration.nanos % 2) as i128;
        Instant { nanos: self.nanos + half + half + odd }
    }

    /// The time from `earlier` until this point, or zero if `earlier` is not in fact earlier.
    pub fn saturating_duration_since(self, earlier: Instant) -> (left: Duration)
        ensures
            left.nanos == nanos_left(self, earlier),
    {
        if self.nanos <= earlier.nanos {
            Duration { nanos: 0 }
        } else if earlier.nanos < 0 && self.nanos >= 0 {
            let before_origin: u128 = (-(earlier.nanos + 1)) as u128;
            Duration { nanos: self.nanos as u128 + before_origin + 1 }
        } else {
            Duration { nanos: (self.nanos - earlier.nanos) as u128 }
        }
    }
}

/// Converts the time left to whole milliseconds for `poll`, rounding up. Rounding down would make
/// the last millisecond before a deadline a busy loop of zero timeouts.
pub fn poll_timeout(left: Duration) -> (millis: i32)
    ensures
        millis == poll_millis(left.nanos as nat),
{
    let millis: u128 = left.nanos.saturating_add(999_999) / 1_000_000;
    if millis <= i32::MAX as u128 {
        millis as i32
    } else {
        i32::MAX
    }
}

/// The time that is left takes the clock from `now` to the deadline, and is nothing once the
/// deadline has been reached.
pub proof fn time_left_ends_at_the_deadline(deadline: Instant, now: Instant)
    ensures
        now.nanos <= deadline.nanos ==> now.nanos + nanos_left(deadline, now) == deadline.nanos,
        now.nanos >= deadline.nanos ==> nanos_left(deadline, now) == 0,
{
}

/// A poll with this timeout covers the time that is left, unless that is beyond the range of a C
/// `int`, and by less than a millisecond too much. In particular it is zero only if no time is
/// left, and never negative, which would mean no timeout.
pub proof fn poll_covers_the_time_left(nanos: nat)
    ensures
        poll_millis(nanos) >= 0,
        poll_millis(nanos) == 0 <==> nanos == 0,
        poll_millis(nanos) * 1_000_000 < nanos + 1_000_000,
        poll_millis(nanos) < i32::MAX ==> nanos <= poll_millis(nanos) * 1_000_000,
{
}

/// The more time is left, the longer the poll.
pub proof fn poll_is_monotonic(shorter: nat, longer: nat)
    requires
        shorter <= longer,
    ensures
        poll_millis(shorter) <= poll_millis(longer),
{
}

} // verus!
