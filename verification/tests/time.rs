use sigchld::time::poll_timeout;
use sigchld::{Duration, Instant};

fn instant(nanos: i128) -> Instant {
    Instant { nanos }
}

fn duration(nanos: u128) -> Duration {
    Duration { nanos }
}

#[test]
fn sums_over_the_whole_range() {
    assert_eq!(instant(3).plus(duration(4)).nanos, 7);
    assert_eq!(instant(-3).plus(duration(4)).nanos, 1);
    assert_eq!(instant(-3).plus(duration(3)).nanos, 0);
    assert_eq!(instant(i128::MAX).plus(duration(0)).nanos, i128::MAX);
    assert_eq!(instant(i128::MIN).plus(duration(u128::MAX)).nanos, i128::MAX);
}

#[test]
fn time_left_over_the_whole_range() {
    let left = |deadline: i128, now: i128| -> u128 {
        instant(deadline).saturating_duration_since(instant(now)).nanos
    };
    assert_eq!(left(10, 3), 7);
    assert_eq!(left(3, 3), 0);
    assert_eq!(left(3, 10), 0);
    assert_eq!(left(-3, -10), 7);
    assert_eq!(left(3, -10), 13);
    assert_eq!(left(0, -1), 1);
    assert_eq!(left(i128::MAX, i128::MIN), u128::MAX);
    assert_eq!(left(i128::MIN, i128::MAX), 0);
}

#[test]
fn milliseconds_are_rounded_up_and_capped() {
    assert_eq!(poll_timeout(duration(0)), 0);
    assert_eq!(poll_timeout(duration(1)), 1);
    assert_eq!(poll_timeout(duration(999_999)), 1);
    assert_eq!(poll_timeout(duration(1_000_000)), 1);
    assert_eq!(poll_timeout(duration(1_000_001)), 2);
    assert_eq!(poll_timeout(duration(500_000_000)), 500);
    assert_eq!(poll_timeout(duration(2_147_483_647_000_000)), i32::MAX);
    assert_eq!(poll_timeout(duration(2_147_483_646_000_001)), i32::MAX);
    assert_eq!(poll_timeout(duration(2_147_483_646_000_000)), i32::MAX - 1);
    assert_eq!(poll_timeout(duration(2_147_483_647_000_001)), i32::MAX);
    assert_eq!(poll_timeout(duration(u128::MAX)), i32::MAX);
}
