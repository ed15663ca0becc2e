use mytool::clock::{millis_between, Instant};
use mytool::syscall_executor::duration_millis;

fn at(seconds: i64, nanos: u32) -> Instant {
    Instant { seconds, nanos }
}

#[test]
fn millis_between_leaves_out_parts_of_a_millisecond() {
    assert_eq!(millis_between(&at(10, 0), &at(10, 999_999)), 0);
    assert_eq!(millis_between(&at(10, 0), &at(10, 1_000_000)), 1);
    assert_eq!(millis_between(&at(10, 500_000_000), &at(12, 250_000_000)), 1750);
    assert_eq!(millis_between(&at(12, 250_000_000), &at(10, 500_000_000)), -1750);
    assert_eq!(millis_between(&at(10, 999_999), &at(10, 0)), 0);
    assert_eq!(millis_between(&at(-1, 0), &at(1, 0)), 2000);
}

#[test]
fn duration_millis_wraps_a_negative_count() {
    assert_eq!(duration_millis(&at(5, 0), &at(5, 0)), 0);
    assert_eq!(duration_millis(&at(5, 0), &at(6, 2_000_000)), 1002);
    assert_eq!(duration_millis(&at(6, 0), &at(5, 999_000_000)), u64::MAX);
    assert_eq!(duration_millis(&at(7, 0), &at(5, 0)), u64::MAX - 1999);
}
