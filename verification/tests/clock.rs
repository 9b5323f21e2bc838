use auth_core::clock::{clamp_to_i64, Timestamp, MICROS_PER_DAY, MICROS_PER_MINUTE, MICROS_PER_SECOND};

#[test]
fn later_moments() {
    let t = Timestamp::from_micros(1_000);
    assert_eq!(t.plus_micros(5), Timestamp { micros: 1_005 });
    assert_eq!(t.plus_minutes(15), Timestamp { micros: 1_000 + 900_000_000 });
    assert_eq!(t.plus_days(7), Timestamp { micros: 1_000 + 604_800_000_000 });
    assert_eq!(t.plus_days(-1), Timestamp { micros: 1_000 - 86_400_000_000 });
    assert_eq!(MICROS_PER_DAY, 24 * 60 * MICROS_PER_MINUTE);
    assert_eq!(MICROS_PER_MINUTE, 60 * MICROS_PER_SECOND);
}

#[test]
fn sums_are_held_at_the_bounds() {
    let t = Timestamp::from_micros(i64::MAX - 1);
    assert_eq!(t.plus_micros(10).micros, i64::MAX);
    assert_eq!(t.plus_days(i64::MAX).micros, i64::MAX);
    assert_eq!(Timestamp::from_micros(i64::MIN + 1).plus_days(i64::MIN).micros, i64::MIN);
    assert_eq!(clamp_to_i64(i128::MAX), i64::MAX);
    assert_eq!(clamp_to_i64(i128::MIN), i64::MIN);
    assert_eq!(clamp_to_i64(-5), -5);
}

#[test]
fn seconds_are_rounded_down() {
    assert_eq!(Timestamp::from_micros(1_999_999).unix_seconds(), 1);
    assert_eq!(Timestamp::from_micros(2_000_000).unix_seconds(), 2);
    assert_eq!(Timestamp::from_micros(0).unix_seconds(), 0);
    assert_eq!(Timestamp::from_micros(-1).unix_seconds(), -1);
    assert_eq!(Timestamp::from_micros(-1_000_000).unix_seconds(), -1);
    assert_eq!(Timestamp::from_micros(-1_000_001).unix_seconds(), -2);
}

#[test]
fn order_of_moments() {
    let a = Timestamp::from_micros(1);
    let b = Timestamp::from_micros(2);
    assert!(a.is_before(b));
    assert!(!b.is_before(a));
    assert!(!a.is_before(a));
}

#[test]
fn clock_moves_forward_from_a_recent_past() {
    let a = Timestamp::now();
    let b = Timestamp::now();
    assert!(!b.is_before(a));
    // 2020-01-01T00:00:00Z
    assert!(Timestamp::from_micros(1_577_836_800_000_000).is_before(a));
}
