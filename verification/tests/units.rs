use ebe::units::{half, offset, TICKS_PER_UNIT};

#[test]
fn offset_adds_within_range() {
    assert_eq!(offset(3 * TICKS_PER_UNIT, -TICKS_PER_UNIT), 2 * TICKS_PER_UNIT);
}

#[test]
fn offset_stops_at_the_ends() {
    assert_eq!(offset(i64::MAX - 1, 5), i64::MAX);
    assert_eq!(offset(i64::MIN + 1, -5), i64::MIN);
}

#[test]
fn half_rounds_towards_zero() {
    assert_eq!(half(7), 3);
    assert_eq!(half(-7), -3);
    assert_eq!(half(256 * TICKS_PER_UNIT), 128 * TICKS_PER_UNIT);
}
