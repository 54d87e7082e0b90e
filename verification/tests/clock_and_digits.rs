use overlay::clock::TimeTick;
use overlay::digits::{i64_to_string, parse_i32, parse_u32, u64_to_string};

#[test]
fn clock_advance_carries_seconds() {
    let mut t = TimeTick::new();
    t.advance(999_999);
    assert_eq!(t.sec, 0);
    assert_eq!(t.micro, 999_999);
    t.advance(2);
    assert_eq!(t.sec, 1);
    assert_eq!(t.micro, 1);
}

#[test]
fn clock_build_normalizes() {
    let t = TimeTick::build(2, 1_500_000);
    assert_eq!(t.sec, 3);
    assert_eq!(t.micro, 500_000);
}

#[test]
fn clock_subtract_borrows_a_second() {
    let a = TimeTick::build(5, 200_000);
    let b = TimeTick::build(2, 700_000);
    let d = a.subtract(&b);
    assert_eq!(d.sec, 2);
    assert_eq!(d.micro, 500_000);
}

#[test]
fn clock_subtract_clamps_at_zero() {
    let a = TimeTick::build(1, 0);
    let b = TimeTick::build(2, 0);
    let d = a.subtract(&b);
    assert_eq!(d.sec, 0);
    assert_eq!(d.micro, 0);
}

#[test]
fn clock_subtract_add_back_round_trip() {
    let a = TimeTick::build(7, 123_456);
    let b = TimeTick::build(2, 654_321);
    let restored = a.subtract(&b).add_back(&b);
    assert_eq!(restored, a);
}

#[test]
fn clock_ordering_is_lexicographic() {
    let a = TimeTick::build(2, 999_999);
    let b = TimeTick::build(3, 0);
    assert!(a.lt(&b));
    assert!(a.le(&b));
    assert!(!b.le(&a));
    assert!(a.le(&a));
}

#[test]
fn decimal_rendering_exact() {
    assert_eq!(u64_to_string(0), "0");
    assert_eq!(u64_to_string(35), "35");
    assert_eq!(u64_to_string(1080), "1080");
    assert_eq!(i64_to_string(-5), "-5");
    assert_eq!(i64_to_string(40), "40");
    assert_eq!(i64_to_string(i64::from(i32::MIN)), "-2147483648");
}

#[test]
fn parse_u32_accepts_digits_only() {
    assert_eq!(parse_u32("0"), Some(0));
    assert_eq!(parse_u32("750"), Some(750));
    assert_eq!(parse_u32("4294967295"), Some(u32::MAX));
    assert_eq!(parse_u32("4294967296"), None);
    assert_eq!(parse_u32(""), None);
    assert_eq!(parse_u32("12a"), None);
    assert_eq!(parse_u32("-3"), None);
}

#[test]
fn parse_i32_handles_signs() {
    assert_eq!(parse_i32("40"), Some(40));
    assert_eq!(parse_i32("-5"), Some(-5));
    assert_eq!(parse_i32("-2147483648"), Some(i32::MIN));
    assert_eq!(parse_i32("2147483648"), None);
    assert_eq!(parse_i32("-"), None);
    assert_eq!(parse_i32(""), None);
}
