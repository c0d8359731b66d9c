use ryo3_jiff::compare::CompareOp;
use ryo3_jiff::offset::{OffsetError, RyOffset};
use ryo3_jiff::signed_duration::{DurationError, RySignedDuration};

#[test]
fn offset_range_is_plus_minus_25_59_59() {
    assert!(RyOffset::from_seconds(93599).is_ok());
    assert!(RyOffset::from_seconds(-93599).is_ok());
    assert_eq!(RyOffset::from_seconds(93600), Err(OffsetError::OutOfRange));
    assert_eq!(RyOffset::from_hours(26), Err(OffsetError::OutOfRange));
    assert_eq!(RyOffset::MAX().seconds(), 93599);
    assert_eq!(RyOffset::MIN().seconds(), -93599);
    assert_eq!(RyOffset::utc().seconds(), 0);
}

#[test]
fn offset_parts_carry_the_sign() {
    let o = RyOffset::py_new(-5, -30, -15).unwrap();
    assert_eq!(o.seconds(), -19815);
    assert_eq!(o.hms(), (-5, -30, -15));
    assert!(o.is_negative());
    assert!(!o.is_positive());
    assert_eq!(o.negate().seconds(), 19815);
    assert_eq!(o.negate().negate(), o);
}

#[test]
fn offset_texts() {
    let o = RyOffset::py_new(5, 30, 0).unwrap();
    assert_eq!(o.isoformat(), "+05:30");
    assert_eq!(o.to_string(), "+05:30");
    assert_eq!(o.repr(), "Offset(seconds=19800)");
    let h = RyOffset::from_hours(-8).unwrap();
    assert_eq!(h.repr(), "Offset(hours=-8)");
    assert_eq!(h.isoformat(), "-08:00");
    assert_eq!(h.to_string(), "-08");
    assert_eq!(RyOffset::utc().isoformat(), "+00:00");
    assert_eq!(RyOffset::utc().to_string(), "+00");
    assert_eq!(RyOffset::from_seconds(3661).unwrap().isoformat(), "+01:01:01");
}

#[test]
fn offset_comparisons() {
    let a = RyOffset::from_hours(1).unwrap();
    let b = RyOffset::from_hours(2).unwrap();
    assert!(a.rich_compare(&b, CompareOp::Lt));
    assert!(!a.rich_compare(&b, CompareOp::Ge));
    assert!(a.rich_compare(&a, CompareOp::Eq));
}

#[test]
fn duration_parts_are_normalized() {
    let d = RySignedDuration::py_new(1, 1_500_000_000).unwrap();
    assert_eq!(d.secs(), 2);
    assert_eq!(d.nanos(), 500_000_000);
    let n = RySignedDuration::py_new(1, -1).unwrap();
    assert_eq!(n.secs(), 0);
    assert_eq!(n.nanos(), 999_999_999);
    assert_eq!(RySignedDuration::py_new(i64::MAX, 1_000_000_000), Err(DurationError::Overflow));
    assert_eq!(RySignedDuration::from_nanos(-1_500_000_000).secs(), -1);
    assert_eq!(RySignedDuration::from_nanos(-1_500_000_000).nanos(), -500_000_000);
}

#[test]
fn duration_unit_constructors() {
    assert_eq!(RySignedDuration::from_hours(2).unwrap().secs(), 7200);
    assert_eq!(RySignedDuration::from_mins(-3).unwrap().secs(), -180);
    assert_eq!(RySignedDuration::from_hours(i64::MAX), Err(DurationError::Overflow));
    assert_eq!(RySignedDuration::from_millis(1500).as_nanos(), 1_500_000_000);
    assert_eq!(RySignedDuration::from_micros(-2).as_nanos(), -2000);
    assert_eq!(RySignedDuration::from_secs(90).as_mins(), 1);
    assert_eq!(RySignedDuration::from_secs(7300).as_hours(), 2);
}

#[test]
fn duration_from_timedelta_parts() {
    let d = RySignedDuration::from_timedelta_parts(-1, 86399, 500_000).unwrap();
    assert_eq!(d.as_nanos(), -500_000_000);
    assert_eq!(RySignedDuration::from_timedelta_parts(i64::MAX, 0, 0), Err(DurationError::Overflow));
    let e = RySignedDuration::from_timedelta_parts(2, 3600, 0).unwrap();
    assert_eq!(e.days(), 2);
    assert_eq!(e.seconds(), 3600);
}

#[test]
fn duration_arithmetic_and_errors() {
    let a = RySignedDuration::from_secs(10);
    let b = RySignedDuration::py_new(3, 250_000_000).unwrap();
    assert_eq!(a.add(&b).unwrap().as_nanos(), 13_250_000_000);
    assert_eq!(a.sub(&b).unwrap().as_nanos(), 6_750_000_000);
    assert_eq!(a.add(&b).unwrap().sub(&b).unwrap(), a);
    assert_eq!(b.mul(4).unwrap().as_nanos(), 13_000_000_000);
    assert_eq!(b.div(2).unwrap().as_nanos(), 1_625_000_000);
    assert_eq!(b.div(0), Err(DurationError::DivideByZero));
    assert_eq!(RySignedDuration::MAX().add(&a), Err(DurationError::Overflow));
    assert_eq!(RySignedDuration::MIN().neg(), Err(DurationError::NoNegation));
    assert_eq!(b.neg().unwrap().neg().unwrap(), b);
    assert_eq!(b.neg().unwrap().abs(), b);
    assert_eq!(b.signum(), 1);
    assert!(RySignedDuration::ZERO().is_zero());
    assert!(b.rich_compare(&a, CompareOp::Lt));
}

#[test]
fn duration_texts() {
    let b = RySignedDuration::py_new(3, 250_000_000).unwrap();
    assert_eq!(b.repr(), "SignedDuration(secs=3, nanos=250000000)");
    assert_eq!(RySignedDuration::from_hours(1).unwrap().to_string(), "PT1H");
    assert_eq!(b.subsec_millis(), 250);
    assert_eq!(b.subsec_micros(), 250_000);
}

#[test]
fn timedelta_parts_round_trip() {
    use_parts(-1, 86_399, 999_999, -1_000);
    use_parts(0, 1, 500_000, 1_500_000_000);
    use_parts(2, 0, 0, 172_800_000_000_000);
}

fn use_parts(days: i64, seconds: i64, micros: i32, nanos: i128) {
    let d = ryo3_jiff::signed_duration::RySignedDuration::from_timedelta_parts(days, seconds, micros).unwrap();
    assert_eq!(d.as_nanos(), nanos);
}
