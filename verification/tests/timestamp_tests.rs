use ryo3_jiff::compare::CompareOp;
use ryo3_jiff::round::RyTimestampRound;
use ryo3_jiff::signed_duration::RySignedDuration;
use ryo3_jiff::timestamp::{RyTimestamp, TimestampError};
use ryo3_jiff::units::JiffUnit;

#[test]
fn timestamp_parts_share_one_sign() {
    let t = RyTimestamp::py_new(-1, 500_000_000).unwrap();
    assert_eq!(t.as_second(), 0);
    assert_eq!(t.subsec_nanosecond(), -500_000_000);
    assert_eq!(t.as_nanosecond(), -500_000_000);
    assert_eq!(t.as_millisecond(), -500);
    assert_eq!(t.subsec_millisecond(), -500);
    assert_eq!(t.signum(), -1);
    let u = RyTimestamp::py_new(1, -1).unwrap();
    assert_eq!((u.as_second(), u.subsec_nanosecond()), (0, 999_999_999));
}

#[test]
fn timestamp_range() {
    let min = RyTimestamp::MIN();
    let max = RyTimestamp::MAX();
    assert_eq!(min.as_second(), -377_705_023_201);
    assert_eq!(max.subsec_nanosecond(), 999_999_999);
    assert_eq!(RyTimestamp::py_new(-377_705_023_201, -1), Err(TimestampError::OutOfRange));
    assert!(RyTimestamp::py_new(-377_705_023_201, 1).is_ok());
    assert_eq!(RyTimestamp::py_new(0, 1_000_000_000), Err(TimestampError::OutOfRange));
    assert_eq!(RyTimestamp::from_second(253_402_207_201), Err(TimestampError::OutOfRange));
    assert_eq!(RyTimestamp::from_millisecond(253_402_207_200_001), Err(TimestampError::OutOfRange));
    assert!(RyTimestamp::from_nanosecond(253_402_207_200_999_999_999).is_ok());
    assert_eq!(RyTimestamp::from_nanosecond(253_402_207_201_000_000_000), Err(TimestampError::OutOfRange));
    assert_eq!(RyTimestamp::from_microsecond(-1).unwrap().as_nanosecond(), -1000);
}

#[test]
fn timestamp_texts_and_civil_time() {
    let t = RyTimestamp::from_second(1_700_000_000).unwrap();
    assert_eq!(t.to_string(), "2023-11-14T22:13:20Z");
    assert_eq!(t.repr(), "Timestamp(second=1700000000, nanosecond=0)");
    assert_eq!(RyTimestamp::from_str("2023-11-14T22:13:20Z"), Some(t));
    assert_eq!(RyTimestamp::from_str("yesterday"), None);
    let dt = t.datetime();
    assert_eq!(dt.to_string(), "2023-11-14T22:13:20");
    assert_eq!(RyTimestamp::UNIX_EPOCH().datetime().date().year(), 1970);
}

#[test]
fn timestamp_differences_and_addition() {
    let a = RyTimestamp::from_second(100).unwrap();
    let b = RyTimestamp::py_new(40, 500_000_000).unwrap();
    let d = a.duration_since(&b);
    assert_eq!(d.as_nanos(), 59_500_000_000);
    assert_eq!(b.checked_add(&d).unwrap(), a);
    assert_eq!(a.checked_sub(&d).unwrap(), b);
    assert_eq!(a.duration_until(&b).as_nanos(), -59_500_000_000);
    assert_eq!(RyTimestamp::MAX().checked_add(&RySignedDuration::from_secs(1)), Err(TimestampError::OutOfRange));
    assert!(b.rich_compare(&a, CompareOp::Lt));
    assert!(RyTimestamp::UNIX_EPOCH().is_zero());
}

#[test]
fn timestamp_rounding_with_jiff() {
    let t = RyTimestamp::py_new(100, 600_000_000).unwrap();
    let r = RyTimestampRound::py_new(Some(JiffUnit::Second), None, 1).round(&t).unwrap();
    assert_eq!(r.as_second(), 101);
    assert!(RyTimestampRound::py_new(Some(JiffUnit::Year), None, 1).round(&t).is_none());
}

#[test]
fn timestamp_strftime_and_strptime() {
    let epoch = RyTimestamp::py_new(0, 0).unwrap();
    assert_eq!(epoch.strftime("%Y-%m-%dT%H:%M:%S%z"), Some("1970-01-01T00:00:00+0000".to_string()));
    assert_eq!(epoch.strftime("%Y %"), None);
    assert_eq!(epoch.format(""), Some(epoch.to_string()));
    assert_eq!(epoch.format("%Y"), Some("1970".to_string()));
    let t = RyTimestamp::strptime("1970-01-01 00:00:01 +0000", "%Y-%m-%d %H:%M:%S %z").unwrap();
    assert_eq!(t.as_second(), 1);
    assert!(RyTimestamp::strptime("1970-01-01 00:00:01", "%Y-%m-%d %H:%M:%S").is_none());
}
