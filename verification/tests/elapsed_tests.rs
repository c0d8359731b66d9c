use ryo3_jiff::date::RyDate;
use ryo3_jiff::datetime::RyDateTime;
use ryo3_jiff::difference::{RyDateDifference, RyTimestampDifference};
use ryo3_jiff::elapsed::DifferenceError;
use ryo3_jiff::time::RyTime;
use ryo3_jiff::timestamp::RyTimestamp;
use ryo3_jiff::units::{JiffRoundMode, JiffUnit};

fn date(y: i16, m: i8, d: i8) -> RyDate {
    RyDate::py_new(y, m, d).unwrap()
}

fn days(n: i64) -> [i64; 10] {
    [0, 0, 0, n, 0, 0, 0, 0, 0, 0]
}

#[test]
fn date_until_and_since_count_days() {
    let a = date(2024, 3, 10);
    let b = date(2024, 3, 15);
    assert_eq!(a.until(&b, None, None, None, None).unwrap().fields(), days(5));
    assert_eq!(a.since(&b, None, None, None, None).unwrap().fields(), days(-5));
    assert_eq!(b.since(&a, None, None, None, None).unwrap().fields(), days(5));
    assert_eq!(a.until(&a, None, None, None, None).unwrap().fields(), days(0));
    // across a leap day
    let c = date(2024, 2, 28);
    let d = date(2024, 3, 1);
    assert_eq!(c.until(&d, None, None, None, None).unwrap().fields(), days(2));
}

#[test]
fn date_differences_in_weeks() {
    let a = date(2024, 1, 1);
    let b = date(2024, 1, 20);
    let w = Some(JiffUnit::Week);
    assert_eq!(a.until(&b, None, w, None, None).unwrap().fields(), [0, 0, 2, 5, 0, 0, 0, 0, 0, 0]);
    assert_eq!(a.since(&b, None, w, None, None).unwrap().fields(), [0, 0, -2, -5, 0, 0, 0, 0, 0, 0]);
    let diff = RyDateDifference::py_new(b, None, w, None, None);
    assert_eq!(a.until_difference(&diff).unwrap().fields(), [0, 0, 2, 5, 0, 0, 0, 0, 0, 0]);
}

#[test]
fn date_differences_refuse_time_units() {
    let a = date(2024, 1, 1);
    let b = date(2024, 1, 20);
    assert_eq!(a.until(&b, Some(JiffUnit::Hour), None, None, None), Err(DifferenceError::Refused));
    assert_eq!(a.since(&b, None, Some(JiffUnit::Minute), None, None), Err(DifferenceError::Refused));
}

#[test]
fn date_differences_in_months() {
    let a = date(2024, 1, 15);
    let b = date(2024, 3, 20);
    let s = a.until(&b, None, Some(JiffUnit::Month), None, None).unwrap();
    assert_eq!(s.fields(), [0, 2, 0, 5, 0, 0, 0, 0, 0, 0]);
    let y = a.until(&date(2026, 1, 15), None, Some(JiffUnit::Year), None, None).unwrap();
    assert_eq!(y.fields(), [2, 0, 0, 0, 0, 0, 0, 0, 0, 0]);
}

#[test]
fn time_and_datetime_differences() {
    let t1 = RyTime::py_new(Some(10), None, None, None).unwrap();
    let t2 = RyTime::py_new(Some(12), Some(30), None, None).unwrap();
    assert_eq!(t1.until(&t2, None, None, None, None).unwrap().fields(), [0, 0, 0, 0, 2, 30, 0, 0, 0, 0]);
    assert_eq!(t1.since(&t2, None, None, None, None).unwrap().fields(), [0, 0, 0, 0, -2, -30, 0, 0, 0, 0]);
    let mins = t1.until(&t2, None, Some(JiffUnit::Minute), None, None).unwrap();
    assert_eq!(mins.fields(), [0, 0, 0, 0, 0, 150, 0, 0, 0, 0]);
    let d1 = RyDateTime::py_new(2024, 1, 1, None, None, None, None).unwrap();
    let d2 = RyDateTime::py_new(2024, 1, 2, Some(1), None, None, None).unwrap();
    assert_eq!(d1.until(&d2, None, None, None, None).unwrap().fields(), [0, 0, 0, 1, 1, 0, 0, 0, 0, 0]);
    assert_eq!(d2.since(&d1, None, None, None, None).unwrap().fields(), [0, 0, 0, 1, 1, 0, 0, 0, 0, 0]);
}

#[test]
fn timestamp_differences_round() {
    let a = RyTimestamp::from_second(0).unwrap();
    let b = RyTimestamp::from_second(3661).unwrap();
    let s = a.until(&b, JiffUnit::Nanosecond, None, JiffRoundMode::Trunc, 1).unwrap();
    assert_eq!(s.fields(), [0, 0, 0, 0, 0, 0, 3661, 0, 0, 0]);
    let h = a.until(&b, JiffUnit::Nanosecond, Some(JiffUnit::Hour), JiffRoundMode::Trunc, 1).unwrap();
    assert_eq!(h.fields(), [0, 0, 0, 0, 1, 1, 1, 0, 0, 0]);
    let c = RyTimestamp::from_second(90).unwrap();
    let m = a.until(&c, JiffUnit::Minute, None, JiffRoundMode::HalfExpand, 1).unwrap();
    assert_eq!(m.fields(), [0, 0, 0, 0, 0, 2, 0, 0, 0, 0]);
    let diff = RyTimestampDifference::py_new(a, JiffUnit::Nanosecond, None, JiffRoundMode::Trunc, 1);
    assert_eq!(b.since_difference(&diff).unwrap().fields(), [0, 0, 0, 0, 0, 0, 3661, 0, 0, 0]);
    assert_eq!(
        diff.repr(),
        "TimestampDifference(Timestamp(second=0, nanosecond=0), smallest=\"nanosecond\", largest=None, mode=\"trunc\", increment=1)"
    );
    assert_eq!(
        a.until(&b, JiffUnit::Year, None, JiffRoundMode::Trunc, 1),
        Err(DifferenceError::Refused)
    );
}

#[test]
fn date_since_is_until_with_dates_swapped() {
    let a = date(2024, 3, 1);
    let b = date(2024, 1, 1);
    let since = a.since(&b, None, None, None, None).unwrap();
    assert_eq!(since.fields(), days(60));
    assert_eq!(b.until(&a, None, None, None, None).unwrap().fields(), since.fields());
    assert_eq!(a.until(&b, None, None, None, None).unwrap().fields(), days(-60));
    let w = Some(JiffUnit::Week);
    assert_eq!(a.since(&b, None, w, None, None).unwrap().fields(), [0, 0, 8, 4, 0, 0, 0, 0, 0, 0]);
    assert_eq!(b.until(&a, None, w, None, None).unwrap().fields(), [0, 0, 8, 4, 0, 0, 0, 0, 0, 0]);
}

#[test]
fn date_since_in_months_differs_from_swapped_until() {
    let a = date(2024, 3, 31);
    let b = date(2024, 2, 29);
    let m = Some(JiffUnit::Month);
    assert_eq!(b.until(&a, None, m, None, None).unwrap().fields(), [0, 1, 0, 2, 0, 0, 0, 0, 0, 0]);
    assert_eq!(a.since(&b, None, m, None, None).unwrap().fields(), [0, 1, 0, 0, 0, 0, 0, 0, 0, 0]);
}
