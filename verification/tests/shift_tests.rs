use ryo3_jiff::date::RyDate;
use ryo3_jiff::datetime::RyDateTime;
use ryo3_jiff::shift::ShiftError;
use ryo3_jiff::signed_duration::RySignedDuration;
use ryo3_jiff::span::RySpan;
use ryo3_jiff::time::RyTime;
use ryo3_jiff::timestamp::RyTimestamp;

fn date(y: i16, m: i8, d: i8) -> RyDate {
    RyDate::py_new(y, m, d).unwrap()
}

fn time(h: i8, m: i8, s: i8, n: i32) -> RyTime {
    RyTime::py_new(Some(h), Some(m), Some(s), Some(n)).unwrap()
}

fn dt(y: i16, mo: i8, d: i8, h: i8, mi: i8) -> RyDateTime {
    RyDateTime::py_new(y, mo, d, Some(h), Some(mi), None, None).unwrap()
}

fn span(years: i64, months: i64, days: i64, hours: i64, minutes: i64) -> RySpan {
    RySpan::py_new(years, months, 0, days, hours, minutes, 0, 0, 0, 0).unwrap()
}

fn hours(h: i64) -> RySignedDuration {
    RySignedDuration::from_hours(h).unwrap()
}

#[test]
fn times_move_by_durations() {
    let t = time(10, 0, 0, 0);
    assert_eq!(t.checked_add_duration(&RySignedDuration::from_mins(90).unwrap()), Ok(time(11, 30, 0, 0)));
    let late = time(23, 0, 0, 0);
    assert_eq!(late.checked_add_duration(&hours(2)), Err(ShiftError::OutOfRange));
    assert_eq!(late.wrapping_add_duration(&hours(2)), time(1, 0, 0, 0));
    assert_eq!(late.saturating_add_duration(&hours(2)), RyTime::MAX());
    let early = time(0, 30, 0, 0);
    assert_eq!(early.checked_sub_duration(&hours(1)), Err(ShiftError::OutOfRange));
    assert_eq!(early.wrapping_sub_duration(&hours(1)), time(23, 30, 0, 0));
    assert_eq!(early.saturating_sub_duration(&hours(1)), RyTime::MIN());
    assert_eq!(early.saturating_sub_duration(&RySignedDuration::MIN()), RyTime::MIN());
    assert_eq!(
        RyTime::midnight().wrapping_add_duration(&RySignedDuration::MAX()),
        time(15, 30, 7, 999_999_999)
    );
}

#[test]
fn times_move_by_spans() {
    let t = time(10, 0, 0, 0);
    assert_eq!(t.checked_add_span(&span(0, 0, 0, 1, 30)), Ok(time(11, 30, 0, 0)));
    assert_eq!(t.checked_sub_span(&span(0, 0, 0, 1, 30)), Ok(time(8, 30, 0, 0)));
    assert_eq!(t.checked_add_span(&span(0, 0, 1, 0, 0)), Err(ShiftError::OutOfRange));
    assert_eq!(t.checked_add_span(&span(0, 0, 0, 14, 0)), Err(ShiftError::OutOfRange));
    assert_eq!(t.saturating_add_span(&span(0, 0, 0, 14, 0)), RyTime::MAX());
    assert_eq!(t.saturating_sub_span(&span(0, 0, 0, 14, 0)), RyTime::MIN());
    assert_eq!(t.wrapping_add_span(&span(0, 0, 0, 14, 0)), time(0, 0, 0, 0));
    let max = RySpan::py_new(
        0, 0, 0, 0, 175_307_616, 10_518_456_960, 631_107_417_600, 631_107_417_600_000,
        631_107_417_600_000_000, 9_223_372_036_854_775_807,
    )
    .unwrap();
    assert_eq!(RyTime::midnight().wrapping_add_span(&max), time(0, 42, 38, 811_897_855));
    assert_eq!(RyTime::midnight().wrapping_sub_span(&max), time(23, 17, 21, 188_102_145));
}

#[test]
fn dates_move_by_spans() {
    let d = date(2024, 3, 31);
    assert_eq!(d.checked_add_span(&span(0, 1, 0, 0, 0)), Ok(date(2024, 4, 30)));
    assert_eq!(d.checked_sub_span(&span(0, 1, 0, 0, 0)), Ok(date(2024, 2, 29)));
    assert_eq!(d.checked_add_span(&span(9000, 0, 0, 0, 0)), Err(ShiftError::OutOfRange));
    assert_eq!(d.saturating_add_span(&span(9000, 0, 0, 0, 0)), RyDate::MAX());
    assert_eq!(d.saturating_sub_span(&span(19_000, 0, 0, 0, 0)), RyDate::MIN());
    assert_eq!(date(2024, 2, 28).checked_add_span(&span(0, 0, 2, 0, 0)), Ok(date(2024, 3, 1)));
    assert_eq!(RyDate::MAX().checked_add_span(&span(0, 0, 1, 0, 0)), Err(ShiftError::OutOfRange));
}

#[test]
fn dates_move_by_whole_days_of_durations() {
    let d = date(2024, 2, 29);
    assert_eq!(d.checked_add_duration(&hours(24)), Ok(date(2024, 3, 1)));
    assert_eq!(d.checked_sub_duration(&hours(24)), Ok(date(2024, 2, 28)));
    assert_eq!(d.checked_add_duration(&hours(47)), Ok(date(2024, 3, 1)));
    assert_eq!(d.checked_add_duration(&hours(-47)), Ok(date(2024, 2, 28)));
    assert_eq!(d.checked_add_duration(&hours(23)), Ok(d));
    assert_eq!(RyDate::MAX().checked_add_duration(&hours(24)), Err(ShiftError::OutOfRange));
    assert_eq!(RyDate::MAX().saturating_add_duration(&hours(24)), RyDate::MAX());
    assert_eq!(RyDate::MIN().saturating_sub_duration(&hours(24)), RyDate::MIN());
    assert_eq!(date(1970, 1, 1).checked_add_duration(&hours(24 * 10_957)), Ok(date(2000, 1, 1)));
    // The day count itself must be a day number in range, even when the
    // date it lands on would be.
    assert_eq!(RyDate::MIN().checked_add_duration(&hours(24 * 7_304_483)), Err(ShiftError::OutOfRange));
    assert_eq!(date(1000, 1, 1).checked_add_duration(&hours(24 * 2_932_896)).is_ok(), true);
}

#[test]
fn datetimes_move() {
    let a = dt(2024, 1, 1, 23, 0);
    assert_eq!(a.checked_add_duration(&hours(2)), Ok(dt(2024, 1, 2, 1, 0)));
    assert_eq!(a.checked_sub_duration(&hours(25)), Ok(dt(2023, 12, 31, 22, 0)));
    assert_eq!(RyDateTime::MAX().checked_add_duration(&RySignedDuration::from_nanos(1)), Err(ShiftError::OutOfRange));
    assert_eq!(RyDateTime::MAX().saturating_add_duration(&hours(1)), RyDateTime::MAX());
    assert_eq!(RyDateTime::MIN().saturating_sub_duration(&hours(1)), RyDateTime::MIN());
    let b = dt(2024, 1, 31, 10, 0);
    assert_eq!(b.checked_add_span(&span(0, 1, 0, 0, 0)), Ok(dt(2024, 2, 29, 10, 0)));
    assert_eq!(b.checked_add_span(&span(0, 0, 0, 14, 0)), Ok(dt(2024, 2, 1, 0, 0)));
    assert_eq!(b.checked_sub_span(&span(0, 0, 1, 0, 30)), Ok(dt(2024, 1, 30, 9, 30)));
    assert_eq!(RyDateTime::MAX().saturating_add_span(&span(0, 0, 1, 0, 0)), RyDateTime::MAX());
}

#[test]
fn timestamps_move_by_spans() {
    let epoch = RyTimestamp::UNIX_EPOCH();
    let t = epoch.checked_add_span(&span(0, 0, 0, 1, 1)).unwrap();
    assert_eq!(t.as_second(), 3660);
    assert_eq!(t.checked_sub_span(&span(0, 0, 0, 2, 0)).unwrap().as_second(), -3540);
    assert_eq!(epoch.checked_add_span(&span(0, 0, 1, 0, 0)), Err(ShiftError::OutOfRange));
    assert_eq!(RyTimestamp::MAX().saturating_add_span(&span(0, 0, 0, 1, 0)), Ok(RyTimestamp::MAX()));
    assert_eq!(RyTimestamp::MIN().saturating_sub_span(&span(0, 0, 0, 1, 0)), Ok(RyTimestamp::MIN()));
    assert_eq!(epoch.saturating_add_span(&span(0, 0, 1, 0, 0)), Err(ShiftError::OutOfRange));
    assert_eq!(RyTimestamp::MAX().saturating_add_duration(&hours(1)), RyTimestamp::MAX());
    assert_eq!(RyTimestamp::MIN().saturating_sub_duration(&RySignedDuration::MIN()), RyTimestamp::MIN());
}

#[test]
fn durations_saturate() {
    let one = RySignedDuration::from_secs(1);
    assert_eq!(RySignedDuration::MAX().saturating_add(&one), RySignedDuration::MAX());
    assert_eq!(RySignedDuration::MIN().saturating_sub(&one), RySignedDuration::MIN());
    assert_eq!(RySignedDuration::MIN().saturating_add(&RySignedDuration::from_secs(-1)), RySignedDuration::MIN());
    assert_eq!(one.saturating_add(&one), RySignedDuration::from_secs(2));
    assert_eq!(RySignedDuration::MAX().saturating_mul(2), RySignedDuration::MAX());
    assert_eq!(RySignedDuration::MAX().saturating_mul(-2), RySignedDuration::MIN());
    assert_eq!(one.saturating_mul(-3), RySignedDuration::from_secs(-3));
}

#[test]
fn datetime_durations_and_weekdays() {
    let a = RyDateTime::py_new(2024, 3, 10, Some(12), Some(0), Some(0), None).unwrap();
    let b = RyDateTime::py_new(2024, 3, 9, Some(6), Some(30), Some(0), None).unwrap();
    assert_eq!(a.duration_since(&b).as_nanos(), 106_200_000_000_000);
    assert_eq!(a.duration_until(&b).as_nanos(), -106_200_000_000_000);
    assert_eq!(a.duration_since(&a).as_nanos(), 0);

    let dt = RyDateTime::py_new(2024, 7, 15, Some(16), Some(24), Some(59), None).unwrap();
    let second_monday = dt.nth_weekday_of_month(2, ryo3_jiff::units::JiffWeekday::Monday).unwrap();
    assert_eq!(second_monday.to_string(), "2024-07-08T16:24:59");
    let next_monday = dt.nth_weekday(1, ryo3_jiff::units::JiffWeekday::Monday).unwrap();
    assert_eq!(next_monday.to_string(), "2024-07-22T16:24:59");
    assert!(dt.nth_weekday_of_month(0, ryo3_jiff::units::JiffWeekday::Monday).is_err());
    assert_eq!(dt.nth_weekday_of_month(5, ryo3_jiff::units::JiffWeekday::Monday).unwrap().to_string(), "2024-07-29T16:24:59");
    assert!(dt.nth_weekday_of_month(5, ryo3_jiff::units::JiffWeekday::Friday).is_err());
}

#[test]
fn moving_by_the_time_between_datetimes_lands_on_the_other() {
    let a = RyDateTime::py_new(2031, 1, 5, Some(3), Some(4), Some(5), Some(6)).unwrap();
    let b = RyDateTime::py_new(1999, 12, 31, Some(23), Some(59), Some(59), Some(999_999_999)).unwrap();
    assert_eq!(b.checked_add_duration(&a.duration_since(&b)), Ok(a));
    assert_eq!(a.checked_add_duration(&b.duration_since(&a)), Ok(b));
}
