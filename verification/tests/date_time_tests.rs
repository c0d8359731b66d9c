use ryo3_jiff::compare::CompareOp;
use ryo3_jiff::date::{leap_year, month_days, DateError, RyDate};
use ryo3_jiff::datetime::{DateTimeError, ReplaceBase, RyDateTime};
use ryo3_jiff::time::{RyTime, TimeError};
use ryo3_jiff::units::{JiffEra, JiffRoundMode, JiffUnit, JiffWeekday};

fn date(y: i16, m: i8, d: i8) -> RyDate {
    RyDate::py_new(y, m, d).unwrap()
}

#[test]
fn which_dates_exist() {
    assert!(RyDate::py_new(2024, 2, 29).is_ok());
    assert_eq!(RyDate::py_new(2023, 2, 29), Err(DateError::OutOfRange));
    assert_eq!(RyDate::py_new(1900, 2, 29), Err(DateError::OutOfRange));
    assert!(RyDate::py_new(2000, 2, 29).is_ok());
    assert_eq!(RyDate::py_new(2024, 4, 31), Err(DateError::OutOfRange));
    assert_eq!(RyDate::py_new(10000, 1, 1), Err(DateError::OutOfRange));
    assert_eq!(RyDate::py_new(2024, 13, 1), Err(DateError::OutOfRange));
    assert_eq!(RyDate::py_new(2024, 1, 0), Err(DateError::OutOfRange));
    assert!(leap_year(-4));
    assert!(!leap_year(-100));
    assert_eq!(month_days(2023, 2), 28);
}

#[test]
fn ordinal_days() {
    let d = date(2024, 3, 1);
    assert_eq!(d.day_of_year(), 61);
    assert_eq!(d.day_of_year_no_leap(), Some(60));
    assert_eq!(date(2024, 2, 29).day_of_year_no_leap(), None);
    assert_eq!(date(2023, 12, 31).day_of_year(), 365);
    assert_eq!(d.days_in_year(), 366);
    assert_eq!(d.days_in_month(), 31);
    assert!(d.in_leap_year());
}

#[test]
fn month_and_year_bounds() {
    let d = date(2024, 2, 10);
    assert_eq!(d.first_of_month(), date(2024, 2, 1));
    assert_eq!(d.last_of_month(), date(2024, 2, 29));
    assert_eq!(d.first_of_year(), date(2024, 1, 1));
    assert_eq!(d.last_of_year(), date(2024, 12, 31));
}

#[test]
fn neighbouring_days() {
    assert_eq!(date(2024, 2, 28).tomorrow().unwrap(), date(2024, 2, 29));
    assert_eq!(date(2023, 12, 31).tomorrow().unwrap(), date(2024, 1, 1));
    assert_eq!(date(2024, 3, 1).yesterday().unwrap(), date(2024, 2, 29));
    assert_eq!(RyDate::MAX().tomorrow(), Err(DateError::OutOfRange));
    assert_eq!(RyDate::MIN().yesterday(), Err(DateError::OutOfRange));
    assert_eq!(date(2024, 5, 5).tomorrow().unwrap().yesterday().unwrap(), date(2024, 5, 5));
}

#[test]
fn date_replace() {
    let d = date(2024, 3, 15);
    assert_eq!(d.replace(Some(2023), None, None, None, None, None).unwrap(), date(2023, 3, 15));
    assert_eq!(d.replace(None, Some((44, JiffEra::BCE)), None, None, None, None).unwrap(), date(-43, 3, 15));
    assert_eq!(d.replace(None, None, Some(2), Some(29), None, None).unwrap(), date(2024, 2, 29));
    assert_eq!(d.replace(Some(2023), None, Some(2), Some(29), None, None), Err(DateError::OutOfRange));
    assert_eq!(d.replace(None, None, None, None, Some(60), None).unwrap(), date(2024, 2, 29));
    assert_eq!(d.replace(None, None, None, None, None, Some(60)).unwrap(), date(2024, 3, 1));
    assert_eq!(d.replace(None, None, None, None, Some(366), None).unwrap(), date(2024, 12, 31));
    assert_eq!(d.replace(Some(2023), None, None, None, Some(366), None), Err(DateError::OutOfRange));
    assert_eq!(d.replace(None, None, Some(13), None, Some(1), None), Err(DateError::OutOfRange));
    assert_eq!(d.replace(None, None, None, Some(32), None, None), Err(DateError::OutOfRange));
}

#[test]
fn date_texts_and_weekday() {
    let d = date(2024, 3, 15);
    assert_eq!(d.repr(), "Date(year=2024, month=3, day=15)");
    assert_eq!(d.to_string(), "2024-03-15");
    assert_eq!(d.weekday(), 5);
    assert_eq!(d.weekday_enum(), JiffWeekday::Friday);
    assert_eq!(RyDate::from_str("2024-03-15"), Some(d));
    assert_eq!(RyDate::from_str("2024-02-30"), None);
}

#[test]
fn date_durations_and_eras() {
    let a = date(2024, 3, 15);
    let b = date(2024, 3, 10);
    assert_eq!(a.duration_since(&b).parts(), (5 * 86_400, 0));
    assert_eq!(a.duration_until(&b).parts(), (-5 * 86_400, 0));
    assert_eq!(date(1970, 1, 2).duration_since(&date(1970, 1, 1)).parts(), (86_400, 0));
    // 2000 is a leap year: 366 days to the next January 1.
    assert_eq!(date(2001, 1, 1).duration_since(&date(2000, 1, 1)).parts(), (366 * 86_400, 0));
    assert_eq!(date(1901, 1, 1).duration_since(&date(1900, 1, 1)).parts(), (365 * 86_400, 0));
    // jiff's own example: 4543 days.
    assert_eq!(date(2019, 1, 31).duration_since(&date(2006, 8, 24)).parts(), (4543 * 86_400, 0));
    let span = RyDate::MAX().duration_since(&RyDate::MIN());
    assert_eq!(span.parts(), (7_304_483 * 86_400, 0));
    assert_eq!(date(2024, 10, 3).era_year(), (2024, JiffEra::CE));
    assert_eq!(date(1, 10, 3).era_year(), (1, JiffEra::CE));
    assert_eq!(date(0, 10, 3).era_year(), (1, JiffEra::BCE));
    assert_eq!(date(-9999, 10, 3).era_year(), (10000, JiffEra::BCE));
}

#[test]
fn weekdays_follow_each_other() {
    assert_eq!(date(1970, 1, 1).weekday(), 4);
    assert_eq!(date(2000, 1, 1).weekday(), 6);
    assert_eq!(date(1969, 12, 31).weekday(), 3);
    assert_eq!(date(-9999, 1, 1).weekday(), 1);
    assert_eq!(date(9999, 12, 31).weekday(), 5);
    let mut d = date(2023, 12, 25);
    for _ in 0..14 {
        let n = d.tomorrow().unwrap();
        assert_eq!(n.weekday(), d.weekday() % 7 + 1);
        d = n;
    }
}

#[test]
fn date_comparisons() {
    let a = date(2024, 3, 15);
    let b = date(2024, 4, 1);
    assert!(a.rich_compare(&b, CompareOp::Lt));
    assert!(b.rich_compare(&a, CompareOp::Gt));
    assert!(a.rich_compare(&a, CompareOp::Le));
    assert!(!a.rich_compare(&a, CompareOp::Ne));
}

#[test]
fn times_and_their_parts() {
    let t = RyTime::py_new(Some(10), Some(30), None, Some(123_456_789)).unwrap();
    assert_eq!(t.millisecond(), 123);
    assert_eq!(t.microsecond(), 456);
    assert_eq!(t.nanosecond(), 789);
    assert_eq!(t.second(), 0);
    assert_eq!(RyTime::py_new(Some(24), None, None, None), Err(TimeError::OutOfRange));
    assert_eq!(RyTime::py_new(None, None, None, Some(1_000_000_000)), Err(TimeError::OutOfRange));
    assert_eq!(t.repr(), "Time(hour=10, minute=30, second=0, nanosecond=123456789)");
    assert_eq!(t.to_string(), "10:30:00.123456789");
    assert_eq!(t.isoformat(), "10:30:00.123456");
    let whole = RyTime::py_new(Some(9), Some(5), Some(7), None).unwrap();
    assert_eq!(whole.isoformat(), "09:05:07");
    assert_eq!(RyTime::from_str("09:05:07"), Some(whole));
    assert!(whole.rich_compare(&t, CompareOp::Lt));
}

#[test]
fn time_replace() {
    let t = RyTime::py_new(Some(10), Some(30), None, Some(123_456_789)).unwrap();
    assert_eq!(t.replace(None, None, None, None, None, None, None), Ok(t));
    assert_eq!(t.replace(None, None, None, Some(1), None, None, Some(5)), Err(TimeError::ConflictingSubsec));
    let r = t.replace(Some(11), None, None, Some(7), None, None, None).unwrap();
    assert_eq!(r.subsec_nanosecond(), 7_456_789);
    assert_eq!(r.hour(), 11);
    let s = t.replace(None, None, None, None, None, None, Some(5)).unwrap();
    assert_eq!(s.subsec_nanosecond(), 5);
    assert_eq!(t.replace(None, None, None, None, Some(1000), None, None), Err(TimeError::OutOfRange));
    assert_eq!(t.replace(Some(-1), None, None, None, None, None, None), Err(TimeError::OutOfRange));
}

#[test]
fn datetimes() {
    let dt = RyDateTime::py_new(2024, 3, 15, Some(10), Some(30), None, None).unwrap();
    assert_eq!(dt.date(), date(2024, 3, 15));
    assert_eq!(dt.time().hour(), 10);
    assert_eq!(dt.to_string(), "2024-03-15T10:30:00");
    assert_eq!(dt.isoformat(), "2024-03-15T10:30:00");
    assert_eq!(
        dt.repr(),
        "DateTime(year=2024, month=3, day=15, hour=10, minute=30, second=0, subsec_nanosecond=0)"
    );
    assert_eq!(RyDateTime::py_new(2024, 2, 30, None, None, None, None), Err(DateTimeError::OutOfRange));
    assert_eq!(dt.start_of_day().time(), RyTime::midnight());
    assert_eq!(dt.end_of_day().time(), RyTime::MAX());
    assert_eq!(dt.last_of_month().date(), date(2024, 3, 31));
    assert_eq!(RyDateTime::MAX().tomorrow(), Err(DateTimeError::OutOfRange));
    assert_eq!(dt.tomorrow().unwrap().date(), date(2024, 3, 16));
    assert_eq!(date(2024, 3, 15).at(10, 30, 0, 0), dt);
    assert_eq!(RyTime::py_new(Some(10), Some(30), None, None).unwrap().on(2024, 3, 15), dt);
}

#[test]
fn datetime_parsing_reads_z_as_utc_instant() {
    let a = RyDateTime::from_str("2024-03-15T10:30:00Z").unwrap();
    assert_eq!(a.to_string(), "2024-03-15T10:30:00");
    let b = RyDateTime::from_str("2024-03-15T10:30:00+02:00[+02:00]").unwrap();
    assert_eq!(b.to_string(), "2024-03-15T10:30:00");
    let c = RyDateTime::from_str("2024-03-15T12:30:00+02:00Z");
    assert!(c.is_none() || c.unwrap().time().hour() == 10);
    assert!(RyDateTime::from_str("nope").is_none());
}

#[test]
fn datetime_replace_bases() {
    let dt = RyDateTime::py_new(2024, 3, 15, Some(10), Some(30), None, None).unwrap();
    let t = RyTime::py_new(Some(1), Some(2), Some(3), None).unwrap();
    let r = dt.replace(Some(ReplaceBase::Time(t)), None, None, None, None, None, None, None, None, None, None, None, None, None, None, None).unwrap();
    assert_eq!(r.time(), t);
    assert_eq!(r.date(), dt.date());
    let d = date(2020, 1, 1);
    let r2 = dt.replace(None, Some(d), None, None, None, Some(6), None, None, None, Some(23), None, None, None, None, None, None).unwrap();
    assert_eq!(r2.date(), date(2020, 6, 1));
    assert_eq!(r2.time().hour(), 23);
    let bad = dt.replace(None, None, None, None, None, None, None, None, None, None, None, None, Some(1), None, None, Some(2));
    assert_eq!(bad, Err(DateTimeError::OutOfRange));
}

#[test]
fn rounding_with_jiff() {
    let dt = RyDateTime::py_new(2024, 3, 15, Some(10), Some(30), Some(31), None).unwrap();
    let r = dt.round(Some(JiffUnit::Minute), None, None).unwrap();
    assert_eq!(r.time().minute(), 31);
    assert_eq!(r.time().second(), 0);
    let t = RyTime::py_new(Some(10), Some(30), Some(29), None).unwrap();
    let tr = t.round(Some(JiffUnit::Minute), Some(JiffRoundMode::Ceil), None).unwrap();
    assert_eq!(tr.minute(), 31);
    assert!(t.round(Some(JiffUnit::Year), None, None).is_none());
}

#[test]
fn nth_weekdays() {
    let d = date(2024, 3, 15);
    assert_eq!(d.nth_weekday_of_month(1, JiffWeekday::Friday), Ok(date(2024, 3, 1)));
    assert_eq!(d.nth_weekday_of_month(2, JiffWeekday::Monday), Ok(date(2024, 3, 11)));
    assert_eq!(d.nth_weekday_of_month(-1, JiffWeekday::Sunday), Ok(date(2024, 3, 31)));
    assert_eq!(d.nth_weekday_of_month(-2, JiffWeekday::Thursday), Ok(date(2024, 3, 21)));
    assert_eq!(d.nth_weekday_of_month(5, JiffWeekday::Monday), Err(DateError::OutOfRange));
    assert_eq!(d.nth_weekday_of_month(0, JiffWeekday::Monday), Err(DateError::OutOfRange));
    assert_eq!(d.nth_weekday_of_month(6, JiffWeekday::Monday), Err(DateError::OutOfRange));
    assert_eq!(d.nth_weekday(1, JiffWeekday::Friday), Ok(date(2024, 3, 22)));
    assert_eq!(d.nth_weekday(-1, JiffWeekday::Friday), Ok(date(2024, 3, 8)));
    assert_eq!(d.nth_weekday(1, JiffWeekday::Saturday), Ok(date(2024, 3, 16)));
    assert_eq!(d.nth_weekday(2, JiffWeekday::Monday), Ok(date(2024, 3, 25)));
    assert_eq!(d.nth_weekday(-3, JiffWeekday::Sunday), Ok(date(2024, 2, 25)));
    assert_eq!(d.nth_weekday(0, JiffWeekday::Sunday), Err(DateError::OutOfRange));
    assert_eq!(RyDate::MAX().nth_weekday(1, JiffWeekday::Monday), Err(DateError::OutOfRange));
    assert_eq!(d.nth_weekday(2_000_000, JiffWeekday::Monday), Err(DateError::OutOfRange));
}

#[test]
fn strftime_and_strptime_on_civil_values() {
    let d = date(2024, 7, 15);
    assert_eq!(d.strftime("%Y-%m-%d is a %A"), "2024-07-15 is a Monday");
    assert_eq!(d.strftime("%Y %"), "2024 %");
    assert_eq!(RyDate::strptime("2024-07-15", "%Y-%m-%d"), Some(d));
    assert_eq!(RyDate::strptime("2024-13-01", "%Y-%m-%d"), None);

    let t = RyTime::py_new(Some(16), Some(24), Some(59), Some(0)).unwrap();
    assert_eq!(t.strftime("%H:%M:%S"), "16:24:59");
    let parsed = RyTime::strptime("21:14", "%H:%M").unwrap();
    assert_eq!((parsed.hour(), parsed.minute(), parsed.second()), (21, 14, 0));

    let dt = RyDateTime::from_parts(&d, &t);
    assert_eq!(dt.strftime("%Y-%m-%dT%H:%M:%S"), "2024-07-15T16:24:59");
    assert_eq!(RyDateTime::strptime("2024-07-15 16:24:59", "%Y-%m-%d %H:%M:%S"), Some(dt));
    assert_eq!(RyDateTime::strptime("2024-07-15", "%Y-%m-%d %H:%M:%S"), None);
}
