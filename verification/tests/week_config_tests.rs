use ryo3_jiff::compare::CompareOp;
use ryo3_jiff::date::RyDate;
use ryo3_jiff::datetime::RyDateTime;
use ryo3_jiff::difference::{RyDateDifference, RyDateTimeDifference, RyTimeDifference};
use ryo3_jiff::isoweek::{parse_iso_week_date, IsoWeekDateError, RyISOWeekDate};
use ryo3_jiff::offset::RyOffset;
use ryo3_jiff::signed_duration::RySignedDuration;
use ryo3_jiff::round::{RoundKind, RoundOptions, RyDateTimeRound, RySignedDurationRound, RyTimeRound, RyTimestampRound, RyZonedDateTimeRound};
use ryo3_jiff::time::RyTime;
use ryo3_jiff::timezone::{classify_tz_name, RyTimeZone, TzNameKind};
use ryo3_jiff::units::{JiffRoundMode, JiffUnit, JiffWeekday};

#[test]
fn week_date_text_roundtrip() {
    let w = parse_iso_week_date("2024-W03-1").unwrap();
    assert_eq!(w.year(), 2024);
    assert_eq!(w.week(), 3);
    assert_eq!(w.weekday(), JiffWeekday::Monday);
    assert_eq!(w.to_string(), "2024-W03-1");
    assert_eq!(w.repr(), "ISOWeekDate(2024, 3, 'monday')");
    assert_eq!(RyISOWeekDate::py_new(-5, 2, JiffWeekday::Sunday).unwrap().to_string(), "-005-W02-7");
}

#[test]
fn week_date_text_errors() {
    assert_eq!(parse_iso_week_date("2024-03-1"), Err(IsoWeekDateError::BadFormat));
    assert_eq!(parse_iso_week_date("2024W03-1x"), Err(IsoWeekDateError::BadFormat));
    assert_eq!(parse_iso_week_date("20x4-W03-1"), Err(IsoWeekDateError::BadNumber));
    assert_eq!(parse_iso_week_date("2024-W03-8"), Err(IsoWeekDateError::BadWeekday));
    assert_eq!(parse_iso_week_date("2024-W03-0"), Err(IsoWeekDateError::BadWeekday));
    assert_eq!(parse_iso_week_date("2024-W54-1"), Err(IsoWeekDateError::OutOfRange));
    assert_eq!(parse_iso_week_date("1949-W53-1"), Err(IsoWeekDateError::OutOfRange));
    assert!(parse_iso_week_date("2020-W53-1").is_ok());
    assert!(parse_iso_week_date("+024-W03-1").is_ok());
}

#[test]
fn week_dates_and_civil_dates() {
    let d = RyDate::py_new(2024, 1, 1).unwrap();
    let w = RyISOWeekDate::from_date(&d);
    assert_eq!((w.year(), w.week(), w.weekday()), (2024, 1, JiffWeekday::Monday));
    assert_eq!(w.date(), d);
    let e = RyDate::py_new(2021, 1, 3).unwrap();
    let we = RyISOWeekDate::from_date(&e);
    assert_eq!((we.year(), we.week(), we.weekday()), (2020, 53, JiffWeekday::Sunday));
    assert_eq!(we.date(), e);
    assert_eq!(RyISOWeekDate::from_str("2024-01-01").unwrap(), w);
    assert_eq!(RyISOWeekDate::from_str("2024-W01-1").unwrap(), w);
    assert_eq!(RyISOWeekDate::MAX().date(), RyDate::MAX());
    assert_eq!(RyISOWeekDate::MIN().date(), RyDate::MIN());
    assert!(w.rich_compare(&we, CompareOp::Gt));
}

#[test]
fn rounding_configurations() {
    let r = RyDateTimeRound::py_new(None, None, 1);
    assert_eq!(r.repr(), "DateTimeRound(smallest=\"nanosecond\", mode=\"half-expand\", increment=1)");
    let t = RyTimeRound::py_new(Some(JiffUnit::Minute), Some(JiffRoundMode::Trunc), 15);
    assert_eq!(t.repr(), "TimeRound(smallest=\"minute\", mode=\"trunc\", increment=15)");
    let t2 = t.replace(None, None, Some(5));
    assert_eq!(t2.options.increment, 5);
    assert_eq!(t2.options.smallest, JiffUnit::Minute);
    assert_eq!(t.replace(None, None, None), t);
    assert!(RySignedDurationRound::py_new(None, None, 1).repr().starts_with("SignedDurationRound("));
    assert!(RyTimestampRound::py_new(None, None, 1).repr().starts_with("TimestampRound("));
    assert!(RyZonedDateTimeRound::py_new(None, None, 1).repr().starts_with("ZonedDateTimeRound("));
    let o = RoundOptions::new(None, None, 2);
    assert!(o.eq_options(&RoundOptions::new(Some(JiffUnit::Nanosecond), Some(JiffRoundMode::HalfExpand), 2)));
    assert_eq!(o.repr(RoundKind::Time), "TimeRound(smallest=\"nanosecond\", mode=\"half-expand\", increment=2)");
}

#[test]
fn difference_configurations() {
    let d = RyDate::py_new(2024, 1, 1).unwrap();
    let dd = RyDateDifference::py_new(d, None, None, None, None);
    assert_eq!(
        dd.repr(),
        "DateDifference(Date(year=2024, month=1, day=1), smallest=\"day\", largest=None, mode=\"trunc\", increment=1)"
    );
    let dd2 = dd.with_largest(JiffUnit::Year).with_increment(2);
    assert_eq!(
        dd2.repr(),
        "DateDifference(Date(year=2024, month=1, day=1), smallest=\"day\", largest=\"year\", mode=\"trunc\", increment=2)"
    );
    let t = RyTime::py_new(Some(1), None, None, None).unwrap();
    let td = RyTimeDifference::py_new(t, None, None, Some(JiffRoundMode::Ceil), None);
    assert_eq!(
        td.repr(),
        "TimeDifference(Time(hour=1, minute=0, second=0, nanosecond=0), smallest=\"nanosecond\", largest=None, mode=\"ceil\", increment=1)"
    );
    let dt = RyDateTime::py_new(2024, 1, 1, None, None, None, None).unwrap();
    let dtd = RyDateTimeDifference::py_new(dt, None, None, None, None).with_smallest(JiffUnit::Second).with_mode(JiffRoundMode::Floor);
    assert_eq!(dtd.options.smallest, JiffUnit::Second);
    assert_eq!(dtd.options.mode, JiffRoundMode::Floor);
}

#[test]
fn time_zone_names() {
    assert_eq!(classify_tz_name(""), TzNameKind::Unknown);
    assert_eq!(classify_tz_name("UnKnown"), TzNameKind::Unknown);
    assert_eq!(classify_tz_name("UTC"), TzNameKind::Utc);
    assert_eq!(classify_tz_name("utc"), TzNameKind::Utc);
    assert_eq!(classify_tz_name("America/New_York"), TzNameKind::Lookup);
    assert_eq!(RyTimeZone::py_new("utc"), Ok(RyTimeZone::Utc));
    assert_eq!(RyTimeZone::py_new(""), Ok(RyTimeZone::Unknown));
    assert!(RyTimeZone::py_new("Not/AZone").is_err());
    assert_eq!(RyTimeZone::Utc.repr(), "TimeZone(\"UTC\")");
    assert_eq!(RyTimeZone::Unknown.repr(), "TimeZone(\"unknown\")");
    assert!(RyTimeZone::Unknown.is_unknown());
    assert_eq!(RyTimeZone::Unknown.iana_name(), None);
    assert_eq!(RyTimeZone::Utc.iana_name(), Some("UTC".to_string()));
    let o = RyOffset::from_hours(5).unwrap();
    let f = RyTimeZone::fixed(&o);
    assert_eq!(f, RyTimeZone::Fixed(o));
    assert_eq!(f.repr(), "TimeZone('+05')");
    assert_eq!(RyTimeZone::fixed(&RyOffset::utc()), RyTimeZone::Utc);
}

#[test]
fn week_text_slicing_condition() {
    assert!(ryo3_jiff::isoweek::week_text_sliceable("2024-W03-1"));
    assert!(ryo3_jiff::isoweek::week_text_sliceable("short"));
    assert!(!ryo3_jiff::isoweek::week_text_sliceable("202\u{e9}W03-1"));
    assert!(!ryo3_jiff::isoweek::week_text_sliceable("2024-W0\u{e9}1"));
}

#[test]
fn signed_duration_rounding_with_jiff() {
    let d = RySignedDuration::py_new(90, 0).unwrap();
    let r = RySignedDurationRound::py_new(Some(JiffUnit::Minute), None, 1).round(&d).unwrap();
    assert_eq!(r.secs(), 120);
    let t = RySignedDurationRound::py_new(Some(JiffUnit::Minute), Some(JiffRoundMode::Trunc), 1).round(&d).unwrap();
    assert_eq!(t.secs(), 60);
    assert!(RySignedDurationRound::py_new(Some(JiffUnit::Year), None, 1).round(&d).is_none());
}

#[test]
fn week_dates_across_year_ends() {
    let d = RyDate::py_new(2024, 12, 30).unwrap();
    let w = RyISOWeekDate::from_date(&d);
    assert_eq!((w.year(), w.week(), w.weekday()), (2025, 1, JiffWeekday::Monday));
    assert_eq!(RyISOWeekDate::py_new(9999, 52, JiffWeekday::Saturday), Err(IsoWeekDateError::OutOfRange));
    assert!(RyISOWeekDate::py_new(9999, 52, JiffWeekday::Friday).is_ok());
    assert_eq!(RyISOWeekDate::py_new(2021, 53, JiffWeekday::Monday), Err(IsoWeekDateError::OutOfRange));
    assert!(RyISOWeekDate::py_new(2015, 53, JiffWeekday::Sunday).is_ok());
    // Every day of a few years converts to its week date and back.
    let mut day = RyDate::py_new(2019, 12, 1).unwrap();
    let last = RyDate::py_new(2021, 2, 1).unwrap();
    while day.rich_compare(&last, CompareOp::Lt) {
        let wd = RyISOWeekDate::from_date(&day);
        assert_eq!(wd.date(), day);
        assert_eq!(wd.weekday(), day.weekday_enum());
        day = day.tomorrow().unwrap();
    }
}

#[test]
fn printed_week_dates_read_back() {
    for (y, w, d) in [(2024, 1, JiffWeekday::Monday), (15, 10, JiffWeekday::Friday), (2015, 53, JiffWeekday::Thursday), (9999, 10, JiffWeekday::Wednesday)] {
        let wd = RyISOWeekDate::py_new(y, w, d).unwrap();
        assert_eq!(parse_iso_week_date(&wd.to_string()), Ok(wd));
    }
}
