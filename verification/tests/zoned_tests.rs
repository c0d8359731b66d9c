use ryo3_jiff::difference::RyZonedDifference;
use ryo3_jiff::units::{JiffRoundMode, JiffUnit};
use ryo3_jiff::compare::CompareOp;
use ryo3_jiff::datetime::RyDateTime;
use ryo3_jiff::signed_duration::RySignedDuration;
use ryo3_jiff::span::RySpan;
use ryo3_jiff::units::JiffTzOffsetConflict;
use ryo3_jiff::offset::RyOffset;
use ryo3_jiff::timestamp::RyTimestamp;
use ryo3_jiff::timezone::RyTimeZone;
use ryo3_jiff::zoned::{python_fold, RyZoned, ZonedError};

#[test]
fn zoned_in_utc_and_fixed_zones() {
    let ts = RyTimestamp::from_second(1_700_000_000).unwrap();
    let z = RyZoned::from_parts(&ts, &RyTimeZone::Utc).unwrap();
    assert_eq!(z.datetime().to_string(), "2023-11-14T22:13:20");
    assert_eq!(z.offset().seconds(), 0);
    assert_eq!(z.isoformat(), "2023-11-14T22:13:20+00:00");
    assert_eq!(
        z.repr(),
        "ZonedDateTime(year=2023, month=11, day=14, hour=22, minute=13, second=20, nanosecond=0, tz=\"UTC\")"
    );
    let five = RyOffset::from_hours(5).unwrap();
    let f = z.with_time_zone(&RyTimeZone::fixed(&five)).unwrap();
    assert_eq!(f.datetime().to_string(), "2023-11-15T03:13:20");
    assert_eq!(f.isoformat(), "2023-11-15T03:13:20+05:00");
    assert!(f.repr().starts_with("ZonedDateTime.parse(\"2023-11-15T03:13:20+05:00"));
    assert!(f.rich_compare(&z, CompareOp::Eq));
    assert_eq!(f.in_utc().datetime(), z.datetime());
    let u = RyZoned::from_parts(&ts, &RyTimeZone::Unknown).unwrap();
    assert!(u.repr().starts_with("ZonedDateTime.parse(\"2023-11-14T22:13:20"));
}

#[test]
fn zoned_in_a_database_zone() {
    let z = RyZoned::py_new(2024, 3, 15, 10, 30, 0, 0, "America/New_York").unwrap();
    assert_eq!(z.offset().seconds(), -14_400);
    assert_eq!(z.datetime().to_string(), "2024-03-15T10:30:00");
    assert_eq!(z.isoformat(), "2024-03-15T10:30:00-04:00");
    assert_eq!(
        z.repr(),
        "ZonedDateTime(year=2024, month=3, day=15, hour=10, minute=30, second=0, nanosecond=0, tz=\"America/New_York\")"
    );
    assert_eq!(z.timestamp().as_second(), 1_710_513_000);
    assert!(RyZoned::py_new(2024, 3, 15, 10, 30, 0, 0, "Not/AZone").is_err());
    assert_eq!(RyZoned::py_new(2023, 2, 29, 0, 0, 0, 0, "UTC").err(), Some(ZonedError::BadDate));
}

#[test]
fn fold_flag_decision() {
    let t = RyTimestamp::from_second(100).unwrap();
    let prev = RyTimestamp::from_second(50).unwrap();
    let next = RyTimestamp::from_second(200).unwrap();
    let zero = RyOffset::utc();
    let hour = RyOffset::from_hours(1).unwrap();
    assert!(python_fold(&t, &zero, &prev, &hour, &next));
    assert!(!python_fold(&t, &hour, &prev, &zero, &next));
    assert!(python_fold(&t, &zero, &prev, &zero, &t));
}

fn fixed_zone(hours: i8) -> RyTimeZone {
    RyTimeZone::fixed(&RyOffset::from_hours(hours).unwrap())
}

#[test]
fn zoned_from_civil_datetimes() {
    let dt = RyDateTime::py_new(2024, 3, 15, Some(10), Some(30), None, None).unwrap();
    let z = RyZoned::from_civil(&dt, &fixed_zone(5)).unwrap();
    assert_eq!(z.datetime(), dt);
    assert_eq!(z.timestamp().as_second(), 1_710_480_600);
    let u = RyZoned::from_civil(&dt, &RyTimeZone::Utc).unwrap();
    assert_eq!(u.timestamp().as_second(), 1_710_498_600);
    // The earliest civil datetime shown east of UTC is before the earliest instant.
    assert_eq!(RyZoned::from_civil(&RyDateTime::MIN(), &fixed_zone(5)).err(), Some(ZonedError::OutOfRange));
    let ny = RyZoned::from_civil(&dt, &RyTimeZone::py_new("America/New_York").unwrap()).unwrap();
    assert_eq!(ny.offset().seconds(), -14_400);
    assert_eq!(ny.datetime(), dt);
    // 02:30 on 2024-03-10 does not exist in New York: the later offset is used.
    let gap = RyDateTime::py_new(2024, 3, 10, Some(2), Some(30), None, None).unwrap();
    let g = RyZoned::from_civil(&gap, &RyTimeZone::py_new("America/New_York").unwrap()).unwrap();
    assert_eq!(g.datetime().to_string(), "2024-03-10T03:30:00");
}

#[test]
fn zoned_arithmetic() {
    let dt = RyDateTime::py_new(2024, 1, 31, Some(10), None, None, None).unwrap();
    let z = RyZoned::from_civil(&dt, &fixed_zone(-3)).unwrap();
    let month = RySpan::py_new(0, 1, 0, 0, 0, 0, 0, 0, 0, 0).unwrap();
    let m = z.checked_add_span(&month).unwrap();
    assert_eq!(m.datetime().to_string(), "2024-02-29T10:00:00");
    let mixed = RySpan::py_new(0, 0, 0, 1, 2, 0, 0, 0, 0, 0).unwrap();
    assert_eq!(z.checked_add_span(&mixed).unwrap().datetime().to_string(), "2024-02-01T12:00:00");
    assert_eq!(z.checked_sub_span(&mixed).unwrap().datetime().to_string(), "2024-01-30T08:00:00");
    let hour = RySignedDuration::from_hours(1).unwrap();
    assert_eq!(z.checked_add_duration(&hour).unwrap().datetime().to_string(), "2024-01-31T11:00:00");
    assert_eq!(z.checked_sub_duration(&hour).unwrap().datetime().to_string(), "2024-01-31T09:00:00");
    assert_eq!(z.duration_until(&m).as_hours(), 29 * 24);
    assert_eq!(m.duration_since(&z).as_hours(), 29 * 24);
    let big = RySpan::py_new(9000, 0, 0, 0, 0, 0, 0, 0, 0, 0).unwrap();
    assert_eq!(z.checked_add_span(&big).err(), Some(ZonedError::OutOfRange));
    let sat = z.saturating_add_span(&big).unwrap();
    assert_eq!(sat.timestamp(), RyTimestamp::MAX());
    let neg = z.saturating_sub_duration(&RySignedDuration::MAX()).unwrap();
    assert_eq!(neg.timestamp(), RyTimestamp::MIN());
    // Across the New York change to daylight saving time, a day is 23 hours.
    let ny = RyZoned::py_new(2024, 3, 9, 12, 0, 0, 0, "America/New_York").unwrap();
    let day = RySpan::py_new(0, 0, 0, 1, 0, 0, 0, 0, 0, 0).unwrap();
    let next = ny.checked_add_span(&day).unwrap();
    assert_eq!(next.datetime().to_string(), "2024-03-10T12:00:00");
    assert_eq!(next.duration_since(&ny).as_hours(), 23);
}

#[test]
fn zoned_day_boundaries_and_replace() {
    let dt = RyDateTime::py_new(2024, 2, 15, Some(10), Some(30), None, None).unwrap();
    let z = RyZoned::from_civil(&dt, &fixed_zone(2)).unwrap();
    assert_eq!(z.start_of_day().unwrap().datetime().to_string(), "2024-02-15T00:00:00");
    assert_eq!(z.end_of_day().unwrap().datetime().to_string(), "2024-02-15T23:59:59.999999999");
    assert_eq!(z.tomorrow().unwrap().datetime().to_string(), "2024-02-16T10:30:00");
    assert_eq!(z.yesterday().unwrap().datetime().to_string(), "2024-02-14T10:30:00");
    assert_eq!(z.first_of_month().unwrap().datetime().to_string(), "2024-02-01T10:30:00");
    assert_eq!(z.last_of_month().unwrap().datetime().to_string(), "2024-02-29T10:30:00");
    assert_eq!(z.first_of_year().unwrap().datetime().to_string(), "2024-01-01T10:30:00");
    assert_eq!(z.last_of_year().unwrap().datetime().to_string(), "2024-12-31T10:30:00");
    let r = z
        .replace(None, None, None, None, None, Some(20), None, None, Some(8), None, None, None, None, None, None, None, None, None)
        .unwrap();
    assert_eq!(r.datetime().to_string(), "2024-02-20T08:30:00");
    assert_eq!(r.offset().seconds(), 7200);
    // An explicit offset that the fixed zone cannot have is ignored by
    // default, refused on request, and used as given when asked.
    let other = Some(RyOffset::from_hours(3).unwrap());
    let kept = z.replace(None, None, None, None, None, None, None, None, None, None, None, None, None, None, None, other, None, None).unwrap();
    assert_eq!(kept.datetime(), dt);
    let refused = z.replace(None, None, None, None, None, None, None, None, None, None, None, None, None, None, None, other, Some(JiffTzOffsetConflict::Reject), None);
    assert_eq!(refused.err(), Some(ZonedError::OutOfRange));
    let used = z.replace(None, None, None, None, None, None, None, None, None, None, None, None, None, None, None, other, Some(JiffTzOffsetConflict::AlwaysOffset), None).unwrap();
    assert_eq!(used.datetime().to_string(), "2024-02-15T09:30:00");
    assert_eq!(
        z.replace(None, None, None, None, Some(30), None, None, None, None, None, None, None, None, None, None, None, None, None).err(),
        Some(ZonedError::BadDate)
    );
    let ny = RyZoned::py_new(2024, 3, 9, 12, 0, 0, 0, "America/New_York").unwrap();
    let moved = ny
        .replace(None, None, None, None, None, Some(10), None, None, Some(2), None, None, None, None, None, None, None, None, None)
        .unwrap();
    assert_eq!(moved.datetime().to_string(), "2024-03-10T03:00:00");
}

#[test]
fn zoned_nth_weekdays() {
    let dt = RyDateTime::py_new(2024, 7, 15, Some(9), Some(0), Some(0), None).unwrap();
    let z = RyZoned::from_civil(&dt, &RyTimeZone::Utc).unwrap();
    let last_friday = z.nth_weekday_of_month(-1, ryo3_jiff::units::JiffWeekday::Friday).unwrap();
    assert_eq!(last_friday.datetime().to_string(), "2024-07-26T09:00:00");
    let prev_sunday = z.nth_weekday(-1, ryo3_jiff::units::JiffWeekday::Sunday).unwrap();
    assert_eq!(prev_sunday.datetime().to_string(), "2024-07-14T09:00:00");
    assert_eq!(z.nth_weekday(0, ryo3_jiff::units::JiffWeekday::Sunday).err(), Some(ZonedError::BadDate));
}

fn utc_at(y: i16, mo: i8, d: i8, h: i8, mi: i8, s: i8) -> RyZoned {
    let dt = RyDateTime::py_new(y, mo, d, Some(h), Some(mi), Some(s), None).unwrap();
    RyZoned::from_civil(&dt, &RyTimeZone::Utc).unwrap()
}

#[test]
fn zoned_rounding_in_offset_zones() {
    let z = utc_at(2024, 7, 15, 9, 31, 45);
    let r = z.round(Some(ryo3_jiff::units::JiffUnit::Hour), None, None).unwrap();
    assert_eq!(r.datetime().to_string(), "2024-07-15T10:00:00");
    assert_eq!(r.time_zone(), RyTimeZone::Utc);
    let down = z.round(Some(ryo3_jiff::units::JiffUnit::Hour), Some(ryo3_jiff::units::JiffRoundMode::Trunc), None).unwrap();
    assert_eq!(down.datetime().to_string(), "2024-07-15T09:00:00");
    let five = RyTimeZone::fixed(&RyOffset::from_hours(5).unwrap());
    let f = RyZoned::from_civil(&z.datetime(), &five).unwrap();
    let fr = f.round(Some(ryo3_jiff::units::JiffUnit::Minute), None, Some(15)).unwrap();
    assert_eq!(fr.datetime().to_string(), "2024-07-15T09:30:00");
    assert_eq!(fr.offset().seconds(), 18_000);
    assert!(z.round(Some(ryo3_jiff::units::JiffUnit::Minute), None, Some(7)).is_none());
}

#[test]
fn zoned_since_and_until() {
    let a = utc_at(2024, 7, 15, 9, 0, 0);
    let b = utc_at(2024, 7, 14, 6, 30, 0);
    assert_eq!(a.since(&b, None, None, None, None).unwrap().to_string(false), "PT26H30M");
    assert_eq!(b.until(&a, None, None, None, None).unwrap().to_string(false), "PT26H30M");
    assert_eq!(a.since(&b, None, Some(JiffUnit::Day), None, None).unwrap().to_string(false), "P1DT2H30M");
    let five = RyTimeZone::fixed(&RyOffset::from_hours(5).unwrap());
    let f = b.with_time_zone(&five).unwrap();
    assert!(a.since(&f, None, Some(JiffUnit::Day), None, None).is_err());
    assert_eq!(a.since(&f, None, None, None, None).unwrap().to_string(false), "PT26H30M");

    let d = RyZonedDifference::py_new(b.duplicate(), JiffUnit::Nanosecond, None, JiffRoundMode::Trunc, 1);
    assert_eq!(a.since_difference(&d).unwrap().to_string(false), "PT26H30M");
    let d2 = d.with_largest(JiffUnit::Day).with_smallest(JiffUnit::Hour);
    assert_eq!(a.since_difference(&d2).unwrap().to_string(false), "P1DT2H");
    assert!(d.eq_difference(&RyZonedDifference::py_new(f.duplicate(), JiffUnit::Nanosecond, None, JiffRoundMode::Trunc, 1)));
    assert!(!d.eq_difference(&d2));
    assert_eq!(
        d.repr(),
        "ZonedDateTimeDifference(ZonedDateTime(year=2024, month=7, day=14, hour=6, minute=30, second=0, nanosecond=0, tz=\"UTC\"), smallest=\"nanosecond\", largest=None, mode=\"trunc\", increment=1)"
    );
}

#[test]
fn zoned_text_round_trips() {
    let z = utc_at(2023, 11, 14, 22, 13, 20);
    assert_eq!(z.to_string(), Some("2023-11-14T22:13:20+00:00[UTC]".to_string()));
    let five = RyTimeZone::fixed(&RyOffset::from_hours(5).unwrap());
    let f = z.with_time_zone(&five).unwrap();
    assert_eq!(f.to_string(), Some("2023-11-15T03:13:20+05:00[+05:00]".to_string()));
    let u = z.with_time_zone(&RyTimeZone::Unknown).unwrap();
    assert_eq!(u.to_string(), Some("2023-11-14T22:13:20Z[Etc/Unknown]".to_string()));

    let back = RyZoned::from_str("2023-11-15T03:13:20+05:00[+05:00]").unwrap();
    assert!(back.rich_compare(&f, CompareOp::Eq));
    assert_eq!(back.time_zone(), five);
    let back_utc = RyZoned::from_str("2023-11-14T22:13:20+00:00[UTC]").unwrap();
    assert_eq!(back_utc.time_zone(), RyTimeZone::Utc);
    let back_unknown = RyZoned::from_str("2023-11-14T22:13:20Z[Etc/Unknown]").unwrap();
    assert_eq!(back_unknown.time_zone(), RyTimeZone::Unknown);
    assert!(RyZoned::from_str("not a datetime").is_none());

    assert_eq!(f.strftime("%Y-%m-%d %H:%M:%S %z"), Some("2023-11-15 03:13:20 +0500".to_string()));
    let p = RyZoned::strptime("2023-11-15 03:13:20 +0500", "%Y-%m-%d %H:%M:%S %z").unwrap();
    assert!(p.rich_compare(&f, CompareOp::Eq));
    assert_eq!(p.time_zone(), five);
    assert!(RyZoned::strptime("2023-11-15 03:13:20", "%Y-%m-%d %H:%M:%S").is_none());

    let rfc = RyZoned::from_rfc2822("Sat, 13 Jul 2024 15:09:59 -0400").unwrap();
    assert_eq!(rfc.offset().seconds(), -14_400);
    assert_eq!(rfc.datetime().to_string(), "2024-07-13T15:09:59");
    assert_eq!(rfc.to_rfc2822(), Some("Sat, 13 Jul 2024 15:09:59 -0400".to_string()));
    assert_eq!(z.to_rfc2822(), Some("Tue, 14 Nov 2023 22:13:20 +0000".to_string()));
    assert!(RyZoned::from_rfc2822("13 Jul 2024").is_none());
}

#[test]
fn zoned_from_instant_and_offset() {
    let z = RyZoned::at_instant_offset(1_700_000_000, 0, 18_000, RyTimeZone::fixed(&RyOffset::from_hours(5).unwrap())).unwrap();
    assert_eq!(z.datetime().to_string(), "2023-11-15T03:13:20");
    assert_eq!(RyZoned::at_instant_offset(1_700_000_000, 0, 3_600, RyTimeZone::Utc).err(), Some(ZonedError::NotFound));
    assert_eq!(RyZoned::at_instant_offset(1_700_000_000, 0, 0, RyTimeZone::Utc).unwrap().offset().seconds(), 0);
    assert_eq!(RyZoned::py_new(2023, 2, 30, 0, 0, 0, 0, "UTC").err(), Some(ZonedError::BadDate));
}
