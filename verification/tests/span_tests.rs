use ryo3_jiff::datetime::RyDateTime;
use ryo3_jiff::signed_duration::RySignedDuration;
use ryo3_jiff::timezone::RyTimeZone;
use ryo3_jiff::zoned::RyZoned;
use ryo3_jiff::date::RyDate;
use ryo3_jiff::span::{check_relative_options, RySpan, SpanError};
use ryo3_jiff::span_arith::SpanRelativeTo;
use ryo3_jiff::units::{JiffRoundMode, JiffUnit};

fn span(years: i64, days: i64, hours: i64, minutes: i64) -> RySpan {
    RySpan::py_new(years, 0, 0, days, hours, minutes, 0, 0, 0, 0).unwrap()
}

#[test]
fn constructor_sets_values_in_unit_order() {
    let s = RySpan::py_new(1, 2, 3, 4, 5, 6, 7, 8, 9, 10).unwrap();
    assert_eq!(s.fields(), [1, 2, 3, 4, 5, 6, 7, 8, 9, 10]);
    assert_eq!(s.get(JiffUnit::Day), 4);
    assert_eq!(s.signum(), 1);
}

#[test]
fn one_negative_value_makes_the_whole_span_negative() {
    let s = RySpan::py_new(1, 0, 0, -2, 3, 0, 0, 0, 0, 0).unwrap();
    assert_eq!(s.fields(), [-1, 0, 0, -2, -3, 0, 0, 0, 0, 0]);
    assert!(s.is_negative());
    assert!(!s.is_positive());
}

#[test]
fn constructor_refuses_the_first_value_out_of_range() {
    assert_eq!(RySpan::py_new(19_999, 0, 0, 0, 0, 0, 0, 0, 0, 0), Err(SpanError::OutOfRange(JiffUnit::Year)));
    assert_eq!(RySpan::py_new(0, 0, 0, 0, 0, 0, 0, 0, 0, i64::MIN), Err(SpanError::OutOfRange(JiffUnit::Nanosecond)));
    assert_eq!(RySpan::py_new(0, 239_977, 0, 0, 175_307_617, 0, 0, 0, 0, 0), Err(SpanError::OutOfRange(JiffUnit::Month)));
    assert!(RySpan::py_new(19_998, 0, 0, 0, 0, 0, 0, 0, 0, i64::MAX).is_ok());
}

#[test]
fn setters_resign_the_span() {
    let s = span(1, 2, 0, 0);
    let n = s.try_set(JiffUnit::Hour, -3).unwrap();
    assert_eq!(n.fields(), [-1, 0, 0, -2, -3, 0, 0, 0, 0, 0]);
    let p = n.try_set(JiffUnit::Hour, 4).unwrap();
    assert_eq!(p.fields(), [-1, 0, 0, -2, -4, 0, 0, 0, 0, 0]);
    let z = RySpan::new().try_set(JiffUnit::Minute, 5).unwrap();
    assert_eq!(z.signum(), 1);
    assert!(z.try_set(JiffUnit::Minute, 0).unwrap().is_zero());
    assert_eq!(s.try_set(JiffUnit::Week, 1_043_498), Err(SpanError::OutOfRange(JiffUnit::Week)));
}

#[test]
fn negate_abs_and_signum() {
    let s = span(1, 2, 3, 0);
    let n = s.negate();
    assert_eq!(n.fields(), [-1, 0, 0, -2, -3, 0, 0, 0, 0, 0]);
    assert!(n.negate().eq_fields(&s));
    assert!(n.abs().eq_fields(&s));
    assert_eq!(n.signum(), -1);
    assert_eq!(RySpan::new().signum(), 0);
    assert!(RySpan::new().is_zero());
}

#[test]
fn multiplication() {
    let s = span(0, 2, 3, 0);
    assert_eq!(s.mul(3).unwrap().fields(), [0, 0, 0, 6, 9, 0, 0, 0, 0, 0]);
    assert_eq!(s.mul(-1).unwrap().fields(), s.negate().fields());
    assert!(s.mul(0).unwrap().is_zero());
    assert!(s.mul(1).unwrap().eq_fields(&s));
    assert_eq!(s.mul(i64::MIN), Err(SpanError::Overflow));
    assert_eq!(RySpan::new().mul(i64::MIN), Err(SpanError::Overflow));
    assert_eq!(span(10_000, 0, 0, 0).mul(2), Err(SpanError::Overflow));
}

#[test]
fn reprs() {
    assert_eq!(span(1, 2, 0, 0).repr(), "TimeSpan(years=1, days=2)");
    assert_eq!(RySpan::new().repr(), "TimeSpan()");
    assert_eq!(span(0, 0, 0, -5).repr(), "TimeSpan(minutes=-5)");
    assert_eq!(
        span(1, 0, 0, 0).repr_full(),
        "TimeSpan(years=1, months=0, weeks=0, days=0, hours=0, minutes=0, seconds=0, milliseconds=0, microseconds=0, nanoseconds=0)"
    );
}

#[test]
fn jiff_texts_and_parsing() {
    let s = span(1, 2, 3, 0);
    assert_eq!(s.to_string(false), "P1Y2DT3H");
    assert_eq!(s.to_string(true), "1y 2d 3h");
    let p = RySpan::from_str("P1Y2DT3H").unwrap();
    assert!(p.eq_fields(&s));
    assert!(RySpan::from_str("not a span").is_none());
}

#[test]
fn replace_rebuilds_from_all_values() {
    let s = span(1, 2, 0, 0);
    let same = s.replace(None, None, None, None, None, None, None, None, None, None).unwrap();
    assert!(same.eq_fields(&s));
    let r = s.replace(None, None, None, Some(-4), None, None, None, None, None, None).unwrap();
    assert_eq!(r.fields(), [-1, 0, 0, -4, 0, 0, 0, 0, 0, 0]);
    assert_eq!(
        s.replace(Some(20_000), None, None, None, None, None, None, None, None, None),
        Err(SpanError::OutOfRange(JiffUnit::Year))
    );
}

#[test]
fn compare_without_relative_date() {
    let a = span(0, 0, 2, 0);
    let b = span(0, 0, 1, 90);
    assert_eq!(a.compare(&b, false), Ok(-1));
    assert_eq!(b.compare(&a, false), Ok(1));
    assert_eq!(a.compare(&a, false), Ok(0));
    assert_eq!(span(0, 1, 0, 0).compare(&a, false), Err(SpanError::NeedsRelative));
    assert_eq!(span(0, 1, 0, 0).compare(&span(0, 0, 24, 0), true), Ok(0));
    assert_eq!(span(1, 0, 0, 0).compare(&a, true), Err(SpanError::NeedsRelative));
}

#[test]
fn relative_options_conflict() {
    assert_eq!(check_relative_options(true, true), Err(SpanError::RelativeWithDays24));
    assert_eq!(check_relative_options(true, false), Ok(()));
    assert_eq!(check_relative_options(false, true), Ok(()));
    let d = RyDate::py_new(2024, 1, 1).unwrap();
    let a = span(0, 0, 2, 0);
    assert_eq!(a.compare_with(&a, Some(SpanRelativeTo::Date(d)), true), Err(SpanError::RelativeWithDays24));
}

#[test]
fn arithmetic_with_jiff() {
    let a = span(0, 0, 1, 0);
    let b = span(0, 0, 0, 30);
    let sum = a.checked_add(&b, SpanRelativeTo::DaysAre24Hours).unwrap();
    assert_eq!(sum.fields(), [0, 0, 0, 0, 1, 30, 0, 0, 0, 0]);
    let diff = a.checked_sub(&b, SpanRelativeTo::DaysAre24Hours).unwrap();
    assert_eq!(diff.fields(), [0, 0, 0, 0, 0, 30, 0, 0, 0, 0]);
    let d = RyDate::py_new(2024, 1, 31).unwrap();
    let m = RySpan::py_new(0, 1, 0, 0, 0, 0, 0, 0, 0, 0).unwrap();
    let jan1 = RyDate::py_new(2024, 1, 1).unwrap();
    let two_months = m.checked_add(&m, SpanRelativeTo::Date(jan1)).unwrap();
    assert_eq!(two_months.fields(), [0, 2, 0, 0, 0, 0, 0, 0, 0, 0]);
    let clamped = m.checked_add(&m, SpanRelativeTo::Date(d)).unwrap();
    assert_eq!(clamped.fields(), [0, 1, 0, 29, 0, 0, 0, 0, 0, 0]);
    let c = m.compare_with(&span(0, 30, 0, 0), Some(SpanRelativeTo::Date(d)), false).unwrap();
    assert_eq!(c, -1);
    let dur = span(0, 1, 0, 0).to_signed_duration(SpanRelativeTo::DaysAre24Hours).unwrap();
    assert_eq!(dur.secs(), 86_400);
    assert!(span(1, 0, 0, 0).to_signed_duration(SpanRelativeTo::DaysAre24Hours).is_err());
}

#[test]
fn span_limits_name_the_unit() {
    assert_eq!(span(19_998, 0, 0, 0).fields()[0], 19_998);
    assert_eq!(RySpan::py_new(19_999, 0, 0, 0, 0, 0, 0, 0, 0, 0).err(), Some(SpanError::OutOfRange(JiffUnit::Year)));
    assert_eq!(span(0, 7_304_484, 0, 0).fields()[3], 7_304_484);
    assert_eq!(RySpan::py_new(0, 0, 0, 7_304_485, 0, 0, 0, 0, 0, 0).err(), Some(SpanError::OutOfRange(JiffUnit::Day)));
}

#[test]
fn span_arithmetic_with_durations_and_zoned_datetimes() {
    let half_hour = RySignedDuration::from_secs(1800);
    let one_hour = span(0, 0, 1, 0);
    let sum = one_hour.checked_add_duration(&half_hour, SpanRelativeTo::DaysAre24Hours).unwrap();
    assert_eq!(sum.to_string(false), "PT1H30M");
    let diff = one_hour.checked_sub_duration(&half_hour, SpanRelativeTo::DaysAre24Hours).unwrap();
    assert_eq!(diff.to_string(false), "PT30M");
    let day = span(0, 1, 0, 0);
    let date = RyDate::py_new(2024, 3, 9).unwrap();
    let d = day.checked_add_duration(&RySignedDuration::from_secs(3600), SpanRelativeTo::Date(date)).unwrap();
    assert_eq!(d.to_string(false), "P1DT1H");

    let dt = RyDateTime::py_new(2024, 3, 9, Some(12), None, None, None).unwrap();
    let z = RyZoned::from_civil(&dt, &RyTimeZone::Utc).unwrap();
    let zs = day.checked_add_zoned(&span(0, 0, 1, 0), &z).unwrap();
    assert_eq!(zs.to_string(false), "P1DT1H");
    let zd = day.checked_sub_duration_zoned(&RySignedDuration::from_secs(3600), &z).unwrap();
    assert_eq!(zd.to_string(false), "PT23H");
    let zsub = day.checked_sub_zoned(&span(0, 1, 0, 0), &z).unwrap();
    assert_eq!(zsub.to_string(false), "PT0S");
    assert!(span(19_998, 0, 0, 0).checked_add_duration_zoned(&RySignedDuration::from_secs(3600), &z).is_err());
}

#[test]
fn span_rounding() {
    let s = span(0, 0, 1, 31);
    let r = s.round(JiffUnit::Hour, 1, None, None, JiffRoundMode::HalfExpand, false).unwrap();
    assert_eq!(r.to_string(false), "PT2H");
    let t = s.round(JiffUnit::Minute, 15, None, None, JiffRoundMode::Trunc, false).unwrap();
    assert_eq!(t.to_string(false), "PT1H30M");
    let day = span(0, 1, 0, 0);
    let date = RyDate::py_new(2024, 3, 9).unwrap();
    assert_eq!(day.round(JiffUnit::Hour, 1, Some(SpanRelativeTo::Date(date)), None, JiffRoundMode::HalfExpand, true),
        Err(SpanError::RelativeWithDays24));
    let h = day.round(JiffUnit::Hour, 1, None, Some(JiffUnit::Hour), JiffRoundMode::HalfExpand, true).unwrap();
    assert_eq!(h.to_string(false), "PT24H");
    assert!(day.round(JiffUnit::Hour, 1, None, Some(JiffUnit::Hour), JiffRoundMode::HalfExpand, false).is_err());
    let m = span(0, 40, 0, 0).round(JiffUnit::Month, 1, Some(SpanRelativeTo::Date(date)), None, JiffRoundMode::Trunc, false).unwrap();
    assert_eq!(m.to_string(false), "P1M");
}

#[test]
fn span_measured_from_zoned_datetimes() {
    let dt = RyDateTime::py_new(2024, 3, 9, Some(12), None, None, None).unwrap();
    let z = RyZoned::from_civil(&dt, &RyTimeZone::Utc).unwrap();
    let day = span(0, 1, 0, 0);
    assert_eq!(day.to_signed_duration_zoned(&z).unwrap().as_nanos(), 86_400_000_000_000);
    assert_eq!(day.compare_zoned(&span(0, 0, 24, 0), &z, false), Ok(0));
    assert_eq!(day.compare_zoned(&span(0, 0, 25, 0), &z, false), Ok(-1));
    assert_eq!(day.compare_zoned(&span(0, 0, 25, 0), &z, true), Err(SpanError::RelativeWithDays24));
    let r = span(0, 0, 36, 0).round_zoned(JiffUnit::Day, 1, &z, Some(JiffUnit::Day), JiffRoundMode::Trunc, false).unwrap();
    assert_eq!(r.to_string(false), "P1D");
}
