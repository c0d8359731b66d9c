//! Spans between two civil dates, datetimes, times or instants: `since` and
//! `until` with a smallest and largest unit, a rounding mode and an
//! increment.
use vstd::prelude::*;
use crate::compare::ints;
use crate::date::{RyDate, date_ok, epoch_day};
use crate::datetime::{RyDateTime, parts_ok, parts_view};
use crate::difference::{
    DifferenceOptions, RyDateDifference, RyDateTimeDifference, RyTimeDifference,
    RyTimestampDifference, difference_defaults,
};
use crate::round::{to_jiff_unit, to_jiff_round_mode};
use crate::signed_duration::{tdiv, trem};
use crate::span::{RySpan, negated, span_ok};
use crate::span_arith::from_jiff_span;
use crate::time::{RyTime, time_ok};
use crate::timestamp::{RyTimestamp, ts_new_ok};
use crate::units::{JiffUnit, JiffRoundMode};
use crate::timezone::{RyTimeZone, to_jiff_tz};
use crate::zoned::{RyZoned, zone_answers_at};
use crate::shift::{calendar_free, span_time_nanos};
use crate::difference::RyZonedDifference;

verus! {

/// Why `since` or `until` gave no span: `jiff` refused the units or the
/// increment, or the span does not fit (Python's `ValueError`).
#[derive(Clone, Copy, Debug, PartialEq, Eq, Structural)]
pub enum DifferenceError {
    Refused,
}

/// What `jiff`'s `Date::until` gives from date `a` to date `b` with these
/// options, if it succeeds.
pub uninterp spec fn jiff_date_until(a: (int, int, int), b: (int, int, int), o: DifferenceOptions) -> Option<Seq<int>>;

/// What `jiff`'s `Date::since` gives from date `b` to date `a` with these
/// options, if it succeeds.
pub uninterp spec fn jiff_date_since(a: (int, int, int), b: (int, int, int), o: DifferenceOptions) -> Option<Seq<int>>;

/// What `jiff`'s `DateTime::until` gives from `a` to `b`, if it succeeds.
pub uninterp spec fn jiff_datetime_until(
    a: ((int, int, int), (int, int, int, int)),
    b: ((int, int, int), (int, int, int, int)),
    o: DifferenceOptions,
) -> Option<Seq<int>>;

/// What `jiff`'s `DateTime::since` gives from `b` to `a`, if it succeeds.
pub uninterp spec fn jiff_datetime_since(
    a: ((int, int, int), (int, int, int, int)),
    b: ((int, int, int), (int, int, int, int)),
    o: DifferenceOptions,
) -> Option<Seq<int>>;

/// What `jiff`'s `Time::until` gives from `a` to `b`, if it succeeds.
pub uninterp spec fn jiff_time_until(a: (int, int, int, int), b: (int, int, int, int), o: DifferenceOptions) -> Option<Seq<int>>;

/// What `jiff`'s `Time::since` gives from `b` to `a`, if it succeeds.
pub uninterp spec fn jiff_time_since(a: (int, int, int, int), b: (int, int, int, int), o: DifferenceOptions) -> Option<Seq<int>>;

/// What `jiff`'s `Timestamp::until` gives from instant `a` to instant `b`
/// (nanoseconds since the epoch), if it succeeds.
pub uninterp spec fn jiff_timestamp_until(a: int, b: int, o: DifferenceOptions) -> Option<Seq<int>>;

/// What `jiff`'s `Timestamp::since` gives from instant `b` to instant `a`,
/// if it succeeds.
pub uninterp spec fn jiff_timestamp_since(a: int, b: int, o: DifferenceOptions) -> Option<Seq<int>>;

/// The span of `w` weeks and `d` days.
pub open spec fn weeks_days(w: int, d: int) -> Seq<int> {
    seq![0, 0, w, d, 0, 0, 0, 0, 0, 0]
}

/// Whether options ask for whole days and nothing else: smallest unit
/// `Day`, increment 1, and no largest unit beyond days.
pub open spec fn plain_days(o: DifferenceOptions) -> bool {
    o.smallest == JiffUnit::Day && o.increment == 1 && (o.largest is None || o.largest == Some(JiffUnit::Day))
}

/// Whether options ask for whole weeks and days: smallest unit `Day`,
/// increment 1 and largest unit `Week`.
pub open spec fn plain_weeks(o: DifferenceOptions) -> bool {
    o.smallest == JiffUnit::Day && o.increment == 1 && o.largest == Some(JiffUnit::Week)
}

/// The span whole days and weeks give for `n` days: `n` days, or weeks
/// and the remaining days (both truncated toward zero) when weeks are the
/// largest unit.
pub open spec fn days_span(n: int, o: DifferenceOptions) -> Seq<int> {
    if plain_weeks(o) { weeks_days(tdiv(n, 7), trem(n, 7)) } else { weeks_days(0, n) }
}

/// Whole days (or weeks and days) from date `b` to date `a`: what `since`
/// gives on date `a` with date `b` under such options.
pub open spec fn date_days_since(a: (int, int, int), b: (int, int, int), o: DifferenceOptions) -> Seq<int> {
    days_span(epoch_day(a.0, a.1, a.2) - epoch_day(b.0, b.1, b.2), o)
}

/// Whole days (or weeks and days) from date `a` to date `b`: what `until`
/// gives on date `a` with date `b` under such options.
pub open spec fn date_days_until(a: (int, int, int), b: (int, int, int), o: DifferenceOptions) -> Seq<int> {
    days_span(epoch_day(b.0, b.1, b.2) - epoch_day(a.0, a.1, a.2), o)
}

/// `a.until(b)` with `jiff`'s `Date::until`. Whole days (or weeks and
/// days) come out unrounded: the day count between the two dates.
#[verifier::external_body]
fn jiff_date_until_span(a: (i16, i8, i8), b: (i16, i8, i8), o: DifferenceOptions) -> (r: Option<[i64; 10]>)
    requires
        date_ok(a.0 as int, a.1 as int, a.2 as int),
        date_ok(b.0 as int, b.1 as int, b.2 as int),
    ensures
        r is None <==> jiff_date_until((a.0 as int, a.1 as int, a.2 as int), (b.0 as int, b.1 as int, b.2 as int), o) is None,
        r matches Some(v) ==> span_ok(ints(v@)) && jiff_date_until(
            (a.0 as int, a.1 as int, a.2 as int), (b.0 as int, b.1 as int, b.2 as int), o) == Some(ints(v@)),
        plain_days(o) || plain_weeks(o) ==> r is Some,
        r matches Some(v) ==> (plain_days(o) || plain_weeks(o) ==> ints(v@) == days_span(
            epoch_day(b.0 as int, b.1 as int, b.2 as int) - epoch_day(a.0 as int, a.1 as int, a.2 as int), o)),
{
    let diff = jiff::civil::DateDifference::new(jiff::civil::date(b.0, b.1, b.2))
        .smallest(to_jiff_unit(o.smallest)).mode(to_jiff_round_mode(o.mode)).increment(o.increment);
    let diff = match o.largest { Some(u) => diff.largest(to_jiff_unit(u)), None => diff };
    let s = jiff::civil::date(a.0, a.1, a.2).until(diff).ok()?;
    Some(from_jiff_span(s))
}

/// `a.since(b)` with `jiff`'s `Date::since`: the negated span from `a` to
/// `b`. Whole days (or weeks and days) come out unrounded.
#[verifier::external_body]
fn jiff_date_since_span(a: (i16, i8, i8), b: (i16, i8, i8), o: DifferenceOptions) -> (r: Option<[i64; 10]>)
    requires
        date_ok(a.0 as int, a.1 as int, a.2 as int),
        date_ok(b.0 as int, b.1 as int, b.2 as int),
    ensures
        r is None <==> jiff_date_since((a.0 as int, a.1 as int, a.2 as int), (b.0 as int, b.1 as int, b.2 as int), o) is None,
        r matches Some(v) ==> span_ok(ints(v@)) && jiff_date_since(
            (a.0 as int, a.1 as int, a.2 as int), (b.0 as int, b.1 as int, b.2 as int), o) == Some(ints(v@)),
        plain_days(o) || plain_weeks(o) ==> r is Some,
        r matches Some(v) ==> (plain_days(o) || plain_weeks(o) ==> ints(v@) == days_span(
            epoch_day(a.0 as int, a.1 as int, a.2 as int) - epoch_day(b.0 as int, b.1 as int, b.2 as int), o)),
{
    let diff = jiff::civil::DateDifference::new(jiff::civil::date(b.0, b.1, b.2))
        .smallest(to_jiff_unit(o.smallest)).mode(to_jiff_round_mode(o.mode)).increment(o.increment);
    let diff = match o.largest { Some(u) => diff.largest(to_jiff_unit(u)), None => diff };
    let s = jiff::civil::date(a.0, a.1, a.2).since(diff).ok()?;
    Some(from_jiff_span(s))
}

/// `a.until(b)` with `jiff`'s `DateTime::until` and a `DateTimeDifference`.
#[verifier::external_body]
fn jiff_datetime_until_span(
    a: ((i16, i8, i8), (i8, i8, i8, i32)),
    b: ((i16, i8, i8), (i8, i8, i8, i32)),
    o: DifferenceOptions,
) -> (r: Option<[i64; 10]>)
    requires
        parts_ok(a),
        parts_ok(b),
    ensures
        r is None <==> jiff_datetime_until(parts_view(a), parts_view(b), o) is None,
        r matches Some(v) ==> span_ok(ints(v@)) && jiff_datetime_until(parts_view(a), parts_view(b), o) == Some(ints(v@)),
{
    let ((y, m, d), (h, mi, s, n)) = b;
    let diff = jiff::civil::DateTimeDifference::new(jiff::civil::date(y, m, d).at(h, mi, s, n))
        .smallest(to_jiff_unit(o.smallest)).mode(to_jiff_round_mode(o.mode)).increment(o.increment);
    let diff = match o.largest { Some(u) => diff.largest(to_jiff_unit(u)), None => diff };
    let ((y, m, d), (h, mi, s, n)) = a;
    Some(from_jiff_span(jiff::civil::date(y, m, d).at(h, mi, s, n).until(diff).ok()?))
}

/// `a.since(b)` with `jiff`'s `DateTime::since` and a `DateTimeDifference`.
#[verifier::external_body]
fn jiff_datetime_since_span(
    a: ((i16, i8, i8), (i8, i8, i8, i32)),
    b: ((i16, i8, i8), (i8, i8, i8, i32)),
    o: DifferenceOptions,
) -> (r: Option<[i64; 10]>)
    requires
        parts_ok(a),
        parts_ok(b),
    ensures
        r is None <==> jiff_datetime_since(parts_view(a), parts_view(b), o) is None,
        r matches Some(v) ==> span_ok(ints(v@)) && jiff_datetime_since(parts_view(a), parts_view(b), o) == Some(ints(v@)),
{
    let ((y, m, d), (h, mi, s, n)) = b;
    let diff = jiff::civil::DateTimeDifference::new(jiff::civil::date(y, m, d).at(h, mi, s, n))
        .smallest(to_jiff_unit(o.smallest)).mode(to_jiff_round_mode(o.mode)).increment(o.increment);
    let diff = match o.largest { Some(u) => diff.largest(to_jiff_unit(u)), None => diff };
    let ((y, m, d), (h, mi, s, n)) = a;
    Some(from_jiff_span(jiff::civil::date(y, m, d).at(h, mi, s, n).since(diff).ok()?))
}

/// `a.until(b)` with `jiff`'s `Time::until` and a `TimeDifference`.
#[verifier::external_body]
fn jiff_time_until_span(a: (i8, i8, i8, i32), b: (i8, i8, i8, i32), o: DifferenceOptions) -> (r: Option<[i64; 10]>)
    requires
        time_ok(a.0 as int, a.1 as int, a.2 as int, a.3 as int),
        time_ok(b.0 as int, b.1 as int, b.2 as int, b.3 as int),
    ensures
        r is None <==> jiff_time_until((a.0 as int, a.1 as int, a.2 as int, a.3 as int),
            (b.0 as int, b.1 as int, b.2 as int, b.3 as int), o) is None,
        r matches Some(v) ==> span_ok(ints(v@)) && jiff_time_until((a.0 as int, a.1 as int, a.2 as int, a.3 as int),
            (b.0 as int, b.1 as int, b.2 as int, b.3 as int), o) == Some(ints(v@)),
{
    let diff = jiff::civil::TimeDifference::new(jiff::civil::time(b.0, b.1, b.2, b.3))
        .smallest(to_jiff_unit(o.smallest)).mode(to_jiff_round_mode(o.mode)).increment(o.increment);
    let diff = match o.largest { Some(u) => diff.largest(to_jiff_unit(u)), None => diff };
    Some(from_jiff_span(jiff::civil::time(a.0, a.1, a.2, a.3).until(diff).ok()?))
}

/// `a.since(b)` with `jiff`'s `Time::since` and a `TimeDifference`.
#[verifier::external_body]
fn jiff_time_since_span(a: (i8, i8, i8, i32), b: (i8, i8, i8, i32), o: DifferenceOptions) -> (r: Option<[i64; 10]>)
    requires
        time_ok(a.0 as int, a.1 as int, a.2 as int, a.3 as int),
        time_ok(b.0 as int, b.1 as int, b.2 as int, b.3 as int),
    ensures
        r is None <==> jiff_time_since((a.0 as int, a.1 as int, a.2 as int, a.3 as int),
            (b.0 as int, b.1 as int, b.2 as int, b.3 as int), o) is None,
        r matches Some(v) ==> span_ok(ints(v@)) && jiff_time_since((a.0 as int, a.1 as int, a.2 as int, a.3 as int),
            (b.0 as int, b.1 as int, b.2 as int, b.3 as int), o) == Some(ints(v@)),
{
    let diff = jiff::civil::TimeDifference::new(jiff::civil::time(b.0, b.1, b.2, b.3))
        .smallest(to_jiff_unit(o.smallest)).mode(to_jiff_round_mode(o.mode)).increment(o.increment);
    let diff = match o.largest { Some(u) => diff.largest(to_jiff_unit(u)), None => diff };
    Some(from_jiff_span(jiff::civil::time(a.0, a.1, a.2, a.3).since(diff).ok()?))
}

/// `a.until(b)` with `jiff`'s `Timestamp::until` and a `TimestampDifference`.
#[verifier::external_body]
fn jiff_timestamp_until_span(a: (i64, i32), b: (i64, i32), o: DifferenceOptions) -> (r: Option<[i64; 10]>)
    requires
        ts_new_ok(a.0 as int, a.1 as int),
        ts_new_ok(b.0 as int, b.1 as int),
    ensures
        r is None <==> jiff_timestamp_until(a.0 * 1_000_000_000 + a.1, b.0 * 1_000_000_000 + b.1, o) is None,
        r matches Some(v) ==> span_ok(ints(v@)) && jiff_timestamp_until(a.0 * 1_000_000_000 + a.1,
            b.0 * 1_000_000_000 + b.1, o) == Some(ints(v@)),
{
    let diff = jiff::TimestampDifference::new(jiff::Timestamp::new(b.0, b.1).unwrap())
        .smallest(to_jiff_unit(o.smallest)).mode(to_jiff_round_mode(o.mode)).increment(o.increment);
    let diff = match o.largest { Some(u) => diff.largest(to_jiff_unit(u)), None => diff };
    Some(from_jiff_span(jiff::Timestamp::new(a.0, a.1).unwrap().until(diff).ok()?))
}

/// `a.since(b)` with `jiff`'s `Timestamp::since` and a `TimestampDifference`.
#[verifier::external_body]
fn jiff_timestamp_since_span(a: (i64, i32), b: (i64, i32), o: DifferenceOptions) -> (r: Option<[i64; 10]>)
    requires
        ts_new_ok(a.0 as int, a.1 as int),
        ts_new_ok(b.0 as int, b.1 as int),
    ensures
        r is None <==> jiff_timestamp_since(a.0 * 1_000_000_000 + a.1, b.0 * 1_000_000_000 + b.1, o) is None,
        r matches Some(v) ==> span_ok(ints(v@)) && jiff_timestamp_since(a.0 * 1_000_000_000 + a.1,
            b.0 * 1_000_000_000 + b.1, o) == Some(ints(v@)),
{
    let diff = jiff::TimestampDifference::new(jiff::Timestamp::new(b.0, b.1).unwrap())
        .smallest(to_jiff_unit(o.smallest)).mode(to_jiff_round_mode(o.mode)).increment(o.increment);
    let diff = match o.largest { Some(u) => diff.largest(to_jiff_unit(u)), None => diff };
    Some(from_jiff_span(jiff::Timestamp::new(a.0, a.1).unwrap().since(diff).ok()?))
}

/// The span of a `jiff` result, or the refusal.
fn span_or_refused(r: Option<[i64; 10]>) -> (s: Result<RySpan, DifferenceError>)
    requires
        r matches Some(v) ==> span_ok(ints(v@)),
    ensures
        s is Err <==> r is None,
        r matches Some(v) ==> s matches Ok(x) && x@ == ints(v@),
{
    match r {
        Some(v) => Ok(RySpan::from_checked_fields(v)),
        None => Err(DifferenceError::Refused),
    }
}

impl RyDate {
    /// The span from `other` to this date (`since`); the options default
    /// to whole days, truncation and an increment of 1. Whole days, or
    /// weeks and days, are the day count between the dates.
    pub fn since(
        &self,
        other: &RyDate,
        smallest: Option<JiffUnit>,
        largest: Option<JiffUnit>,
        mode: Option<JiffRoundMode>,
        increment: Option<i64>,
    ) -> (r: Result<RySpan, DifferenceError>)
        ensures
            r is Err <==> jiff_date_since(self@, other@, difference_defaults(JiffUnit::Day, smallest, largest, mode,
                increment)) is None,
            r matches Ok(s) ==> jiff_date_since(self@, other@, difference_defaults(JiffUnit::Day, smallest, largest,
                mode, increment)) == Some(s@),
            plain_days(difference_defaults(JiffUnit::Day, smallest, largest, mode, increment)) || plain_weeks(
                difference_defaults(JiffUnit::Day, smallest, largest, mode, increment)) ==> r is Ok,
            r matches Ok(s) ==> (plain_days(difference_defaults(JiffUnit::Day, smallest, largest, mode, increment)) || plain_weeks(
                difference_defaults(JiffUnit::Day, smallest, largest, mode, increment)) ==> s@ == date_days_since(self@, other@,
                difference_defaults(JiffUnit::Day, smallest, largest, mode, increment))),
    {
        let d = RyDateDifference::py_new(*other, smallest, largest, mode, increment);
        self.since_difference(&d)
    }

    /// The span from this date to `other` (`until`), with the same
    /// defaults as `since`.
    pub fn until(
        &self,
        other: &RyDate,
        smallest: Option<JiffUnit>,
        largest: Option<JiffUnit>,
        mode: Option<JiffRoundMode>,
        increment: Option<i64>,
    ) -> (r: Result<RySpan, DifferenceError>)
        ensures
            r is Err <==> jiff_date_until(self@, other@, difference_defaults(JiffUnit::Day, smallest, largest, mode,
                increment)) is None,
            r matches Ok(s) ==> jiff_date_until(self@, other@, difference_defaults(JiffUnit::Day, smallest, largest,
                mode, increment)) == Some(s@),
            plain_days(difference_defaults(JiffUnit::Day, smallest, largest, mode, increment)) || plain_weeks(
                difference_defaults(JiffUnit::Day, smallest, largest, mode, increment)) ==> r is Ok,
            r matches Ok(s) ==> (plain_days(difference_defaults(JiffUnit::Day, smallest, largest, mode, increment)) || plain_weeks(
                difference_defaults(JiffUnit::Day, smallest, largest, mode, increment)) ==> s@ == date_days_until(self@, other@,
                difference_defaults(JiffUnit::Day, smallest, largest, mode, increment))),
    {
        let d = RyDateDifference::py_new(*other, smallest, largest, mode, increment);
        self.until_difference(&d)
    }

    /// The span from a configured date to this one (`_since`).
    pub fn since_difference(&self, d: &RyDateDifference) -> (r: Result<RySpan, DifferenceError>)
        ensures
            r is Err <==> jiff_date_since(self@, d.date@, d.options) is None,
            r matches Ok(s) ==> jiff_date_since(self@, d.date@, d.options) == Some(s@),
            plain_days(d.options) || plain_weeks(d.options) ==> r is Ok,
            r matches Ok(s) ==> (plain_days(d.options) || plain_weeks(d.options) ==> s@ == date_days_since(self@,
                d.date@, d.options)),
    {
        let a = (self.year(), self.month(), self.day());
        let b = (d.date.year(), d.date.month(), d.date.day());
        span_or_refused(jiff_date_since_span(a, b, d.options))
    }

    /// The span from this date to a configured one (`_until`).
    pub fn until_difference(&self, d: &RyDateDifference) -> (r: Result<RySpan, DifferenceError>)
        ensures
            r is Err <==> jiff_date_until(self@, d.date@, d.options) is None,
            r matches Ok(s) ==> jiff_date_until(self@, d.date@, d.options) == Some(s@),
            plain_days(d.options) || plain_weeks(d.options) ==> r is Ok,
            r matches Ok(s) ==> (plain_days(d.options) || plain_weeks(d.options) ==> s@ == date_days_until(self@,
                d.date@, d.options)),
    {
        let a = (self.year(), self.month(), self.day());
        let b = (d.date.year(), d.date.month(), d.date.day());
        span_or_refused(jiff_date_until_span(a, b, d.options))
    }
}

impl RyDateTime {
    /// The span from `other` to this datetime (`since`); the options
    /// default to nanoseconds, truncation and an increment of 1.
    pub fn since(
        &self,
        other: &RyDateTime,
        smallest: Option<JiffUnit>,
        largest: Option<JiffUnit>,
        mode: Option<JiffRoundMode>,
        increment: Option<i64>,
    ) -> (r: Result<RySpan, DifferenceError>)
        ensures
            r is Err <==> jiff_datetime_since(self@, other@, difference_defaults(JiffUnit::Nanosecond, smallest,
                largest, mode, increment)) is None,
            r matches Ok(s) ==> jiff_datetime_since(self@, other@, difference_defaults(JiffUnit::Nanosecond,
                smallest, largest, mode, increment)) == Some(s@),
    {
        let d = RyDateTimeDifference::py_new(*other, smallest, largest, mode, increment);
        self.since_difference(&d)
    }

    /// The span from this datetime to `other` (`until`).
    pub fn until(
        &self,
        other: &RyDateTime,
        smallest: Option<JiffUnit>,
        largest: Option<JiffUnit>,
        mode: Option<JiffRoundMode>,
        increment: Option<i64>,
    ) -> (r: Result<RySpan, DifferenceError>)
        ensures
            r is Err <==> jiff_datetime_until(self@, other@, difference_defaults(JiffUnit::Nanosecond, smallest,
                largest, mode, increment)) is None,
            r matches Ok(s) ==> jiff_datetime_until(self@, other@, difference_defaults(JiffUnit::Nanosecond,
                smallest, largest, mode, increment)) == Some(s@),
    {
        let d = RyDateTimeDifference::py_new(*other, smallest, largest, mode, increment);
        self.until_difference(&d)
    }

    /// The span from a configured datetime to this one (`_since`).
    pub fn since_difference(&self, d: &RyDateTimeDifference) -> (r: Result<RySpan, DifferenceError>)
        ensures
            r is Err <==> jiff_datetime_since(self@, d.datetime@, d.options) is None,
            r matches Ok(s) ==> jiff_datetime_since(self@, d.datetime@, d.options) == Some(s@),
    {
        span_or_refused(jiff_datetime_since_span(self.parts(), d.datetime.parts(), d.options))
    }

    /// The span from this datetime to a configured one (`_until`).
    pub fn until_difference(&self, d: &RyDateTimeDifference) -> (r: Result<RySpan, DifferenceError>)
        ensures
            r is Err <==> jiff_datetime_until(self@, d.datetime@, d.options) is None,
            r matches Ok(s) ==> jiff_datetime_until(self@, d.datetime@, d.options) == Some(s@),
    {
        span_or_refused(jiff_datetime_until_span(self.parts(), d.datetime.parts(), d.options))
    }
}

impl RyTime {
    /// The span from `other` to this time (`since`); the options default
    /// to nanoseconds, truncation and an increment of 1.
    pub fn since(
        &self,
        other: &RyTime,
        smallest: Option<JiffUnit>,
        largest: Option<JiffUnit>,
        mode: Option<JiffRoundMode>,
        increment: Option<i64>,
    ) -> (r: Result<RySpan, DifferenceError>)
        ensures
            r is Err <==> jiff_time_since(self@, other@, difference_defaults(JiffUnit::Nanosecond, smallest, largest,
                mode, increment)) is None,
            r matches Ok(s) ==> jiff_time_since(self@, other@, difference_defaults(JiffUnit::Nanosecond, smallest,
                largest, mode, increment)) == Some(s@),
    {
        let d = RyTimeDifference::py_new(*other, smallest, largest, mode, increment);
        self.since_difference(&d)
    }

    /// The span from this time to `other` (`until`).
    pub fn until(
        &self,
        other: &RyTime,
        smallest: Option<JiffUnit>,
        largest: Option<JiffUnit>,
        mode: Option<JiffRoundMode>,
        increment: Option<i64>,
    ) -> (r: Result<RySpan, DifferenceError>)
        ensures
            r is Err <==> jiff_time_until(self@, other@, difference_defaults(JiffUnit::Nanosecond, smallest, largest,
                mode, increment)) is None,
            r matches Ok(s) ==> jiff_time_until(self@, other@, difference_defaults(JiffUnit::Nanosecond, smallest,
                largest, mode, increment)) == Some(s@),
    {
        let d = RyTimeDifference::py_new(*other, smallest, largest, mode, increment);
        self.until_difference(&d)
    }

    /// The parts of a time, each in range.
    fn time_parts(&self) -> (r: (i8, i8, i8, i32))
        ensures
            (r.0 as int, r.1 as int, r.2 as int, r.3 as int) == self@,
            time_ok(r.0 as int, r.1 as int, r.2 as int, r.3 as int),
    {
        (self.hour(), self.minute(), self.second(), self.subsec_nanosecond())
    }

    /// The span from a configured time to this one (`_since`).
    pub fn since_difference(&self, d: &RyTimeDifference) -> (r: Result<RySpan, DifferenceError>)
        ensures
            r is Err <==> jiff_time_since(self@, d.time@, d.options) is None,
            r matches Ok(s) ==> jiff_time_since(self@, d.time@, d.options) == Some(s@),
    {
        span_or_refused(jiff_time_since_span(self.time_parts(), d.time.time_parts(), d.options))
    }

    /// The span from this time to a configured one (`_until`).
    pub fn until_difference(&self, d: &RyTimeDifference) -> (r: Result<RySpan, DifferenceError>)
        ensures
            r is Err <==> jiff_time_until(self@, d.time@, d.options) is None,
            r matches Ok(s) ==> jiff_time_until(self@, d.time@, d.options) == Some(s@),
    {
        span_or_refused(jiff_time_until_span(self.time_parts(), d.time.time_parts(), d.options))
    }
}

impl RyTimestamp {
    /// The span from `other` to this instant (`since`).
    pub fn since(
        &self,
        other: &RyTimestamp,
        smallest: JiffUnit,
        largest: Option<JiffUnit>,
        mode: JiffRoundMode,
        increment: i64,
    ) -> (r: Result<RySpan, DifferenceError>)
        ensures
            r is Err <==> jiff_timestamp_since(self@, other@, DifferenceOptions { smallest, largest, mode, increment })
                is None,
            r matches Ok(s) ==> jiff_timestamp_since(self@, other@, DifferenceOptions { smallest, largest, mode,
                increment }) == Some(s@),
    {
        let d = RyTimestampDifference::py_new(*other, smallest, largest, mode, increment);
        self.since_difference(&d)
    }

    /// The span from this instant to `other` (`until`).
    pub fn until(
        &self,
        other: &RyTimestamp,
        smallest: JiffUnit,
        largest: Option<JiffUnit>,
        mode: JiffRoundMode,
        increment: i64,
    ) -> (r: Result<RySpan, DifferenceError>)
        ensures
            r is Err <==> jiff_timestamp_until(self@, other@, DifferenceOptions { smallest, largest, mode, increment })
                is None,
            r matches Ok(s) ==> jiff_timestamp_until(self@, other@, DifferenceOptions { smallest, largest, mode,
                increment }) == Some(s@),
    {
        let d = RyTimestampDifference::py_new(*other, smallest, largest, mode, increment);
        self.until_difference(&d)
    }

    /// The span from a configured instant to this one (`_since`).
    pub fn since_difference(&self, d: &RyTimestampDifference) -> (r: Result<RySpan, DifferenceError>)
        ensures
            r is Err <==> jiff_timestamp_since(self@, d.timestamp@, d.options) is None,
            r matches Ok(s) ==> jiff_timestamp_since(self@, d.timestamp@, d.options) == Some(s@),
    {
        span_or_refused(jiff_timestamp_since_span(self.parts(), d.timestamp.parts(), d.options))
    }

    /// The span from this instant to a configured one (`_until`).
    pub fn until_difference(&self, d: &RyTimestampDifference) -> (r: Result<RySpan, DifferenceError>)
        ensures
            r is Err <==> jiff_timestamp_until(self@, d.timestamp@, d.options) is None,
            r matches Ok(s) ==> jiff_timestamp_until(self@, d.timestamp@, d.options) == Some(s@),
    {
        span_or_refused(jiff_timestamp_until_span(self.parts(), d.timestamp.parts(), d.options))
    }
}

/// What `jiff`'s `Zoned::until` gives from instant `a` in zone `za` to
/// instant `b` in zone `zb` with these options, if it succeeds; stated only
/// for zones that are not database zones.
pub uninterp spec fn jiff_zoned_until(a: int, za: RyTimeZone, b: int, zb: RyTimeZone, o: DifferenceOptions) -> Option<Seq<int>>;

/// What `jiff`'s `Zoned::since` gives from instant `b` in zone `zb` to
/// instant `a` in zone `za` with these options, if it succeeds; stated only
/// for zones that are not database zones.
pub uninterp spec fn jiff_zoned_since(a: int, za: RyTimeZone, b: int, zb: RyTimeZone, o: DifferenceOptions) -> Option<Seq<int>>;

/// Whether `jiff`'s `Zoned::until` with options `o`, from instant `a` in
/// zone `za` to instant `b` in zone `zb`, can answer with span `s`. With a
/// database zone the database decides which answer comes; this records the
/// request that an answer is to.
pub uninterp spec fn jiff_zoned_until_answer(a: int, za: RyTimeZone, b: int, zb: RyTimeZone, o: DifferenceOptions, s: Seq<int>) -> bool;

/// Whether `jiff`'s `Zoned::since` with options `o`, from instant `b` in
/// zone `zb` to instant `a` in zone `za`, can answer with span `s`. With a
/// database zone the database decides which answer comes; this records the
/// request that an answer is to.
pub uninterp spec fn jiff_zoned_since_answer(a: int, za: RyTimeZone, b: int, zb: RyTimeZone, o: DifferenceOptions, s: Seq<int>) -> bool;

/// Whether difference options are `jiff`'s defaults for zoned datetimes as
/// far as they matter: nanoseconds as the smallest unit, no largest unit
/// (so hours, the largest unit `jiff` then allows) and an increment of 1,
/// so that nothing is rounded.
pub open spec fn exact_time_options(o: DifferenceOptions) -> bool {
    o.smallest == JiffUnit::Nanosecond && o.largest is None && o.increment == 1
}

/// `a.until(b)` with `jiff`'s `Zoned::until` and a `ZonedDifference`. For a
/// database zone what the database holds is not known here: only that a
/// span is valid and answers this request; `None` comes only where `jiff`
/// has no answer.
#[verifier::external_body]
fn jiff_zoned_until_span(a: (i64, i32), za: &RyTimeZone, b: (i64, i32), zb: &RyTimeZone, o: DifferenceOptions) -> (r:
    Option<[i64; 10]>)
    requires
        ts_new_ok(a.0 as int, a.1 as int),
        ts_new_ok(b.0 as int, b.1 as int),
    ensures
        !(*za is Named) && !(*zb is Named) ==> (r is None <==> jiff_zoned_until(a.0 * 1_000_000_000 + a.1, *za,
            b.0 * 1_000_000_000 + b.1, *zb, o) is None),
        !(*za is Named) && !(*zb is Named) ==> (r matches Some(v) ==> jiff_zoned_until(a.0 * 1_000_000_000 + a.1,
            *za, b.0 * 1_000_000_000 + b.1, *zb, o) == Some(ints(v@))),
        r matches Some(v) ==> jiff_zoned_until_answer(a.0 * 1_000_000_000 + a.1, *za, b.0 * 1_000_000_000 + b.1, *zb, o, ints(v@)),
        r is None ==> forall|w: Seq<int>| !#[trigger] jiff_zoned_until_answer(a.0 * 1_000_000_000 + a.1, *za, b.0
            * 1_000_000_000 + b.1, *zb, o, w),
        r matches Some(v) ==> span_ok(ints(v@)),
        r is Some || !(exact_time_options(o) && zone_answers_at(*za, a.0 * 1_000_000_000 + a.1)
            && zone_answers_at(*zb, b.0 * 1_000_000_000 + b.1)),
        r matches Some(v) ==> (exact_time_options(o) && zone_answers_at(*za, a.0 * 1_000_000_000 + a.1)
            && zone_answers_at(*zb, b.0 * 1_000_000_000 + b.1) ==> calendar_free(ints(v@)) && span_time_nanos(
            ints(v@)) == (b.0 * 1_000_000_000 + b.1) - (a.0 * 1_000_000_000 + a.1)),
{
    let other = jiff::Timestamp::new(b.0, b.1).unwrap().to_zoned(to_jiff_tz(zb)?);
    let diff = jiff::ZonedDifference::new(&other).smallest(to_jiff_unit(o.smallest))
        .mode(to_jiff_round_mode(o.mode)).increment(o.increment);
    let diff = match o.largest { Some(u) => diff.largest(to_jiff_unit(u)), None => diff };
    let zdt = jiff::Timestamp::new(a.0, a.1).unwrap().to_zoned(to_jiff_tz(za)?);
    Some(from_jiff_span(zdt.until(diff).ok()?))
}

/// `a.since(b)` with `jiff`'s `Zoned::since` and a `ZonedDifference`. For a
/// database zone what the database holds is not known here: only that a
/// span is valid and answers this request; `None` comes only where `jiff`
/// has no answer.
#[verifier::external_body]
fn jiff_zoned_since_span(a: (i64, i32), za: &RyTimeZone, b: (i64, i32), zb: &RyTimeZone, o: DifferenceOptions) -> (r:
    Option<[i64; 10]>)
    requires
        ts_new_ok(a.0 as int, a.1 as int),
        ts_new_ok(b.0 as int, b.1 as int),
    ensures
        !(*za is Named) && !(*zb is Named) ==> (r is None <==> jiff_zoned_since(a.0 * 1_000_000_000 + a.1, *za,
            b.0 * 1_000_000_000 + b.1, *zb, o) is None),
        !(*za is Named) && !(*zb is Named) ==> (r matches Some(v) ==> jiff_zoned_since(a.0 * 1_000_000_000 + a.1,
            *za, b.0 * 1_000_000_000 + b.1, *zb, o) == Some(ints(v@))),
        r matches Some(v) ==> jiff_zoned_since_answer(a.0 * 1_000_000_000 + a.1, *za, b.0 * 1_000_000_000 + b.1, *zb, o, ints(v@)),
        r is None ==> forall|w: Seq<int>| !#[trigger] jiff_zoned_since_answer(a.0 * 1_000_000_000 + a.1, *za, b.0
            * 1_000_000_000 + b.1, *zb, o, w),
        r matches Some(v) ==> span_ok(ints(v@)),
        r is Some || !(exact_time_options(o) && zone_answers_at(*za, a.0 * 1_000_000_000 + a.1)
            && zone_answers_at(*zb, b.0 * 1_000_000_000 + b.1)),
        r matches Some(v) ==> (exact_time_options(o) && zone_answers_at(*za, a.0 * 1_000_000_000 + a.1)
            && zone_answers_at(*zb, b.0 * 1_000_000_000 + b.1) ==> calendar_free(ints(v@)) && span_time_nanos(
            ints(v@)) == (a.0 * 1_000_000_000 + a.1) - (b.0 * 1_000_000_000 + b.1)),
{
    let other = jiff::Timestamp::new(b.0, b.1).unwrap().to_zoned(to_jiff_tz(zb)?);
    let diff = jiff::ZonedDifference::new(&other).smallest(to_jiff_unit(o.smallest))
        .mode(to_jiff_round_mode(o.mode)).increment(o.increment);
    let diff = match o.largest { Some(u) => diff.largest(to_jiff_unit(u)), None => diff };
    let zdt = jiff::Timestamp::new(a.0, a.1).unwrap().to_zoned(to_jiff_tz(za)?);
    Some(from_jiff_span(zdt.since(diff).ok()?))
}

impl RyZoned {
    /// The span from a configured zoned datetime to this one (`_since`).
    /// With a database zone on either side the span is whatever `jiff`
    /// finds.
    pub fn since_difference(&self, d: &RyZonedDifference) -> (r: Result<RySpan, DifferenceError>)
        ensures
            !(self.time_zone() is Named) && !(d.zoned.time_zone() is Named) ==> (r is Err <==> jiff_zoned_since(self@.0,
                self.time_zone(), d.zoned@.0, d.zoned.time_zone(), d.options) is None),
            !(self.time_zone() is Named) && !(d.zoned.time_zone() is Named) ==> (r matches Ok(s) ==> jiff_zoned_since(
                self@.0, self.time_zone(), d.zoned@.0, d.zoned.time_zone(), d.options) == Some(s@)),
            r matches Ok(s) ==> jiff_zoned_since_answer(self@.0, self.time_zone(), d.zoned@.0, d.zoned.time_zone(),
                d.options, s@),
            (exists|w: Seq<int>| #[trigger] jiff_zoned_since_answer(self@.0, self.time_zone(), d.zoned@.0,
                d.zoned.time_zone(), d.options, w)) ==> r is Ok,
            exact_time_options(d.options) && zone_answers_at(self.time_zone(), self@.0) && zone_answers_at(
                d.zoned.time_zone(), d.zoned@.0) ==> (r matches Ok(s) && calendar_free(s@) && span_time_nanos(s@)
                == self@.0 - d.zoned@.0),
    {
        let za = self.time_zone();
        let zb = d.zoned.time_zone();
        span_or_refused(jiff_zoned_since_span(self.timestamp().parts(), &za, d.zoned.timestamp().parts(), &zb, d.options))
    }

    /// The span from this zoned datetime to a configured one (`_until`).
    /// With a database zone on either side the span is whatever `jiff`
    /// finds.
    pub fn until_difference(&self, d: &RyZonedDifference) -> (r: Result<RySpan, DifferenceError>)
        ensures
            !(self.time_zone() is Named) && !(d.zoned.time_zone() is Named) ==> (r is Err <==> jiff_zoned_until(self@.0,
                self.time_zone(), d.zoned@.0, d.zoned.time_zone(), d.options) is None),
            !(self.time_zone() is Named) && !(d.zoned.time_zone() is Named) ==> (r matches Ok(s) ==> jiff_zoned_until(
                self@.0, self.time_zone(), d.zoned@.0, d.zoned.time_zone(), d.options) == Some(s@)),
            r matches Ok(s) ==> jiff_zoned_until_answer(self@.0, self.time_zone(), d.zoned@.0, d.zoned.time_zone(),
                d.options, s@),
            (exists|w: Seq<int>| #[trigger] jiff_zoned_until_answer(self@.0, self.time_zone(), d.zoned@.0,
                d.zoned.time_zone(), d.options, w)) ==> r is Ok,
            exact_time_options(d.options) && zone_answers_at(self.time_zone(), self@.0) && zone_answers_at(
                d.zoned.time_zone(), d.zoned@.0) ==> (r matches Ok(s) && calendar_free(s@) && span_time_nanos(s@)
                == d.zoned@.0 - self@.0),
    {
        let za = self.time_zone();
        let zb = d.zoned.time_zone();
        span_or_refused(jiff_zoned_until_span(self.timestamp().parts(), &za, d.zoned.timestamp().parts(), &zb, d.options))
    }

    /// The span from `other` to this zoned datetime (`since`); the options
    /// default to nanoseconds, no largest unit, truncation and an
    /// increment of 1.
    pub fn since(
        &self,
        other: &RyZoned,
        smallest: Option<JiffUnit>,
        largest: Option<JiffUnit>,
        mode: Option<JiffRoundMode>,
        increment: Option<i64>,
    ) -> (r: Result<RySpan, DifferenceError>)
        ensures
            ({
                let o = difference_defaults(JiffUnit::Nanosecond, smallest, largest, mode, increment);
                &&& !(self.time_zone() is Named) && !(other.time_zone() is Named) ==> (r is Err <==> jiff_zoned_since(
                    self@.0, self.time_zone(), other@.0, other.time_zone(), o) is None)
                &&& !(self.time_zone() is Named) && !(other.time_zone() is Named) ==> (r matches Ok(s)
                    ==> jiff_zoned_since(self@.0, self.time_zone(), other@.0, other.time_zone(), o) == Some(s@))
                &&& (r matches Ok(s) ==> jiff_zoned_since_answer(self@.0, self.time_zone(), other@.0, other.time_zone(),
                    o, s@))
                &&& ((exists|w: Seq<int>| #[trigger] jiff_zoned_since_answer(self@.0, self.time_zone(), other@.0,
                    other.time_zone(), o, w)) ==> r is Ok)
                &&& (exact_time_options(o) && zone_answers_at(self.time_zone(), self@.0) && zone_answers_at(
                    other.time_zone(), other@.0) ==> (r matches Ok(s) && calendar_free(s@) && span_time_nanos(s@)
                    == self@.0 - other@.0))
            }),
    {
        let d = RyZonedDifference::py_new(other.duplicate(), match smallest { Some(u) => u, None => JiffUnit::Nanosecond },
            largest, match mode { Some(m) => m, None => JiffRoundMode::Trunc }, match increment { Some(i) => i, None => 1 });
        self.since_difference(&d)
    }

    /// The span from this zoned datetime to `other` (`until`); the options
    /// default as for `since`.
    pub fn until(
        &self,
        other: &RyZoned,
        smallest: Option<JiffUnit>,
        largest: Option<JiffUnit>,
        mode: Option<JiffRoundMode>,
        increment: Option<i64>,
    ) -> (r: Result<RySpan, DifferenceError>)
        ensures
            ({
                let o = difference_defaults(JiffUnit::Nanosecond, smallest, largest, mode, increment);
                &&& !(self.time_zone() is Named) && !(other.time_zone() is Named) ==> (r is Err <==> jiff_zoned_until(
                    self@.0, self.time_zone(), other@.0, other.time_zone(), o) is None)
                &&& !(self.time_zone() is Named) && !(other.time_zone() is Named) ==> (r matches Ok(s)
                    ==> jiff_zoned_until(self@.0, self.time_zone(), other@.0, other.time_zone(), o) == Some(s@))
                &&& (r matches Ok(s) ==> jiff_zoned_until_answer(self@.0, self.time_zone(), other@.0, other.time_zone(),
                    o, s@))
                &&& ((exists|w: Seq<int>| #[trigger] jiff_zoned_until_answer(self@.0, self.time_zone(), other@.0,
                    other.time_zone(), o, w)) ==> r is Ok)
                &&& (exact_time_options(o) && zone_answers_at(self.time_zone(), self@.0) && zone_answers_at(
                    other.time_zone(), other@.0) ==> (r matches Ok(s) && calendar_free(s@) && span_time_nanos(s@)
                    == other@.0 - self@.0))
            }),
    {
        let d = RyZonedDifference::py_new(other.duplicate(), match smallest { Some(u) => u, None => JiffUnit::Nanosecond },
            largest, match mode { Some(m) => m, None => JiffRoundMode::Trunc }, match increment { Some(i) => i, None => 1 });
        self.until_difference(&d)
    }
}

/// Under whole-day (or week-and-day) options, `since` on date `a` with
/// date `b` gives the span that `until` gives on `b` with `a`, which is the
/// negation of the span `until` gives on `a` with `b`; under the default
/// options it is the plain count of days from `b` to `a`, the span that
/// subtracting `b` from `a` gives.
pub proof fn lemma_date_since_is_swapped_until(a: (int, int, int), b: (int, int, int), o: DifferenceOptions)
    requires
        plain_days(o) || plain_weeks(o),
    ensures
        date_days_since(a, b, o) == date_days_until(b, a, o),
        date_days_since(a, b, o) == negated(date_days_until(a, b, o)),
        o == difference_defaults(JiffUnit::Day, None, None, None, None) ==> date_days_since(a, b, o) == weeks_days(
            0, epoch_day(a.0, a.1, a.2) - epoch_day(b.0, b.1, b.2)),
{
    let n = epoch_day(a.0, a.1, a.2) - epoch_day(b.0, b.1, b.2);
    assert(tdiv(-n, 7) == -tdiv(n, 7));
    assert(trem(-n, 7) == -trem(n, 7));
    assert(date_days_since(a, b, o) =~= negated(date_days_until(a, b, o)));
}

} // verus!
