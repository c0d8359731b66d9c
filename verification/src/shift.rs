//! Moving civil times and dates by exact durations and by spans: checked,
//! saturating and (for times) wrapping addition and subtraction.
use vstd::prelude::*;
use crate::signed_duration::{RySignedDuration, DurationError, sd_range};
use crate::span::{RySpan, any_negative, negated};
use crate::compare::ints;
use crate::time::{RyTime, time_ok};
use crate::date::{RyDate, date_ok, epoch_day, epoch_day_in_range, date_of_epoch_day, lemma_epoch_day_injective,
    lemma_epoch_day_bounds};
use crate::elapsed::weeks_days;
use crate::signed_duration::tdiv;
use crate::span::span_ok;
use crate::span_arith::to_jiff_span;
use crate::datetime::{RyDateTime, DateTimeError, parts_ok, parts_view};
use crate::date::{nth_weekday_of_month_day, nth_weekday_day_number, weekday_of, days_in_month, lemma_year_days};
use crate::units::{JiffWeekday, weekday_number};
use crate::timestamp::{RyTimestamp, ts_range, ts_min_second, ts_max_second};

verus! {

/// Why a date or time could not be moved: the result is out of range or
/// the span holds units the value cannot take (Python's `OverflowError`).
#[derive(Clone, Copy, Debug, PartialEq, Eq, Structural)]
pub enum ShiftError {
    OutOfRange,
}

/// Nanoseconds per civil day.
pub open spec fn day_nanos() -> int {
    86_400_000_000_000
}

/// The nanoseconds since midnight of a time.
pub open spec fn time_of_day_nanos(t: (int, int, int, int)) -> int {
    ((t.0 * 60 + t.1) * 60 + t.2) * 1_000_000_000 + t.3
}

/// The exact length of the time units of a span (hours down to
/// nanoseconds), in nanoseconds.
pub open spec fn span_time_nanos(f: Seq<int>) -> int {
    f[4] * 3_600_000_000_000 + f[5] * 60_000_000_000 + f[6] * 1_000_000_000 + f[7] * 1_000_000 + f[8] * 1_000
        + f[9]
}

/// Whether a span has no years, months, weeks or days.
pub open spec fn calendar_free(f: Seq<int>) -> bool {
    f[0] == 0 && f[1] == 0 && f[2] == 0 && f[3] == 0
}

/// Whether `n` nanoseconds since midnight is a time of day.
pub open spec fn in_day(n: int) -> bool {
    0 <= n < day_nanos()
}

/// Whether a total of nanoseconds fits an `i64`.
pub open spec fn fits_i64(n: int) -> bool {
    i64::MIN <= n <= i64::MAX
}

/// A total reduced to the range of an `i64` by two's-complement wrapping.
pub open spec fn wrap_i64(x: int) -> int {
    (x + 0x8000_0000_0000_0000) % 0x1_0000_0000_0000_0000 - 0x8000_0000_0000_0000
}

/// Whether a span has days and no other unit.
pub open spec fn days_only(f: Seq<int>) -> bool {
    f[0] == 0 && f[1] == 0 && f[2] == 0 && f[4] == 0 && f[5] == 0 && f[6] == 0 && f[7] == 0 && f[8] == 0 && f[9]
        == 0
}

/// What `jiff`'s `Date::checked_add` gives for a date and a span, if it
/// succeeds.
pub uninterp spec fn jiff_date_plus_span(d: (int, int, int), f: Seq<int>) -> Option<(int, int, int)>;

/// What `jiff`'s `DateTime::checked_add` gives for a datetime and a span,
/// if it succeeds.
pub uninterp spec fn jiff_datetime_plus_span(
    dt: ((int, int, int), (int, int, int, int)),
    f: Seq<int>,
) -> Option<((int, int, int), (int, int, int, int))>;

/// The whole days of a duration of `t` nanoseconds, truncated toward zero.
pub open spec fn whole_days(t: int) -> int {
    tdiv(t, day_nanos())
}

/// Whether a date moves by `k` days: `k` must itself be a day number in
/// range, and so must the result.
pub open spec fn date_shift_ok(d: (int, int, int), k: int) -> bool {
    epoch_day_in_range(k) && epoch_day_in_range(epoch_day(d.0, d.1, d.2) + k)
}

/// The exact length of the time units of a span, in nanoseconds.
fn span_nanos(f: &[i64; 10]) -> (r: i128)
    ensures
        r as int == span_time_nanos(ints(f@)),
{
    f[4] as i128 * 3_600_000_000_000 + f[5] as i128 * 60_000_000_000 + f[6] as i128 * 1_000_000_000
        + f[7] as i128 * 1_000_000 + f[8] as i128 * 1_000 + f[9] as i128
}

/// A sum of nanoseconds wrapped as an `i64` wraps, then taken modulo one
/// day.
fn wrapped_day_nanos(sum: i128) -> (r: i64)
    requires
        -0x1_0000_0000_0000_0000_0000_0000 < sum < 0x1_0000_0000_0000_0000_0000_0000,
    ensures
        r as int == wrap_i64(sum as int) % day_nanos(),
        in_day(r as int),
{
    let x: i128 = sum + 0x8000_0000_0000_0000;
    let pos: i128 = match x.checked_rem_euclid(0x1_0000_0000_0000_0000) {
        Some(v) => v,
        None => 0,
    };
    let wrapped: i128 = pos - 0x8000_0000_0000_0000;
    let end: i128 = match wrapped.checked_rem_euclid(86_400_000_000_000) {
        Some(v) => v,
        None => 0,
    };
    end as i64
}

impl RyTime {
    /// The nanoseconds since midnight.
    pub(crate) fn day_nanosecond(&self) -> (r: i64)
        ensures
            r as int == time_of_day_nanos(self@),
            in_day(r as int),
            time_ok(self@.0, self@.1, self@.2, self@.3),
    {
        let h = self.hour() as i64;
        let m = self.minute() as i64;
        let s = self.second() as i64;
        let n = self.subsec_nanosecond() as i64;
        ((h * 60 + m) * 60 + s) * 1_000_000_000 + n
    }

    /// The time `n` nanoseconds after midnight.
    pub(crate) fn from_day_nanosecond(n: i64) -> (r: RyTime)
        requires
            in_day(n as int),
        ensures
            time_of_day_nanos(r@) == n as int,
            time_ok(r@.0, r@.1, r@.2, r@.3),
    {
        let secs = n / 1_000_000_000;
        let sub = n % 1_000_000_000;
        let h = secs / 3600;
        let m = (secs % 3600) / 60;
        let s = secs % 60;
        assert(secs == h * 3600 + m * 60 + s);
        RyTime::from_valid(h as i8, m as i8, s as i8, sub as i32)
    }

    /// This time moved by a signed duration (`checked_add`); fails unless
    /// the result is a time of the same day.
    pub fn checked_add_duration(&self, d: &RySignedDuration) -> (r: Result<RyTime, ShiftError>)
        ensures
            r is Ok <==> fits_i64(d@) && in_day(time_of_day_nanos(self@) + d@),
            r matches Ok(v) ==> time_of_day_nanos(v@) == time_of_day_nanos(self@) + d@,
    {
        let t = self.day_nanosecond() as i128;
        let n = d.as_nanos();
        if n < i64::MIN as i128 || n > i64::MAX as i128 {
            return Err(ShiftError::OutOfRange);
        }
        let end = t + n;
        if end < 0 || end >= 86_400_000_000_000 {
            return Err(ShiftError::OutOfRange);
        }
        Ok(RyTime::from_day_nanosecond(end as i64))
    }

    /// This time moved back by a signed duration (`checked_sub`); fails
    /// when the duration has no negation or the result leaves the day.
    pub fn checked_sub_duration(&self, d: &RySignedDuration) -> (r: Result<RyTime, ShiftError>)
        ensures
            r is Ok <==> sd_range(-d@) && fits_i64(-d@) && in_day(time_of_day_nanos(self@) - d@),
            r matches Ok(v) ==> time_of_day_nanos(v@) == time_of_day_nanos(self@) - d@,
    {
        match d.neg() {
            Ok(m) => self.checked_add_duration(&m),
            Err(_) => Err(ShiftError::OutOfRange),
        }
    }

    /// This time moved by a signed duration, clamped to the day: the
    /// latest time when a positive duration overflows, midnight when a
    /// negative one does (`saturating_add`).
    pub fn saturating_add_duration(&self, d: &RySignedDuration) -> (r: RyTime)
        ensures
            fits_i64(d@) && in_day(time_of_day_nanos(self@) + d@) ==> time_of_day_nanos(r@) == time_of_day_nanos(
                self@) + d@,
            !(fits_i64(d@) && in_day(time_of_day_nanos(self@) + d@)) ==> r@ == (if d@ < 0 {
                (0int, 0int, 0int, 0int)
            } else {
                (23int, 59int, 59int, 999_999_999int)
            }),
    {
        match self.checked_add_duration(d) {
            Ok(v) => v,
            Err(_) => if d.is_negative() { RyTime::MIN() } else { RyTime::MAX() },
        }
    }

    /// This time moved back by a signed duration, clamped to the day
    /// (`saturating_sub`); a duration without a negation gives midnight.
    pub fn saturating_sub_duration(&self, d: &RySignedDuration) -> (r: RyTime)
        ensures
            sd_range(-d@) && fits_i64(-d@) && in_day(time_of_day_nanos(self@) - d@) ==> time_of_day_nanos(r@)
                == time_of_day_nanos(self@) - d@,
            !sd_range(-d@) || (d@ > 0 && !(fits_i64(-d@) && in_day(time_of_day_nanos(self@) - d@)))
                ==> r@ == (0int, 0int, 0int, 0int),
            sd_range(-d@) && d@ <= 0 && !(fits_i64(-d@) && in_day(time_of_day_nanos(self@) - d@)) ==> r@ == (
                23int, 59int, 59int, 999_999_999int),
    {
        match d.neg() {
            Ok(m) => self.saturating_add_duration(&m),
            Err(_) => RyTime::MIN(),
        }
    }

    /// This time moved by a signed duration around the clock: the result
    /// is taken modulo one day (`wrapping_add`).
    pub fn wrapping_add_duration(&self, d: &RySignedDuration) -> (r: RyTime)
        ensures
            time_of_day_nanos(r@) == (time_of_day_nanos(self@) + d@) % day_nanos(),
    {
        let t = self.day_nanosecond() as i128;
        let n = d.as_nanos();
        let end: i128 = match (t + n).checked_rem_euclid(86_400_000_000_000) {
            Some(v) => v,
            None => 0,
        };
        RyTime::from_day_nanosecond(end as i64)
    }

    /// This time moved back by a signed duration around the clock
    /// (`wrapping_sub`).
    pub fn wrapping_sub_duration(&self, d: &RySignedDuration) -> (r: RyTime)
        ensures
            time_of_day_nanos(r@) == (time_of_day_nanos(self@) - d@) % day_nanos(),
    {
        let t = self.day_nanosecond() as i128;
        let n = d.as_nanos();
        let end: i128 = match (t - n).checked_rem_euclid(86_400_000_000_000) {
            Some(v) => v,
            None => 0,
        };
        RyTime::from_day_nanosecond(end as i64)
    }

    /// This time moved by a span (`checked_add`); fails when the span has
    /// years, months, weeks or days, or the result leaves the day.
    pub fn checked_add_span(&self, s: &RySpan) -> (r: Result<RyTime, ShiftError>)
        ensures
            r is Ok <==> calendar_free(s@) && in_day(time_of_day_nanos(self@) + span_time_nanos(s@)),
            r matches Ok(v) ==> time_of_day_nanos(v@) == time_of_day_nanos(self@) + span_time_nanos(s@),
    {
        let f = s.fields();
        if f[0] != 0 || f[1] != 0 || f[2] != 0 || f[3] != 0 {
            return Err(ShiftError::OutOfRange);
        }
        let end = self.day_nanosecond() as i128 + span_nanos(&f);
        if end < 0 || end >= 86_400_000_000_000 {
            return Err(ShiftError::OutOfRange);
        }
        Ok(RyTime::from_day_nanosecond(end as i64))
    }

    /// This time moved back by a span (`checked_sub`): the negated span
    /// added.
    pub fn checked_sub_span(&self, s: &RySpan) -> (r: Result<RyTime, ShiftError>)
        ensures
            r is Ok <==> calendar_free(s@) && in_day(time_of_day_nanos(self@) - span_time_nanos(s@)),
            r matches Ok(v) ==> time_of_day_nanos(v@) == time_of_day_nanos(self@) - span_time_nanos(s@),
    {
        let n = s.negate();
        self.checked_add_span(&n)
    }

    /// This time moved by a span, clamped to the day: midnight for a
    /// negative span that overflows, the latest time otherwise
    /// (`saturating_add`).
    pub fn saturating_add_span(&self, s: &RySpan) -> (r: RyTime)
        ensures
            calendar_free(s@) && in_day(time_of_day_nanos(self@) + span_time_nanos(s@)) ==> time_of_day_nanos(r@)
                == time_of_day_nanos(self@) + span_time_nanos(s@),
            !(calendar_free(s@) && in_day(time_of_day_nanos(self@) + span_time_nanos(s@))) ==> r@ == (if any_negative(
                s@) {
                (0int, 0int, 0int, 0int)
            } else {
                (23int, 59int, 59int, 999_999_999int)
            }),
    {
        match self.checked_add_span(s) {
            Ok(v) => v,
            Err(_) => if s.is_negative() { RyTime::MIN() } else { RyTime::MAX() },
        }
    }

    /// This time moved back by a span, clamped to the day
    /// (`saturating_sub`): the negated span added.
    pub fn saturating_sub_span(&self, s: &RySpan) -> (r: RyTime)
        ensures
            calendar_free(s@) && in_day(time_of_day_nanos(self@) - span_time_nanos(s@)) ==> time_of_day_nanos(r@)
                == time_of_day_nanos(self@) - span_time_nanos(s@),
            !(calendar_free(s@) && in_day(time_of_day_nanos(self@) - span_time_nanos(s@))) ==> r@ == (if any_negative(
                negated(s@)) {
                (0int, 0int, 0int, 0int)
            } else {
                (23int, 59int, 59int, 999_999_999int)
            }),
    {
        let n = s.negate();
        self.saturating_add_span(&n)
    }

    /// This time moved by the time units of a span around the clock, the
    /// sum of nanoseconds wrapping as an `i64` does before it is taken
    /// modulo one day (`wrapping_add`); years to days are ignored.
    pub fn wrapping_add_span(&self, s: &RySpan) -> (r: RyTime)
        ensures
            time_of_day_nanos(r@) == wrap_i64(time_of_day_nanos(self@) + span_time_nanos(s@)) % day_nanos(),
    {
        let f = s.fields();
        let sum = self.day_nanosecond() as i128 + span_nanos(&f);
        RyTime::from_day_nanosecond(wrapped_day_nanos(sum))
    }

    /// This time moved back by the time units of a span around the clock
    /// (`wrapping_sub`): the negated span added.
    pub fn wrapping_sub_span(&self, s: &RySpan) -> (r: RyTime)
        ensures
            time_of_day_nanos(r@) == wrap_i64(time_of_day_nanos(self@) - span_time_nanos(s@)) % day_nanos(),
    {
        let n = s.negate();
        self.wrapping_add_span(&n)
    }
}

/// `d + s` with `jiff`'s `Date::checked_add`. A span of days alone moves
/// the date by that many days, failing when the result is out of range.
#[verifier::external_body]
fn jiff_date_add_span(d: (i16, i8, i8), f: [i64; 10]) -> (r: Option<(i16, i8, i8)>)
    requires
        date_ok(d.0 as int, d.1 as int, d.2 as int),
        span_ok(ints(f@)),
    ensures
        r is None <==> jiff_date_plus_span((d.0 as int, d.1 as int, d.2 as int), ints(f@)) is None,
        r matches Some(v) ==> date_ok(v.0 as int, v.1 as int, v.2 as int) && jiff_date_plus_span(
            (d.0 as int, d.1 as int, d.2 as int), ints(f@)) == Some((v.0 as int, v.1 as int, v.2 as int)),
        days_only(ints(f@)) ==> (r is Some <==> epoch_day_in_range(epoch_day(d.0 as int, d.1 as int, d.2 as int)
            + f[3])),
        r matches Some(v) ==> (days_only(ints(f@)) ==> epoch_day(v.0 as int, v.1 as int, v.2 as int) == epoch_day(
            d.0 as int, d.1 as int, d.2 as int) + f[3]),
{
    let x = jiff::civil::date(d.0, d.1, d.2).checked_add(to_jiff_span(f)).ok()?;
    Some((x.year(), x.month(), x.day()))
}

impl RyDate {
    /// This date moved by a span (`checked_add`), as `jiff` computes it;
    /// a span of days alone moves the date by exactly that many days.
    pub fn checked_add_span(&self, s: &RySpan) -> (r: Result<RyDate, ShiftError>)
        ensures
            r is Err <==> jiff_date_plus_span(self@, s@) is None,
            r matches Ok(v) ==> jiff_date_plus_span(self@, s@) == Some(v@),
            days_only(s@) ==> (r is Ok <==> epoch_day_in_range(epoch_day(self@.0, self@.1, self@.2) + s@[3])),
            r matches Ok(v) ==> (days_only(s@) ==> epoch_day(v@.0, v@.1, v@.2) == epoch_day(self@.0, self@.1, self@.2)
                + s@[3]),
    {
        let f = s.fields();
        match jiff_date_add_span((self.year(), self.month(), self.day()), f) {
            Some(p) => Ok(RyDate::from_valid(p.0, p.1, p.2)),
            None => Err(ShiftError::OutOfRange),
        }
    }

    /// This date moved back by a span (`checked_sub`): the negated span
    /// added.
    pub fn checked_sub_span(&self, s: &RySpan) -> (r: Result<RyDate, ShiftError>)
        ensures
            r is Err <==> jiff_date_plus_span(self@, negated(s@)) is None,
            r matches Ok(v) ==> jiff_date_plus_span(self@, negated(s@)) == Some(v@),
            days_only(s@) ==> (r is Ok <==> epoch_day_in_range(epoch_day(self@.0, self@.1, self@.2) - s@[3])),
            r matches Ok(v) ==> (days_only(s@) ==> epoch_day(v@.0, v@.1, v@.2) == epoch_day(self@.0, self@.1, self@.2)
                - s@[3]),
    {
        let n = s.negate();
        self.checked_add_span(&n)
    }

    /// This date moved by a span, clamped to the supported dates: the
    /// earliest date when a negative span overflows, the latest otherwise
    /// (`saturating_add`).
    pub fn saturating_add_span(&self, s: &RySpan) -> (r: RyDate)
        ensures
            jiff_date_plus_span(self@, s@) matches Some(v) ==> r@ == v,
            jiff_date_plus_span(self@, s@) is None ==> r@ == (if any_negative(s@) {
                (-9999int, 1int, 1int)
            } else {
                (9999int, 12int, 31int)
            }),
    {
        match self.checked_add_span(s) {
            Ok(v) => v,
            Err(_) => if s.is_negative() { RyDate::MIN() } else { RyDate::MAX() },
        }
    }

    /// This date moved back by a span, clamped to the supported dates
    /// (`saturating_sub`): the negated span added.
    pub fn saturating_sub_span(&self, s: &RySpan) -> (r: RyDate)
        ensures
            jiff_date_plus_span(self@, negated(s@)) matches Some(v) ==> r@ == v,
            jiff_date_plus_span(self@, negated(s@)) is None ==> r@ == (if any_negative(negated(s@)) {
                (-9999int, 1int, 1int)
            } else {
                (9999int, 12int, 31int)
            }),
    {
        let n = s.negate();
        self.saturating_add_span(&n)
    }

    /// This date moved by the whole days of a duration, days being 24
    /// hours and leftover time dropped (`checked_add`); fails unless both
    /// the day count and the result are in the range of dates.
    pub fn checked_add_duration(&self, d: &RySignedDuration) -> (r: Result<RyDate, ShiftError>)
        ensures
            r is Ok <==> date_shift_ok(self@, whole_days(d@)),
            r matches Ok(v) ==> epoch_day(v@.0, v@.1, v@.2) == epoch_day(self@.0, self@.1, self@.2) + whole_days(d@),
    {
        let k = d.as_nanos() / 86_400_000_000_000;
        if k < -4_371_587 || k > 2_932_896 {
            return Err(ShiftError::OutOfRange);
        }
        let target = self.epoch_day_number() as i128 + k;
        if target < -4_371_587 || target > 2_932_896 {
            return Err(ShiftError::OutOfRange);
        }
        Ok(date_of_epoch_day(target as i32))
    }

    /// This date moved back by the whole days of a duration
    /// (`checked_sub`); fails when the duration has no negation.
    pub fn checked_sub_duration(&self, d: &RySignedDuration) -> (r: Result<RyDate, ShiftError>)
        ensures
            r is Ok <==> sd_range(-d@) && date_shift_ok(self@, whole_days(-d@)),
            r matches Ok(v) ==> epoch_day(v@.0, v@.1, v@.2) == epoch_day(self@.0, self@.1, self@.2) + whole_days(-d@),
    {
        match d.neg() {
            Ok(m) => self.checked_add_duration(&m),
            Err(_) => Err(ShiftError::OutOfRange),
        }
    }

    /// This date moved by the whole days of a duration, clamped to the
    /// supported dates (`saturating_add`).
    pub fn saturating_add_duration(&self, d: &RySignedDuration) -> (r: RyDate)
        ensures
            date_shift_ok(self@, whole_days(d@)) ==> epoch_day(r@.0, r@.1, r@.2) == epoch_day(self@.0, self@.1,
                self@.2) + whole_days(d@),
            !date_shift_ok(self@, whole_days(d@)) ==> r@ == (if d@ < 0 {
                (-9999int, 1int, 1int)
            } else {
                (9999int, 12int, 31int)
            }),
    {
        match self.checked_add_duration(d) {
            Ok(v) => v,
            Err(_) => if d.is_negative() { RyDate::MIN() } else { RyDate::MAX() },
        }
    }

    /// This date moved back by the whole days of a duration, clamped to
    /// the supported dates (`saturating_sub`); a duration without a
    /// negation gives the earliest date.
    pub fn saturating_sub_duration(&self, d: &RySignedDuration) -> (r: RyDate)
        ensures
            sd_range(-d@) && date_shift_ok(self@, whole_days(-d@)) ==> epoch_day(r@.0, r@.1, r@.2) == epoch_day(
                self@.0, self@.1, self@.2) + whole_days(-d@),
            !sd_range(-d@) || (d@ > 0 && !date_shift_ok(self@, whole_days(-d@))) ==> r@ == (-9999int, 1int, 1int),
            sd_range(-d@) && d@ <= 0 && !date_shift_ok(self@, whole_days(-d@)) ==> r@ == (9999int, 12int, 31int),
    {
        match d.neg() {
            Ok(m) => self.saturating_add_duration(&m),
            Err(_) => RyDate::MIN(),
        }
    }
}

impl RyTimestamp {
    /// This instant moved by a span (`checked_add`); fails when the span
    /// has years, months, weeks or days, or the result is out of range.
    pub fn checked_add_span(&self, s: &RySpan) -> (r: Result<RyTimestamp, ShiftError>)
        ensures
            r is Ok <==> calendar_free(s@) && ts_range(self@ + span_time_nanos(s@)),
            r matches Ok(v) ==> v@ == self@ + span_time_nanos(s@),
    {
        let f = s.fields();
        if f[0] != 0 || f[1] != 0 || f[2] != 0 || f[3] != 0 {
            return Err(ShiftError::OutOfRange);
        }
        let d = RySignedDuration::from_total(span_nanos(&f));
        match self.checked_add(&d) {
            Ok(v) => Ok(v),
            Err(_) => Err(ShiftError::OutOfRange),
        }
    }

    /// This instant moved back by a span (`checked_sub`): the negated span
    /// added.
    pub fn checked_sub_span(&self, s: &RySpan) -> (r: Result<RyTimestamp, ShiftError>)
        ensures
            r is Ok <==> calendar_free(s@) && ts_range(self@ - span_time_nanos(s@)),
            r matches Ok(v) ==> v@ == self@ - span_time_nanos(s@),
    {
        let n = s.negate();
        self.checked_add_span(&n)
    }

    /// This instant moved by a span, clamped to the supported instants
    /// (`saturating_add`); a span with years, months, weeks or days is
    /// refused.
    pub fn saturating_add_span(&self, s: &RySpan) -> (r: Result<RyTimestamp, ShiftError>)
        ensures
            r is Ok <==> calendar_free(s@),
            r matches Ok(v) ==> v@ == (if ts_range(self@ + span_time_nanos(s@)) {
                self@ + span_time_nanos(s@)
            } else if any_negative(s@) {
                ts_min_second() * 1_000_000_000
            } else {
                ts_max_second() * 1_000_000_000 + 999_999_999
            }),
    {
        let f = s.fields();
        if f[0] != 0 || f[1] != 0 || f[2] != 0 || f[3] != 0 {
            return Err(ShiftError::OutOfRange);
        }
        match self.checked_add_span(s) {
            Ok(v) => Ok(v),
            Err(_) => Ok(if s.is_negative() { RyTimestamp::MIN() } else { RyTimestamp::MAX() }),
        }
    }

    /// This instant moved back by a span, clamped to the supported instants
    /// (`saturating_sub`): the negated span added.
    pub fn saturating_sub_span(&self, s: &RySpan) -> (r: Result<RyTimestamp, ShiftError>)
        ensures
            r is Ok <==> calendar_free(s@),
            r matches Ok(v) ==> v@ == (if ts_range(self@ - span_time_nanos(s@)) {
                self@ - span_time_nanos(s@)
            } else if any_negative(negated(s@)) {
                ts_min_second() * 1_000_000_000
            } else {
                ts_max_second() * 1_000_000_000 + 999_999_999
            }),
    {
        let n = s.negate();
        self.saturating_add_span(&n)
    }

    /// This instant moved by a duration, clamped to the supported instants
    /// (`saturating_add`).
    pub fn saturating_add_duration(&self, d: &RySignedDuration) -> (r: RyTimestamp)
        ensures
            r@ == (if ts_range(self@ + d@) {
                self@ + d@
            } else if d@ < 0 {
                ts_min_second() * 1_000_000_000
            } else {
                ts_max_second() * 1_000_000_000 + 999_999_999
            }),
    {
        match self.checked_add(d) {
            Ok(v) => v,
            Err(_) => if d.is_negative() { RyTimestamp::MIN() } else { RyTimestamp::MAX() },
        }
    }

    /// This instant moved back by a duration, clamped to the supported
    /// instants (`saturating_sub`); a duration without a negation gives the
    /// earliest instant.
    pub fn saturating_sub_duration(&self, d: &RySignedDuration) -> (r: RyTimestamp)
        ensures
            r@ == (if !sd_range(-d@) {
                ts_min_second() * 1_000_000_000
            } else if ts_range(self@ - d@) {
                self@ - d@
            } else if -d@ < 0 {
                ts_min_second() * 1_000_000_000
            } else {
                ts_max_second() * 1_000_000_000 + 999_999_999
            }),
    {
        match d.neg() {
            Ok(m) => self.saturating_add_duration(&m),
            Err(_) => RyTimestamp::MIN(),
        }
    }
}

/// `dt + s` with `jiff`'s `DateTime::checked_add`.
#[verifier::external_body]
fn jiff_datetime_add_span(p: ((i16, i8, i8), (i8, i8, i8, i32)), f: [i64; 10]) -> (r: Option<
    ((i16, i8, i8), (i8, i8, i8, i32)),
>)
    requires
        parts_ok(p),
        span_ok(ints(f@)),
    ensures
        r is None <==> jiff_datetime_plus_span(parts_view(p), ints(f@)) is None,
        r matches Some(v) ==> parts_ok(v) && jiff_datetime_plus_span(parts_view(p), ints(f@)) == Some(parts_view(v)),
{
    let ((y, m, d), (h, mi, s, n)) = p;
    let x = jiff::civil::date(y, m, d).at(h, mi, s, n).checked_add(to_jiff_span(f)).ok()?;
    Some(((x.year(), x.month(), x.day()), (x.hour(), x.minute(), x.second(), x.subsec_nanosecond())))
}

/// The civil nanoseconds of a datetime: its day number times the length of
/// a day, plus the nanoseconds since midnight.
pub open spec fn civil_nanos(dt: ((int, int, int), (int, int, int, int))) -> int {
    epoch_day(dt.0.0, dt.0.1, dt.0.2) * day_nanos() + time_of_day_nanos(dt.1)
}

/// Whether a datetime moves by `t` nanoseconds: the days the move spans
/// from its midnight must be a day number in range, and so must the day it
/// lands on.
pub open spec fn datetime_shift_ok(dt: ((int, int, int), (int, int, int, int)), t: int) -> bool {
    date_shift_ok(dt.0, (time_of_day_nanos(dt.1) + t) / day_nanos())
}

impl RyDateTime {
    /// This datetime moved by a span (`checked_add`), as `jiff` computes
    /// it.
    pub fn checked_add_span(&self, s: &RySpan) -> (r: Result<RyDateTime, ShiftError>)
        ensures
            r is Err <==> jiff_datetime_plus_span(self@, s@) is None,
            r matches Ok(v) ==> jiff_datetime_plus_span(self@, s@) == Some(v@),
    {
        match jiff_datetime_add_span(self.parts(), s.fields()) {
            Some(p) => Ok(RyDateTime::from_checked_parts(p)),
            None => Err(ShiftError::OutOfRange),
        }
    }

    /// This datetime moved back by a span (`checked_sub`): the negated span
    /// added.
    pub fn checked_sub_span(&self, s: &RySpan) -> (r: Result<RyDateTime, ShiftError>)
        ensures
            r is Err <==> jiff_datetime_plus_span(self@, negated(s@)) is None,
            r matches Ok(v) ==> jiff_datetime_plus_span(self@, negated(s@)) == Some(v@),
    {
        let n = s.negate();
        self.checked_add_span(&n)
    }

    /// This datetime moved by a span, clamped to the supported datetimes
    /// (`saturating_add`).
    pub fn saturating_add_span(&self, s: &RySpan) -> (r: RyDateTime)
        ensures
            jiff_datetime_plus_span(self@, s@) matches Some(v) ==> r@ == v,
            jiff_datetime_plus_span(self@, s@) is None ==> r@ == (if any_negative(s@) {
                ((-9999int, 1int, 1int), (0int, 0int, 0int, 0int))
            } else {
                ((9999int, 12int, 31int), (23int, 59int, 59int, 999_999_999int))
            }),
    {
        match self.checked_add_span(s) {
            Ok(v) => v,
            Err(_) => if s.is_negative() { RyDateTime::MIN() } else { RyDateTime::MAX() },
        }
    }

    /// This datetime moved back by a span, clamped to the supported
    /// datetimes (`saturating_sub`).
    pub fn saturating_sub_span(&self, s: &RySpan) -> (r: RyDateTime)
        ensures
            jiff_datetime_plus_span(self@, negated(s@)) matches Some(v) ==> r@ == v,
            jiff_datetime_plus_span(self@, negated(s@)) is None ==> r@ == (if any_negative(negated(s@)) {
                ((-9999int, 1int, 1int), (0int, 0int, 0int, 0int))
            } else {
                ((9999int, 12int, 31int), (23int, 59int, 59int, 999_999_999int))
            }),
    {
        let n = s.negate();
        self.saturating_add_span(&n)
    }

    /// This datetime moved by an exact duration, days being 24 hours
    /// (`checked_add`); fails when the day it lands on, or the number of
    /// days moved, is out of range.
    #[verifier::spinoff_prover]
    #[verifier::rlimit(60)]
    pub fn checked_add_duration(&self, d: &RySignedDuration) -> (r: Result<RyDateTime, ShiftError>)
        ensures
            r is Ok <==> datetime_shift_ok(self@, d@),
            r matches Ok(v) ==> civil_nanos(v@) == civil_nanos(self@) + d@,
    {
        let date = self.date();
        let time = self.time();
        let n: i128 = time.day_nanosecond() as i128 + d.as_nanos();
        let q0 = n / 86_400_000_000_000;
        let r0 = n % 86_400_000_000_000;
        let (q, rem) = if r0 < 0 { (q0 - 1, r0 + 86_400_000_000_000) } else { (q0, r0) };
        assert(q == (time_of_day_nanos(self@.1) + d@) / day_nanos());
        if q < -4_371_587 || q > 2_932_896 {
            return Err(ShiftError::OutOfRange);
        }
        let target = date.epoch_day_number() as i128 + q;
        if target < -4_371_587 || target > 2_932_896 {
            return Err(ShiftError::OutOfRange);
        }
        let nd = date_of_epoch_day(target as i32);
        let nt = RyTime::from_day_nanosecond(rem as i64);
        Ok(RyDateTime::from_parts(&nd, &nt))
    }

    /// This datetime moved back by an exact duration (`checked_sub`); fails
    /// when the duration has no negation.
    pub fn checked_sub_duration(&self, d: &RySignedDuration) -> (r: Result<RyDateTime, ShiftError>)
        ensures
            r is Ok <==> sd_range(-d@) && datetime_shift_ok(self@, -d@),
            r matches Ok(v) ==> civil_nanos(v@) == civil_nanos(self@) - d@,
    {
        match d.neg() {
            Ok(m) => self.checked_add_duration(&m),
            Err(_) => Err(ShiftError::OutOfRange),
        }
    }

    /// This datetime moved by a duration, clamped to the supported
    /// datetimes (`saturating_add`).
    pub fn saturating_add_duration(&self, d: &RySignedDuration) -> (r: RyDateTime)
        ensures
            datetime_shift_ok(self@, d@) ==> civil_nanos(r@) == civil_nanos(self@) + d@,
            !datetime_shift_ok(self@, d@) ==> r@ == (if d@ < 0 {
                ((-9999int, 1int, 1int), (0int, 0int, 0int, 0int))
            } else {
                ((9999int, 12int, 31int), (23int, 59int, 59int, 999_999_999int))
            }),
    {
        match self.checked_add_duration(d) {
            Ok(v) => v,
            Err(_) => if d.is_negative() { RyDateTime::MIN() } else { RyDateTime::MAX() },
        }
    }

    /// This datetime moved back by a duration, clamped to the supported
    /// datetimes (`saturating_sub`); a duration without a negation gives the
    /// earliest datetime.
    pub fn saturating_sub_duration(&self, d: &RySignedDuration) -> (r: RyDateTime)
        ensures
            sd_range(-d@) && datetime_shift_ok(self@, -d@) ==> civil_nanos(r@) == civil_nanos(self@) - d@,
            !sd_range(-d@) || (d@ > 0 && !datetime_shift_ok(self@, -d@)) ==> r@ == ((-9999int, 1int, 1int), (0int,
                0int, 0int, 0int)),
            sd_range(-d@) && d@ <= 0 && !datetime_shift_ok(self@, -d@) ==> r@ == ((9999int, 12int, 31int), (23int,
                59int, 59int, 999_999_999int)),
    {
        match d.neg() {
            Ok(m) => self.saturating_add_duration(&m),
            Err(_) => RyDateTime::MIN(),
        }
    }
}

/// The nanoseconds since midnight name one time: two valid times with the
/// same count are the same time.
pub proof fn lemma_time_of_day_nanos_injective(a: (int, int, int, int), b: (int, int, int, int))
    requires
        time_ok(a.0, a.1, a.2, a.3),
        time_ok(b.0, b.1, b.2, b.3),
        time_of_day_nanos(a) == time_of_day_nanos(b),
    ensures
        a == b,
{
    let sa = (a.0 * 60 + a.1) * 60 + a.2;
    let sb = (b.0 * 60 + b.1) * 60 + b.2;
    assert(sa == sb && a.3 == b.3) by (nonlinear_arith)
        requires
            sa * 1_000_000_000 + a.3 == sb * 1_000_000_000 + b.3,
            0 <= a.3 < 1_000_000_000,
            0 <= b.3 < 1_000_000_000,
    ;
    let ma = a.0 * 60 + a.1;
    let mb = b.0 * 60 + b.1;
    assert(ma == mb && a.2 == b.2) by (nonlinear_arith)
        requires
            ma * 60 + a.2 == mb * 60 + b.2,
            0 <= a.2 < 60,
            0 <= b.2 < 60,
    ;
    assert(a.0 == b.0 && a.1 == b.1) by (nonlinear_arith)
        requires
            a.0 * 60 + a.1 == b.0 * 60 + b.1,
            0 <= a.1 < 60,
            0 <= b.1 < 60,
    ;
}

/// Moving a time by a duration and back by the same duration gives the
/// time again.
pub proof fn lemma_time_duration_roundtrip(
    t: (int, int, int, int),
    moved: (int, int, int, int),
    back: (int, int, int, int),
    d: int,
)
    requires
        time_ok(t.0, t.1, t.2, t.3),
        time_ok(back.0, back.1, back.2, back.3),
        time_of_day_nanos(moved) == time_of_day_nanos(t) + d,
        time_of_day_nanos(back) == time_of_day_nanos(moved) - d,
    ensures
        back == t,
{
    lemma_time_of_day_nanos_injective(back, t);
}

/// Truncating division by a positive number commutes with negation.
proof fn lemma_tdiv_neg(x: int, k: int)
    requires
        k > 0,
    ensures
        tdiv(-x, k) == -tdiv(x, k),
{
}

/// Moving a date by the whole days of a duration and back by the same
/// duration gives the date again.
pub proof fn lemma_date_duration_roundtrip(
    a: (int, int, int),
    moved: (int, int, int),
    back: (int, int, int),
    d: int,
)
    requires
        date_ok(a.0, a.1, a.2),
        date_ok(back.0, back.1, back.2),
        epoch_day(moved.0, moved.1, moved.2) == epoch_day(a.0, a.1, a.2) + whole_days(d),
        epoch_day(back.0, back.1, back.2) == epoch_day(moved.0, moved.1, moved.2) + whole_days(-d),
    ensures
        back == a,
{
    lemma_tdiv_neg(d, day_nanos());
    lemma_epoch_day_injective(back, a);
}

/// Moving a date by the day count that `until` gives for it and another
/// date lands on that other date.
pub proof fn lemma_date_until_then_add(a: (int, int, int), b: (int, int, int), c: (int, int, int))
    requires
        date_ok(a.0, a.1, a.2),
        date_ok(b.0, b.1, b.2),
        date_ok(c.0, c.1, c.2),
        epoch_day(c.0, c.1, c.2) == epoch_day(a.0, a.1, a.2) + weeks_days(0, epoch_day(b.0, b.1, b.2) - epoch_day(
            a.0, a.1, a.2))[3],
    ensures
        c == b,
{
    lemma_epoch_day_injective(c, b);
}

/// Civil nanoseconds name one datetime.
pub proof fn lemma_civil_nanos_injective(
    a: ((int, int, int), (int, int, int, int)),
    b: ((int, int, int), (int, int, int, int)),
)
    requires
        date_ok(a.0.0, a.0.1, a.0.2),
        date_ok(b.0.0, b.0.1, b.0.2),
        time_ok(a.1.0, a.1.1, a.1.2, a.1.3),
        time_ok(b.1.0, b.1.1, b.1.2, b.1.3),
        civil_nanos(a) == civil_nanos(b),
    ensures
        a == b,
{
    let ea = epoch_day(a.0.0, a.0.1, a.0.2);
    let eb = epoch_day(b.0.0, b.0.1, b.0.2);
    let ta = time_of_day_nanos(a.1);
    let tb = time_of_day_nanos(b.1);
    assert(0 <= ta < day_nanos() && 0 <= tb < day_nanos());
    assert(ea == eb && ta == tb) by (nonlinear_arith)
        requires
            ea * 86_400_000_000_000 + ta == eb * 86_400_000_000_000 + tb,
            0 <= ta < 86_400_000_000_000,
            0 <= tb < 86_400_000_000_000,
    ;
    lemma_epoch_day_injective(a.0, b.0);
    lemma_time_of_day_nanos_injective(a.1, b.1);
}

/// Moving a datetime by a duration and back by the same duration gives the
/// datetime again.
pub proof fn lemma_datetime_duration_roundtrip(
    a: ((int, int, int), (int, int, int, int)),
    moved: ((int, int, int), (int, int, int, int)),
    back: ((int, int, int), (int, int, int, int)),
    d: int,
)
    requires
        date_ok(a.0.0, a.0.1, a.0.2),
        time_ok(a.1.0, a.1.1, a.1.2, a.1.3),
        date_ok(back.0.0, back.0.1, back.0.2),
        time_ok(back.1.0, back.1.1, back.1.2, back.1.3),
        civil_nanos(moved) == civil_nanos(a) + d,
        civil_nanos(back) == civil_nanos(moved) - d,
    ensures
        back == a,
{
    lemma_civil_nanos_injective(back, a);
}

/// Whether `n` civil nanoseconds fall on a supported date.
pub open spec fn civil_in_range(n: int) -> bool {
    epoch_day_in_range(n / day_nanos())
}

/// Every instant, at every offset, shows a civil datetime on a supported
/// date.
pub proof fn lemma_civil_of_instant_in_range(t: int, off: int)
    requires
        ts_range(t),
        -93_599 <= off <= 93_599,
    ensures
        civil_in_range(t + off * 1_000_000_000),
{
    let n = t + off * 1_000_000_000;
    assert(-4_371_587 <= n / 86_400_000_000_000 <= 2_932_896) by (nonlinear_arith)
        requires
            -4_371_587 * 86_400_000_000_000 <= n < 2_932_897 * 86_400_000_000_000,
    ;
}

impl RyDateTime {
    /// The datetime `n` nanoseconds after 1970-01-01T00:00:00.
    pub(crate) fn from_civil_nanos(n: i128) -> (r: RyDateTime)
        requires
            civil_in_range(n as int),
        ensures
            civil_nanos(r@) == n as int,
    {
        let q0 = n / 86_400_000_000_000;
        let r0 = n % 86_400_000_000_000;
        let (q, rem) = if r0 < 0 { (q0 - 1, r0 + 86_400_000_000_000) } else { (q0, r0) };
        assert(q == n as int / day_nanos());
        let d = date_of_epoch_day(q as i32);
        let t = RyTime::from_day_nanosecond(rem as i64);
        RyDateTime::from_parts(&d, &t)
    }
}

impl RyDateTime {
    /// The civil nanoseconds of this datetime; its date and time are
    /// valid.
    pub(crate) fn civil_nanosecond(&self) -> (r: i128)
        ensures
            r as int == civil_nanos(self@),
            date_ok(self@.0.0, self@.0.1, self@.0.2),
            time_ok(self@.1.0, self@.1.1, self@.1.2, self@.1.3),
    {
        let d = self.date();
        let t = self.time();
        let e = d.epoch_day_number();
        proof {
            lemma_epoch_day_bounds(d@.0, d@.1, d@.2);
        }
        e as i128 * 86_400_000_000_000 + t.day_nanosecond() as i128
    }
}

impl RyDateTime {
    /// The exact time elapsed from `other` until this datetime
    /// (`duration_since`): the difference of their civil nanoseconds,
    /// negative when `other` is later.
    pub fn duration_since(&self, other: &RyDateTime) -> (r: RySignedDuration)
        ensures
            r@ == civil_nanos(self@) - civil_nanos(other@),
    {
        let a = self.civil_nanosecond();
        let b = other.civil_nanosecond();
        proof {
            lemma_epoch_day_bounds(self@.0.0, self@.0.1, self@.0.2);
            lemma_epoch_day_bounds(other@.0.0, other@.0.1, other@.0.2);
        }
        RySignedDuration::from_total(a - b)
    }

    /// The exact time elapsed from this datetime until `other`
    /// (`duration_until`).
    pub fn duration_until(&self, other: &RyDateTime) -> (r: RySignedDuration)
        ensures
            r@ == civil_nanos(other@) - civil_nanos(self@),
    {
        other.duration_since(self)
    }

    /// The `nth` given weekday of this datetime's month at the same time of
    /// day (`nth_weekday_of_month`), as for dates.
    pub fn nth_weekday_of_month(&self, nth: i8, weekday: JiffWeekday) -> (r: Result<RyDateTime, DateTimeError>)
        ensures
            r is Ok <==> nth != 0 && -5 <= nth <= 5 && 1 <= nth_weekday_of_month_day(self@.0.0, self@.0.1,
                nth as int, weekday_number(weekday)) <= days_in_month(self@.0.0, self@.0.1),
            r matches Ok(v) ==> v@ == ((self@.0.0, self@.0.1, nth_weekday_of_month_day(self@.0.0, self@.0.1,
                nth as int, weekday_number(weekday))), self@.1),
    {
        match self.date().nth_weekday_of_month(nth, weekday) {
            Ok(d) => Ok(RyDateTime::from_parts(&d, &self.time())),
            Err(_) => Err(DateTimeError::OutOfRange),
        }
    }

    /// The `nth` given weekday after (positive `nth`) or before (negative)
    /// this datetime's date, at the same time of day (`nth_weekday`), as
    /// for dates.
    pub fn nth_weekday(&self, nth: i32, weekday: JiffWeekday) -> (r: Result<RyDateTime, DateTimeError>)
        ensures
            r is Ok <==> nth != 0 && -1_043_497 <= nth <= 1_043_497 && epoch_day_in_range(nth_weekday_day_number(
                epoch_day(self@.0.0, self@.0.1, self@.0.2), weekday_of(self@.0.0, self@.0.1, self@.0.2), nth as int,
                weekday_number(weekday))),
            r matches Ok(v) ==> epoch_day(v@.0.0, v@.0.1, v@.0.2) == nth_weekday_day_number(epoch_day(self@.0.0,
                self@.0.1, self@.0.2), weekday_of(self@.0.0, self@.0.1, self@.0.2), nth as int, weekday_number(
                weekday)) && v@.1 == self@.1,
            r matches Ok(v) ==> weekday_of(v@.0.0, v@.0.1, v@.0.2) == weekday_number(weekday),
    {
        match self.date().nth_weekday(nth, weekday) {
            Ok(d) => Ok(RyDateTime::from_parts(&d, &self.time())),
            Err(_) => Err(DateTimeError::OutOfRange),
        }
    }
}

/// Moving a datetime by the exact time from it to another (what
/// `duration_since` gives) lands on that other datetime, whenever the
/// whole days between their dates are a count a date can be moved by.
pub proof fn lemma_datetime_since_then_add(
    a: ((int, int, int), (int, int, int, int)),
    b: ((int, int, int), (int, int, int, int)),
    c: ((int, int, int), (int, int, int, int)),
)
    requires
        date_ok(a.0.0, a.0.1, a.0.2),
        time_ok(a.1.0, a.1.1, a.1.2, a.1.3),
        date_ok(b.0.0, b.0.1, b.0.2),
        time_ok(b.1.0, b.1.1, b.1.2, b.1.3),
        epoch_day_in_range(epoch_day(a.0.0, a.0.1, a.0.2) - epoch_day(b.0.0, b.0.1, b.0.2)),
    ensures
        datetime_shift_ok(b, civil_nanos(a) - civil_nanos(b)),
        date_ok(c.0.0, c.0.1, c.0.2) && time_ok(c.1.0, c.1.1, c.1.2, c.1.3) && civil_nanos(c) == civil_nanos(b)
            + (civil_nanos(a) - civil_nanos(b)) ==> c == a,
{
    let ea = epoch_day(a.0.0, a.0.1, a.0.2);
    let eb = epoch_day(b.0.0, b.0.1, b.0.2);
    let ta = time_of_day_nanos(a.1);
    let tb = time_of_day_nanos(b.1);
    assert(0 <= ta < day_nanos());
    assert(tb + (civil_nanos(a) - civil_nanos(b)) == (ea - eb) * day_nanos() + ta) by (nonlinear_arith)
        requires
            civil_nanos(a) == ea * day_nanos() + ta,
            civil_nanos(b) == eb * day_nanos() + tb,
    ;
    assert(((ea - eb) * day_nanos() + ta) / day_nanos() == ea - eb) by (nonlinear_arith)
        requires
            0 <= ta < day_nanos(),
            day_nanos() == 86_400_000_000_000,
    ;
    lemma_year_days(a.0.0, a.0.1, a.0.2);
    if date_ok(c.0.0, c.0.1, c.0.2) && time_ok(c.1.0, c.1.1, c.1.2, c.1.3) && civil_nanos(c) == civil_nanos(b)
        + (civil_nanos(a) - civil_nanos(b)) {
        lemma_civil_nanos_injective(c, a);
    }
}

} // verus!
