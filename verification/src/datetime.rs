//! Civil datetimes: a date and a time of day, with `replace`, the day
//! boundaries, comparison, the repr and reading from text.
use vstd::prelude::*;
use vstd::string::StrSliceExecFns;
use crate::compare::{CompareOp, apply_op, op_holds, lex_sign, lex_compare, ints};
use crate::date::{RyDate, DateError, date_ok, date_replace_ok, date_replace_result, next_date, prev_date};
use crate::time::{RyTime, time_ok, time_with_ok, time_replaced};
use crate::text::{int_text, push_char, push_i64, push_str};
use crate::units::JiffEra;
use crate::timestamp::{RyTimestamp, jiff_timestamp_parse};
use crate::shift::civil_nanos;

verus! {

/// The repr: `DateTime(year=.., month=.., day=.., hour=.., minute=..,
/// second=.., subsec_nanosecond=..)`.
pub open spec fn datetime_repr_text(d: (int, int, int), t: (int, int, int, int)) -> Seq<char> {
    seq!['D', 'a', 't', 'e', 'T', 'i', 'm', 'e', '(', 'y', 'e', 'a', 'r', '='] + int_text(d.0)
        + seq![',', ' ', 'm', 'o', 'n', 't', 'h', '='] + int_text(d.1) + seq![',', ' ', 'd', 'a',
        'y', '='] + int_text(d.2) + seq![',', ' ', 'h', 'o', 'u', 'r', '='] + int_text(t.0) + seq![
        ',', ' ', 'm', 'i', 'n', 'u', 't', 'e', '='] + int_text(t.1) + seq![',', ' ', 's', 'e', 'c',
        'o', 'n', 'd', '='] + int_text(t.2) + seq![',', ' ', 's', 'u', 'b', 's', 'e', 'c', '_', 'n',
        'a', 'n', 'o', 's', 'e', 'c', 'o', 'n', 'd', '='] + int_text(t.3) + seq![')']
}

/// Whether text ends with `Z`.
pub open spec fn ends_with_z(s: Seq<char>) -> bool {
    s.len() > 0 && s.last() == 'Z'
}

/// What `jiff` prints for a datetime (`2024-03-15T10:30:00`).
pub uninterp spec fn jiff_datetime_text(d: (int, int, int), t: (int, int, int, int)) -> Seq<char>;

/// What `jiff`'s ISO 8601 printer prints for a datetime with `p` fractional
/// digits.
pub uninterp spec fn jiff_datetime_iso_text(d: (int, int, int), t: (int, int, int, int), p: int) -> Seq<char>;

/// The datetime `jiff` parses from text, if any.
pub uninterp spec fn jiff_datetime_parse(s: Seq<char>) -> Option<((int, int, int), (int, int, int, int))>;

/// What `jiff` prints for a datetime under a `strftime` format (lenient: an
/// unknown directive is printed as it stands).
pub uninterp spec fn jiff_datetime_strftime(fmt: Seq<char>, d: (int, int, int), t: (int, int, int, int)) -> Seq<char>;

/// The datetime `jiff` reads from text under a `strptime` format, if any.
pub uninterp spec fn jiff_datetime_strptime(fmt: Seq<char>, s: Seq<char>) -> Option<((int, int, int), (int, int, int, int))>;

/// What `replace` takes as its positional argument: a date or a time whose
/// parts become the base of the builder.
pub enum ReplaceBase {
    Date(RyDate),
    Time(RyTime),
}

/// Why a datetime could not be made (Python's `ValueError`).
#[derive(Clone, Copy, Debug, PartialEq, Eq, Structural)]
pub enum DateTimeError {
    /// A part is out of range, the date does not exist, or sub-second parts
    /// conflict.
    OutOfRange,
}

/// A civil date and time of day.
#[derive(Clone, Copy, Debug, PartialEq, Eq, Hash, Structural)]
pub struct RyDateTime {
    date: RyDate,
    time: RyTime,
}

impl View for RyDateTime {
    type V = ((int, int, int), (int, int, int, int));

    /// The date's and the time's parts.
    closed spec fn view(&self) -> ((int, int, int), (int, int, int, int)) {
        (self.date@, self.time@)
    }
}

/// The parts as mathematical integers.
pub open spec fn parts_view(p: ((i16, i8, i8), (i8, i8, i8, i32))) -> ((int, int, int), (int, int, int, int)) {
    ((p.0.0 as int, p.0.1 as int, p.0.2 as int), (p.1.0 as int, p.1.1 as int, p.1.2 as int, p.1.3 as int))
}

/// Whether parts name an existing date and time.
pub open spec fn parts_ok(p: ((i16, i8, i8), (i8, i8, i8, i32))) -> bool {
    date_ok(p.0.0 as int, p.0.1 as int, p.0.2 as int) && time_ok(p.1.0 as int, p.1.1 as int,
        p.1.2 as int, p.1.3 as int)
}

/// A datetime printed by `jiff`'s `Display` for `jiff::civil::DateTime`.
#[verifier::external_body]
fn jiff_datetime_to_string(p: ((i16, i8, i8), (i8, i8, i8, i32))) -> (r: String)
    requires
        parts_ok(p),
    ensures
        r@ == jiff_datetime_text(parts_view(p).0, parts_view(p).1),
{
    let ((y, m, d), (h, mi, s, n)) = p;
    jiff::civil::date(y, m, d).at(h, mi, s, n).to_string()
}

/// A datetime printed by `jiff`'s `DateTimePrinter` (separator `T`) with
/// `prec` fractional digits.
#[verifier::external_body]
fn jiff_datetime_to_iso(p: ((i16, i8, i8), (i8, i8, i8, i32)), prec: u8) -> (r: String)
    requires
        parts_ok(p),
        prec <= 9,
    ensures
        r@ == jiff_datetime_iso_text(parts_view(p).0, parts_view(p).1, prec as int),
{
    let ((y, m, d), (h, mi, s, n)) = p;
    let printer = jiff::fmt::temporal::DateTimePrinter::new().separator(b'T').precision(Some(prec));
    printer.datetime_to_string(&jiff::civil::date(y, m, d).at(h, mi, s, n))
}

/// A datetime parsed by `jiff`'s `FromStr` for `jiff::civil::DateTime`.
#[verifier::external_body]
fn jiff_datetime_from_str(s: &str) -> (r: Option<((i16, i8, i8), (i8, i8, i8, i32))>)
    ensures
        r is None <==> jiff_datetime_parse(s@) is None,
        r matches Some(v) ==> jiff_datetime_parse(s@) == Some(parts_view(v)) && parts_ok(v),
{
    let x = s.parse::<jiff::civil::DateTime>().ok()?;
    Some(((x.year(), x.month(), x.day()), (x.hour(), x.minute(), x.second(), x.subsec_nanosecond())))
}

/// A datetime formatted by `jiff`'s `DateTime::strftime` (whose `Display`
/// never fails: it formats leniently).
#[verifier::external_body]
fn jiff_datetime_format(fmt: &str, p: ((i16, i8, i8), (i8, i8, i8, i32))) -> (r: String)
    requires
        parts_ok(p),
    ensures
        r@ == jiff_datetime_strftime(fmt@, parts_view(p).0, parts_view(p).1),
{
    let ((y, m, d), (h, mi, s, n)) = p;
    jiff::civil::date(y, m, d).at(h, mi, s, n).strftime(fmt).to_string()
}

/// A datetime read by `jiff`'s `DateTime::strptime`.
#[verifier::external_body]
fn jiff_datetime_read(fmt: &str, s: &str) -> (r: Option<((i16, i8, i8), (i8, i8, i8, i32))>)
    ensures
        r is None <==> jiff_datetime_strptime(fmt@, s@) is None,
        r matches Some(v) ==> jiff_datetime_strptime(fmt@, s@) == Some(parts_view(v)) && parts_ok(v),
{
    let x = jiff::civil::DateTime::strptime(fmt, s).ok()?;
    Some(((x.year(), x.month(), x.day()), (x.hour(), x.minute(), x.second(), x.subsec_nanosecond())))
}

impl RyDate {
    /// This date at the given time of day (`Date.at`).
    pub fn at(&self, hour: i8, minute: i8, second: i8, nanosecond: i32) -> (r: RyDateTime)
        requires
            time_ok(hour as int, minute as int, second as int, nanosecond as int),
        ensures
            r@ == (self@, (hour as int, minute as int, second as int, nanosecond as int)),
    {
        RyDateTime { date: *self, time: RyTime::from_valid(hour, minute, second, nanosecond) }
    }
}

impl RyTime {
    /// This time on the given date (`Time.on`).
    pub fn on(&self, year: i16, month: i8, day: i8) -> (r: RyDateTime)
        requires
            date_ok(year as int, month as int, day as int),
        ensures
            r@ == ((year as int, month as int, day as int), self@),
    {
        RyDateTime { date: RyDate::from_valid(year, month, day), time: *self }
    }
}

impl RyDateTime {
    /// The datetime of the given parts (the Python constructor
    /// `DateTime(year, month, day, hour=0, minute=0, second=0,
    /// subsec_nanosecond=0)`).
    pub fn py_new(
        year: i16,
        month: i8,
        day: i8,
        hour: Option<i8>,
        minute: Option<i8>,
        second: Option<i8>,
        subsec_nanosecond: Option<i32>,
    ) -> (r: Result<RyDateTime, DateTimeError>)
        ensures
            ({
                let h = match hour { Some(v) => v as int, None => 0 };
                let m = match minute { Some(v) => v as int, None => 0 };
                let s = match second { Some(v) => v as int, None => 0 };
                let n = match subsec_nanosecond { Some(v) => v as int, None => 0 };
                &&& (r is Ok <==> date_ok(year as int, month as int, day as int) && time_ok(h, m, s, n))
                &&& (r matches Ok(v) ==> v@ == ((year as int, month as int, day as int), (h, m, s, n)))
            }),
    {
        let d = match RyDate::py_new(year, month, day) {
            Ok(d) => d,
            Err(_) => return Err(DateTimeError::OutOfRange),
        };
        match RyTime::py_new(hour, minute, second, subsec_nanosecond) {
            Ok(t) => Ok(RyDateTime { date: d, time: t }),
            Err(_) => Err(DateTimeError::OutOfRange),
        }
    }

    /// The datetime of a date and a time (`from_parts`).
    pub fn from_parts(date: &RyDate, time: &RyTime) -> (r: RyDateTime)
        ensures
            r@ == (date@, time@),
    {
        RyDateTime { date: *date, time: *time }
    }

    /// The earliest datetime, -9999-01-01T00:00:00.
    #[allow(non_snake_case)]
    pub fn MIN() -> (r: RyDateTime)
        ensures
            r@ == ((-9999int, 1int, 1int), (0int, 0int, 0int, 0int)),
    {
        RyDateTime { date: RyDate::MIN(), time: RyTime::MIN() }
    }

    /// The latest datetime, 9999-12-31T23:59:59.999999999.
    #[allow(non_snake_case)]
    pub fn MAX() -> (r: RyDateTime)
        ensures
            r@ == ((9999int, 12int, 31int), (23int, 59int, 59int, 999_999_999int)),
    {
        RyDateTime { date: RyDate::MAX(), time: RyTime::MAX() }
    }

    /// 0000-01-01T00:00:00.
    #[allow(non_snake_case)]
    pub fn ZERO() -> (r: RyDateTime)
        ensures
            r@ == ((0int, 1int, 1int), (0int, 0int, 0int, 0int)),
    {
        RyDateTime { date: RyDate::ZERO(), time: RyTime::midnight() }
    }

    /// The datetime of parts known to name an existing date and time.
    pub(crate) fn from_checked_parts(p: ((i16, i8, i8), (i8, i8, i8, i32))) -> (r: RyDateTime)
        requires
            parts_ok(p),
        ensures
            r@ == parts_view(p),
    {
        let ((y, m, d), (h, mi, s, n)) = p;
        RyDateTime { date: RyDate::from_valid(y, m, d), time: RyTime::from_valid(h, mi, s, n) }
    }

    /// The parts as plain values.
    pub(crate) fn parts(&self) -> (r: ((i16, i8, i8), (i8, i8, i8, i32)))
        ensures
            parts_view(r) == self@,
            parts_ok(r),
    {
        let y = self.date.year();
        let h = self.time.hour();
        ((y, self.date.month(), self.date.day()), (h, self.time.minute(), self.time.second(),
            self.time.subsec_nanosecond()))
    }

    /// The date part.
    pub fn date(&self) -> (r: RyDate)
        ensures
            r@ == self@.0,
    {
        self.date
    }

    /// The time part.
    pub fn time(&self) -> (r: RyTime)
        ensures
            r@ == self@.1,
    {
        self.time
    }

    /// The datetime at the start of its day, midnight (`start_of_day`).
    pub fn start_of_day(&self) -> (r: RyDateTime)
        ensures
            r@ == (self@.0, (0int, 0int, 0int, 0int)),
    {
        RyDateTime { date: self.date, time: RyTime::midnight() }
    }

    /// The last nanosecond of its day (`end_of_day`).
    pub fn end_of_day(&self) -> (r: RyDateTime)
        ensures
            r@ == (self@.0, (23int, 59int, 59int, 999_999_999int)),
    {
        RyDateTime { date: self.date, time: RyTime::MAX() }
    }

    /// The same time on the first day of the month (`first_of_month`).
    pub fn first_of_month(&self) -> (r: RyDateTime)
        ensures
            r@ == ((self@.0.0, self@.0.1, 1int), self@.1),
    {
        RyDateTime { date: self.date.first_of_month(), time: self.time }
    }

    /// The same time on the last day of the month (`last_of_month`).
    pub fn last_of_month(&self) -> (r: RyDateTime)
        ensures
            r@ == ((self@.0.0, self@.0.1, crate::date::days_in_month(self@.0.0, self@.0.1)), self@.1),
    {
        RyDateTime { date: self.date.last_of_month(), time: self.time }
    }

    /// The same time on January 1 (`first_of_year`).
    pub fn first_of_year(&self) -> (r: RyDateTime)
        ensures
            r@ == ((self@.0.0, 1int, 1int), self@.1),
    {
        RyDateTime { date: self.date.first_of_year(), time: self.time }
    }

    /// The same time on December 31 (`last_of_year`).
    pub fn last_of_year(&self) -> (r: RyDateTime)
        ensures
            r@ == ((self@.0.0, 12int, 31int), self@.1),
    {
        RyDateTime { date: self.date.last_of_year(), time: self.time }
    }

    /// The same time on the next day; fails on the last supported day.
    pub fn tomorrow(&self) -> (r: Result<RyDateTime, DateTimeError>)
        ensures
            r is Err <==> self@.0 == (9999int, 12int, 31int),
            r matches Ok(v) ==> v@ == (next_date(self@.0.0, self@.0.1, self@.0.2), self@.1),
    {
        match self.date.tomorrow() {
            Ok(d) => Ok(RyDateTime { date: d, time: self.time }),
            Err(_) => Err(DateTimeError::OutOfRange),
        }
    }

    /// The same time on the previous day; fails on the first supported day.
    pub fn yesterday(&self) -> (r: Result<RyDateTime, DateTimeError>)
        ensures
            r is Err <==> self@.0 == (-9999int, 1int, 1int),
            r matches Ok(v) ==> v@ == (prev_date(self@.0.0, self@.0.1, self@.0.2), self@.1),
    {
        match self.date.yesterday() {
            Ok(d) => Ok(RyDateTime { date: d, time: self.time }),
            Err(_) => Err(DateTimeError::OutOfRange),
        }
    }

    /// A copy with the given parts replaced (`replace`), as `jiff`'s
    /// `DateTimeWith` builder does: a positional date or time, then the
    /// `date` and `time` keywords, set the base parts; the other keywords
    /// then replace single parts of the date and of the time.
    pub fn replace(
        &self,
        obj: Option<ReplaceBase>,
        date: Option<RyDate>,
        time: Option<RyTime>,
        year: Option<i16>,
        era_year: Option<(i16, JiffEra)>,
        month: Option<i8>,
        day: Option<i8>,
        day_of_year: Option<i16>,
        day_of_year_no_leap: Option<i16>,
        hour: Option<i8>,
        minute: Option<i8>,
        second: Option<i8>,
        millisecond: Option<i16>,
        microsecond: Option<i16>,
        nanosecond: Option<i16>,
        subsec_nanosecond: Option<i32>,
    ) -> (r: Result<RyDateTime, DateTimeError>)
        ensures
            ({
                let bd = match date {
                    Some(d) => d@,
                    None => match obj {
                        Some(ReplaceBase::Date(d)) => d@,
                        _ => self@.0,
                    },
                };
                let bt = match time {
                    Some(t) => t@,
                    None => match obj {
                        Some(ReplaceBase::Time(t)) => t@,
                        _ => self@.1,
                    },
                };
                &&& (r is Ok <==> date_replace_ok(bd.0, bd.1, bd.2, year, era_year, month, day,
                    day_of_year, day_of_year_no_leap) && time_with_ok(bt, hour, minute, second,
                    millisecond, microsecond, nanosecond, subsec_nanosecond))
                &&& (r matches Ok(v) ==> date_replace_result(v@.0, bd.0, bd.1, bd.2, year, era_year,
                    month, day, day_of_year, day_of_year_no_leap))
                &&& (r matches Ok(v) ==> v@.1 == time_replaced(bt, hour, minute, second, millisecond,
                    microsecond, nanosecond, subsec_nanosecond))
            }),
    {
        let mut bd = self.date;
        let mut bt = self.time;
        match obj {
            Some(ReplaceBase::Date(d)) => {
                bd = d;
            },
            Some(ReplaceBase::Time(t)) => {
                bt = t;
            },
            None => {},
        }
        match date {
            Some(d) => {
                bd = d;
            },
            None => {},
        }
        match time {
            Some(t) => {
                bt = t;
            },
            None => {},
        }
        let d = match bd.replace(year, era_year, month, day, day_of_year, day_of_year_no_leap) {
            Ok(d) => d,
            Err(_) => return Err(DateTimeError::OutOfRange),
        };
        match bt.with_parts(hour, minute, second, millisecond, microsecond, nanosecond, subsec_nanosecond) {
            Some(t) => Ok(RyDateTime { date: d, time: t }),
            None => Err(DateTimeError::OutOfRange),
        }
    }

    /// Compares two datetimes chronologically with a Python comparison
    /// operator.
    pub fn rich_compare(&self, other: &RyDateTime, op: CompareOp) -> (r: bool)
        ensures
            r == op_holds(op, lex_sign(
                seq![self@.0.0, self@.0.1, self@.0.2, self@.1.0, self@.1.1, self@.1.2, self@.1.3],
                seq![other@.0.0, other@.0.1, other@.0.2, other@.1.0, other@.1.1, other@.1.2, other@.1.3],
            )),
    {
        let a = [self.date.year() as i64, self.date.month() as i64, self.date.day() as i64,
            self.time.hour() as i64, self.time.minute() as i64, self.time.second() as i64,
            self.time.subsec_nanosecond() as i64];
        let b = [other.date.year() as i64, other.date.month() as i64, other.date.day() as i64,
            other.time.hour() as i64, other.time.minute() as i64, other.time.second() as i64,
            other.time.subsec_nanosecond() as i64];
        let s = lex_compare(&a, &b);
        assert(ints(a@) =~= seq![self@.0.0, self@.0.1, self@.0.2, self@.1.0, self@.1.1, self@.1.2, self@.1.3]);
        assert(ints(b@) =~= seq![other@.0.0, other@.0.1, other@.0.2, other@.1.0, other@.1.1, other@.1.2, other@.1.3]);
        apply_op(op, s)
    }

    /// The repr, `DateTime(year=.., month=.., day=.., hour=.., minute=..,
    /// second=.., subsec_nanosecond=..)`.
    pub fn repr(&self) -> (r: String)
        ensures
            r@ == datetime_repr_text(self@.0, self@.1),
    {
        let mut out = String::new();
        proof {
            reveal_strlit("DateTime(year=");
            reveal_strlit(", month=");
            reveal_strlit(", day=");
            reveal_strlit(", hour=");
            reveal_strlit(", minute=");
            reveal_strlit(", second=");
            reveal_strlit(", subsec_nanosecond=");
        }
        push_str(&mut out, "DateTime(year=");
        push_i64(&mut out, self.date.year() as i64);
        push_str(&mut out, ", month=");
        push_i64(&mut out, self.date.month() as i64);
        push_str(&mut out, ", day=");
        push_i64(&mut out, self.date.day() as i64);
        push_str(&mut out, ", hour=");
        push_i64(&mut out, self.time.hour() as i64);
        push_str(&mut out, ", minute=");
        push_i64(&mut out, self.time.minute() as i64);
        push_str(&mut out, ", second=");
        push_i64(&mut out, self.time.second() as i64);
        push_str(&mut out, ", subsec_nanosecond=");
        push_i64(&mut out, self.time.subsec_nanosecond() as i64);
        push_char(&mut out, ')');
        assert(out@ =~= datetime_repr_text(self@.0, self@.1));
        out
    }

    /// The datetime printed by `jiff` (`str(dt)`, `to_string`).
    pub fn to_string(&self) -> (r: String)
        ensures
            r@ == jiff_datetime_text(self@.0, self@.1),
    {
        jiff_datetime_to_string(self.parts())
    }

    /// The ISO 8601 form with a `T` separator (`isoformat`): no fraction
    /// for a whole second, else six fractional digits.
    pub fn isoformat(&self) -> (r: String)
        ensures
            r@ == jiff_datetime_iso_text(self@.0, self@.1, if self@.1.3 == 0 { 0 } else { 6 }),
    {
        let p: u8 = if self.time.subsec_nanosecond() == 0 { 0 } else { 6 };
        jiff_datetime_to_iso(self.parts(), p)
    }

    /// Reads a datetime from text (`from_str`, `parse`): text ending in `Z`
    /// is read as an instant and taken in UTC, other text as a civil
    /// datetime; `None` where `jiff` refuses the text.
    pub fn from_str(s: &str) -> (r: Option<RyDateTime>)
        ensures
            ends_with_z(s@) ==> (r is None <==> jiff_timestamp_parse(s@) is None),
            ends_with_z(s@) ==> (r matches Some(v) ==> jiff_timestamp_parse(s@) == Some(civil_nanos(v@))),
            !ends_with_z(s@) ==> (r is None <==> jiff_datetime_parse(s@) is None),
            !ends_with_z(s@) ==> (r matches Some(v) ==> jiff_datetime_parse(s@) == Some(v@)),
    {
        let n = s.unicode_len();
        let z = n > 0 && s.get_char(n - 1) == 'Z';
        if z {
            return match RyTimestamp::from_str(s) {
                Some(t) => Some(t.datetime()),
                None => None,
            };
        }
        match jiff_datetime_from_str(s) {
            Some(((y, m, d), (h, mi, sec, n))) => Some(RyDateTime {
                date: RyDate::from_valid(y, m, d),
                time: RyTime::from_valid(h, mi, sec, n),
            }),
            None => None,
        }
    }

    /// The datetime formatted under a `strftime` format (`strftime`,
    /// `__format__`), as `jiff` formats it.
    pub fn strftime(&self, fmt: &str) -> (r: String)
        ensures
            r@ == jiff_datetime_strftime(fmt@, self@.0, self@.1),
    {
        jiff_datetime_format(fmt, self.parts())
    }

    /// Reads a datetime from text under a `strptime` format, as `jiff`
    /// reads it; `None` where `jiff` refuses the text.
    pub fn strptime(s: &str, fmt: &str) -> (r: Option<RyDateTime>)
        ensures
            r is None <==> jiff_datetime_strptime(fmt@, s@) is None,
            r matches Some(v) ==> jiff_datetime_strptime(fmt@, s@) == Some(v@),
    {
        match jiff_datetime_read(fmt, s) {
            Some(((y, m, d), (h, mi, sec, n))) => Some(RyDateTime {
                date: RyDate::from_valid(y, m, d),
                time: RyTime::from_valid(h, mi, sec, n),
            }),
            None => None,
        }
    }
}

} // verus!
