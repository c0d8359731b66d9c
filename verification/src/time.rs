//! Civil times of day: which times exist, their sub-second parts,
//! `replace`, comparison and the repr.
use vstd::prelude::*;
use crate::compare::{CompareOp, apply_op, op_holds, lex_sign, lex_compare, ints};
use crate::text::{int_text, push_char, push_i64, push_str};

verus! {

/// Whether `h:m:s` and `ns` sub-second nanoseconds make a time of day.
pub open spec fn time_ok(h: int, m: int, s: int, ns: int) -> bool {
    0 <= h <= 23 && 0 <= m <= 59 && 0 <= s <= 59 && 0 <= ns <= 999_999_999
}

/// The repr: `Time(hour=H, minute=M, second=S, nanosecond=N)`, `N` being
/// the sub-second nanoseconds.
pub open spec fn time_repr_text(h: int, m: int, s: int, ns: int) -> Seq<char> {
    seq!['T', 'i', 'm', 'e', '(', 'h', 'o', 'u', 'r', '='] + int_text(h) + seq![',', ' ', 'm', 'i',
        'n', 'u', 't', 'e', '='] + int_text(m) + seq![',', ' ', 's', 'e', 'c', 'o', 'n', 'd', '=']
        + int_text(s) + seq![',', ' ', 'n', 'a', 'n', 'o', 's', 'e', 'c', 'o', 'n', 'd', '=']
        + int_text(ns) + seq![')']
}

/// What `jiff` prints for a time (`HH:MM:SS` with the needed fraction).
pub uninterp spec fn jiff_time_text(h: int, m: int, s: int, ns: int) -> Seq<char>;

/// What `jiff`'s ISO 8601 printer prints for a time with `p` fractional
/// digits.
pub uninterp spec fn jiff_time_iso_text(h: int, m: int, s: int, ns: int, p: int) -> Seq<char>;

/// The time `jiff` parses from text, if any.
pub uninterp spec fn jiff_time_parse(t: Seq<char>) -> Option<(int, int, int, int)>;

/// What `jiff` prints for a time under a `strftime` format (lenient: an
/// unknown directive is printed as it stands).
pub uninterp spec fn jiff_time_strftime(fmt: Seq<char>, t: (int, int, int, int)) -> Seq<char>;

/// The time `jiff` reads from text under a `strptime` format, if any.
pub uninterp spec fn jiff_time_strptime(fmt: Seq<char>, s: Seq<char>) -> Option<(int, int, int, int)>;

/// Why a time could not be made.
#[derive(Clone, Copy, Debug, PartialEq, Eq, Structural)]
pub enum TimeError {
    /// A part is out of range (Python's `ValueError`).
    OutOfRange,
    /// Sub-second nanoseconds were given together with milli-, micro- or
    /// nanoseconds (Python's `TypeError`).
    ConflictingSubsec,
}

/// Whether `jiff`'s `TimeWith` builder succeeds with these parts:
/// sub-second nanoseconds may not come with milli-, micro- or nanoseconds;
/// hour, minute and second must be in range, and either the sub-second
/// nanoseconds or each of the milli-, micro- and nanoseconds (0..=999).
pub open spec fn time_with_ok(
    t: (int, int, int, int),
    hour: Option<i8>,
    minute: Option<i8>,
    second: Option<i8>,
    millisecond: Option<i16>,
    microsecond: Option<i16>,
    nanosecond: Option<i16>,
    subsec: Option<i32>,
) -> bool {
    let h = match hour { Some(v) => v as int, None => t.0 };
    let m = match minute { Some(v) => v as int, None => t.1 };
    let s = match second { Some(v) => v as int, None => t.2 };
    let ms = match millisecond { Some(v) => v as int, None => t.3 / 1_000_000 };
    let us = match microsecond { Some(v) => v as int, None => (t.3 / 1000) % 1000 };
    let ns = match nanosecond { Some(v) => v as int, None => t.3 % 1000 };
    if subsec is Some && (millisecond is Some || microsecond is Some || nanosecond is Some) {
        false
    } else {
        match subsec {
            Some(v) => time_ok(h, m, s, v as int),
            None => time_ok(h, m, s, 0) && 0 <= ms <= 999 && 0 <= us <= 999 && 0 <= ns <= 999,
        }
    }
}

/// Whether `replace` on a time succeeds: nothing given always succeeds,
/// otherwise as the builder decides.
pub open spec fn time_replace_ok(
    t: (int, int, int, int),
    hour: Option<i8>,
    minute: Option<i8>,
    second: Option<i8>,
    millisecond: Option<i16>,
    microsecond: Option<i16>,
    nanosecond: Option<i16>,
    subsec: Option<i32>,
) -> bool {
    (hour is None && minute is None && second is None && millisecond is None && microsecond is None
        && nanosecond is None && subsec is None) || time_with_ok(t, hour, minute, second,
        millisecond, microsecond, nanosecond, subsec)
}

/// The time `replace` gives when it succeeds.
pub open spec fn time_replaced(
    t: (int, int, int, int),
    hour: Option<i8>,
    minute: Option<i8>,
    second: Option<i8>,
    millisecond: Option<i16>,
    microsecond: Option<i16>,
    nanosecond: Option<i16>,
    subsec: Option<i32>,
) -> (int, int, int, int) {
    let h = match hour { Some(v) => v as int, None => t.0 };
    let m = match minute { Some(v) => v as int, None => t.1 };
    let s = match second { Some(v) => v as int, None => t.2 };
    let ms = match millisecond { Some(v) => v as int, None => t.3 / 1_000_000 };
    let us = match microsecond { Some(v) => v as int, None => (t.3 / 1000) % 1000 };
    let ns = match nanosecond { Some(v) => v as int, None => t.3 % 1000 };
    match subsec {
        Some(v) => (h, m, s, v as int),
        None => (h, m, s, ms * 1_000_000 + us * 1000 + ns),
    }
}

/// A time of day with nanosecond precision.
#[derive(Clone, Copy, Debug, PartialEq, Eq, Hash, Structural)]
pub struct RyTime {
    hour: i8,
    minute: i8,
    second: i8,
    subsec: i32,
}

impl View for RyTime {
    type V = (int, int, int, int);

    /// Hour, minute, second and sub-second nanoseconds.
    closed spec fn view(&self) -> (int, int, int, int) {
        (self.hour as int, self.minute as int, self.second as int, self.subsec as int)
    }
}

/// Whether a time exists, as `jiff`'s `Time::new` checks it: hours
/// 0..=23, minutes and seconds 0..=59 and sub-second nanoseconds
/// 0..=999,999,999.
fn time_exists(h: i8, m: i8, s: i8, ns: i32) -> (r: bool)
    ensures
        r == time_ok(h as int, m as int, s as int, ns as int),
{
    0 <= h && h <= 23 && 0 <= m && m <= 59 && 0 <= s && s <= 59 && 0 <= ns && ns <= 999_999_999
}

/// A time printed by `jiff`'s `Display` for `jiff::civil::Time`.
#[verifier::external_body]
fn jiff_time_to_string(h: i8, m: i8, s: i8, ns: i32) -> (r: String)
    requires
        time_ok(h as int, m as int, s as int, ns as int),
    ensures
        r@ == jiff_time_text(h as int, m as int, s as int, ns as int),
{
    jiff::civil::time(h, m, s, ns).to_string()
}

/// A time printed by `jiff`'s `DateTimePrinter` with `p` fractional digits.
#[verifier::external_body]
fn jiff_time_to_iso(h: i8, m: i8, s: i8, ns: i32, p: u8) -> (r: String)
    requires
        time_ok(h as int, m as int, s as int, ns as int),
        p <= 9,
    ensures
        r@ == jiff_time_iso_text(h as int, m as int, s as int, ns as int, p as int),
{
    let printer = jiff::fmt::temporal::DateTimePrinter::new().separator(b'T').precision(Some(p));
    printer.time_to_string(&jiff::civil::time(h, m, s, ns))
}

/// A time parsed by `jiff`'s `FromStr` for `jiff::civil::Time`.
#[verifier::external_body]
fn jiff_time_from_str(t: &str) -> (r: Option<(i8, i8, i8, i32)>)
    ensures
        r is None <==> jiff_time_parse(t@) is None,
        r matches Some(v) ==> jiff_time_parse(t@) == Some((v.0 as int, v.1 as int, v.2 as int, v.3 as int)),
        r matches Some(v) ==> time_ok(v.0 as int, v.1 as int, v.2 as int, v.3 as int),
{
    let x = t.parse::<jiff::civil::Time>().ok()?;
    Some((x.hour(), x.minute(), x.second(), x.subsec_nanosecond()))
}

/// A time formatted by `jiff`'s `Time::strftime` (whose `Display` never
/// fails: it formats leniently).
#[verifier::external_body]
fn jiff_time_format(fmt: &str, h: i8, m: i8, s: i8, ns: i32) -> (r: String)
    requires
        time_ok(h as int, m as int, s as int, ns as int),
    ensures
        r@ == jiff_time_strftime(fmt@, (h as int, m as int, s as int, ns as int)),
{
    jiff::civil::time(h, m, s, ns).strftime(fmt).to_string()
}

/// A time read by `jiff`'s `Time::strptime`.
#[verifier::external_body]
fn jiff_time_read(fmt: &str, t: &str) -> (r: Option<(i8, i8, i8, i32)>)
    ensures
        r is None <==> jiff_time_strptime(fmt@, t@) is None,
        r matches Some(v) ==> jiff_time_strptime(fmt@, t@) == Some((v.0 as int, v.1 as int, v.2 as int, v.3 as int)),
        r matches Some(v) ==> time_ok(v.0 as int, v.1 as int, v.2 as int, v.3 as int),
{
    let x = jiff::civil::Time::strptime(fmt, t).ok()?;
    Some((x.hour(), x.minute(), x.second(), x.subsec_nanosecond()))
}

impl RyTime {
    #[verifier::type_invariant]
    spec fn inv(self) -> bool {
        time_ok(self.hour as int, self.minute as int, self.second as int, self.subsec as int)
    }

    /// The time `hour:minute:second` plus `nanosecond` sub-second
    /// nanoseconds, each missing part 0 (the Python constructor).
    pub fn py_new(hour: Option<i8>, minute: Option<i8>, second: Option<i8>, nanosecond: Option<i32>) -> (r: Result<
        RyTime,
        TimeError,
    >)
        ensures
            ({
                let h = match hour { Some(v) => v as int, None => 0 };
                let m = match minute { Some(v) => v as int, None => 0 };
                let s = match second { Some(v) => v as int, None => 0 };
                let n = match nanosecond { Some(v) => v as int, None => 0 };
                &&& (r is Ok <==> time_ok(h, m, s, n))
                &&& (r matches Ok(t) ==> t@ == (h, m, s, n))
                &&& (r matches Err(e) ==> e == TimeError::OutOfRange)
            }),
    {
        let h = match hour { Some(v) => v, None => 0 };
        let m = match minute { Some(v) => v, None => 0 };
        let s = match second { Some(v) => v, None => 0 };
        let n = match nanosecond { Some(v) => v, None => 0 };
        if time_exists(h, m, s, n) {
            Ok(RyTime { hour: h, minute: m, second: s, subsec: n })
        } else {
            Err(TimeError::OutOfRange)
        }
    }

    /// The time from parts known to be in range.
    pub(crate) fn from_valid(h: i8, m: i8, s: i8, ns: i32) -> (r: RyTime)
        requires
            time_ok(h as int, m as int, s as int, ns as int),
        ensures
            r@ == (h as int, m as int, s as int, ns as int),
    {
        RyTime { hour: h, minute: m, second: s, subsec: ns }
    }

    /// Midnight, 00:00:00 (also `Time.MIN`).
    pub fn midnight() -> (r: RyTime)
        ensures
            r@ == (0int, 0int, 0int, 0int),
    {
        RyTime { hour: 0, minute: 0, second: 0, subsec: 0 }
    }

    /// The earliest time, midnight.
    #[allow(non_snake_case)]
    pub fn MIN() -> (r: RyTime)
        ensures
            r@ == (0int, 0int, 0int, 0int),
    {
        RyTime::midnight()
    }

    /// The latest time, 23:59:59.999999999.
    #[allow(non_snake_case)]
    pub fn MAX() -> (r: RyTime)
        ensures
            r@ == (23int, 59int, 59int, 999_999_999int),
    {
        RyTime { hour: 23, minute: 59, second: 59, subsec: 999_999_999 }
    }

    /// The hour, 0..=23; every time is in range.
    pub fn hour(&self) -> (r: i8)
        ensures
            r as int == self@.0,
            time_ok(self@.0, self@.1, self@.2, self@.3),
    {
        proof {
            use_type_invariant(self);
        }
        self.hour
    }

    /// The minute, 0..=59.
    pub fn minute(&self) -> (r: i8)
        ensures
            r as int == self@.1,
    {
        self.minute
    }

    /// The second, 0..=59.
    pub fn second(&self) -> (r: i8)
        ensures
            r as int == self@.2,
    {
        self.second
    }

    /// The sub-second nanoseconds, 0..=999,999,999.
    pub fn subsec_nanosecond(&self) -> (r: i32)
        ensures
            r as int == self@.3,
            0 <= r <= 999_999_999,
    {
        proof {
            use_type_invariant(self);
        }
        self.subsec
    }

    /// The whole milliseconds of the sub-second part.
    pub fn millisecond(&self) -> (r: i16)
        ensures
            r as int == self@.3 / 1_000_000,
    {
        (self.subsec_nanosecond() / 1_000_000) as i16
    }

    /// The microseconds within the millisecond.
    pub fn microsecond(&self) -> (r: i16)
        ensures
            r as int == (self@.3 / 1000) % 1000,
    {
        ((self.subsec_nanosecond() / 1000) % 1000) as i16
    }

    /// The nanoseconds within the microsecond.
    pub fn nanosecond(&self) -> (r: i16)
        ensures
            r as int == self@.3 % 1000,
    {
        (self.subsec_nanosecond() % 1000) as i16
    }

    /// A copy with the given parts replaced (`replace`): nothing given
    /// returns the time unchanged; sub-second nanoseconds together with
    /// milli-, micro- or nanoseconds are refused; otherwise the parts are
    /// combined as `jiff`'s `TimeWith` builder does.
    pub fn replace(
        &self,
        hour: Option<i8>,
        minute: Option<i8>,
        second: Option<i8>,
        millisecond: Option<i16>,
        microsecond: Option<i16>,
        nanosecond: Option<i16>,
        subsec_nanosecond: Option<i32>,
    ) -> (r: Result<RyTime, TimeError>)
        ensures
            r is Ok <==> time_replace_ok(self@, hour, minute, second, millisecond, microsecond,
                nanosecond, subsec_nanosecond),
            r matches Ok(t) ==> t@ == time_replaced(self@, hour, minute, second, millisecond,
                microsecond, nanosecond, subsec_nanosecond),
            r matches Err(e) ==> (e == TimeError::ConflictingSubsec <==> (subsec_nanosecond is Some
                && (millisecond is Some || microsecond is Some || nanosecond is Some))),
    {
        let h0 = self.hour();
        if hour.is_none() && minute.is_none() && second.is_none() && millisecond.is_none()
            && microsecond.is_none() && nanosecond.is_none() && subsec_nanosecond.is_none() {
            let same = RyTime { hour: h0, minute: self.minute(), second: self.second(), subsec: self.subsec_nanosecond() };
            proof {
                let t = self@;
                assert(t.3 == (t.3 / 1_000_000) * 1_000_000 + ((t.3 / 1000) % 1000) * 1000 + t.3 % 1000);
            }
            return Ok(same);
        }
        if subsec_nanosecond.is_some() && (millisecond.is_some() || microsecond.is_some()
            || nanosecond.is_some()) {
            return Err(TimeError::ConflictingSubsec);
        }
        match self.with_parts(hour, minute, second, millisecond, microsecond, nanosecond, subsec_nanosecond) {
            Some(t) => Ok(t),
            None => Err(TimeError::OutOfRange),
        }
    }

    /// The time built as `jiff`'s `TimeWith` builder builds it from this
    /// time and the given parts; `None` where the builder fails.
    pub fn with_parts(
        &self,
        hour: Option<i8>,
        minute: Option<i8>,
        second: Option<i8>,
        millisecond: Option<i16>,
        microsecond: Option<i16>,
        nanosecond: Option<i16>,
        subsec_nanosecond: Option<i32>,
    ) -> (r: Option<RyTime>)
        ensures
            r is Some <==> time_with_ok(self@, hour, minute, second, millisecond, microsecond,
                nanosecond, subsec_nanosecond),
            r matches Some(t) ==> t@ == time_replaced(self@, hour, minute, second, millisecond,
                microsecond, nanosecond, subsec_nanosecond),
    {
        if subsec_nanosecond.is_some() && (millisecond.is_some() || microsecond.is_some()
            || nanosecond.is_some()) {
            return None;
        }
        let h = match hour { Some(v) => v, None => self.hour() };
        let m = match minute { Some(v) => v, None => self.minute() };
        let s = match second { Some(v) => v, None => self.second() };
        match subsec_nanosecond {
            Some(n) => {
                if time_exists(h, m, s, n) {
                    Some(RyTime { hour: h, minute: m, second: s, subsec: n })
                } else {
                    None
                }
            },
            None => {
                if !time_exists(h, m, s, 0) {
                    return None;
                }
                let ms = match millisecond { Some(v) => v, None => self.millisecond() };
                let us = match microsecond { Some(v) => v, None => self.microsecond() };
                let ns = match nanosecond { Some(v) => v, None => self.nanosecond() };
                if ms < 0 || ms > 999 || us < 0 || us > 999 || ns < 0 || ns > 999 {
                    return None;
                }
                let sub: i32 = ms as i32 * 1_000_000 + us as i32 * 1000 + ns as i32;
                Some(RyTime { hour: h, minute: m, second: s, subsec: sub })
            },
        }
    }

    /// Compares two times with a Python comparison operator.
    pub fn rich_compare(&self, other: &RyTime, op: CompareOp) -> (r: bool)
        ensures
            r == op_holds(op, lex_sign(seq![self@.0, self@.1, self@.2, self@.3], seq![other@.0,
                other@.1, other@.2, other@.3])),
    {
        let a = [self.hour() as i64, self.minute() as i64, self.second() as i64, self.subsec_nanosecond() as i64];
        let b = [other.hour() as i64, other.minute() as i64, other.second() as i64, other.subsec_nanosecond() as i64];
        let s = lex_compare(&a, &b);
        assert(ints(a@) =~= seq![self@.0, self@.1, self@.2, self@.3]);
        assert(ints(b@) =~= seq![other@.0, other@.1, other@.2, other@.3]);
        apply_op(op, s)
    }

    /// The repr, `Time(hour=1, minute=2, second=3, nanosecond=4)`.
    pub fn repr(&self) -> (r: String)
        ensures
            r@ == time_repr_text(self@.0, self@.1, self@.2, self@.3),
    {
        let mut out = String::new();
        proof {
            reveal_strlit("Time(hour=");
            reveal_strlit(", minute=");
            reveal_strlit(", second=");
            reveal_strlit(", nanosecond=");
        }
        push_str(&mut out, "Time(hour=");
        push_i64(&mut out, self.hour() as i64);
        push_str(&mut out, ", minute=");
        push_i64(&mut out, self.minute() as i64);
        push_str(&mut out, ", second=");
        push_i64(&mut out, self.second() as i64);
        push_str(&mut out, ", nanosecond=");
        push_i64(&mut out, self.subsec_nanosecond() as i64);
        push_char(&mut out, ')');
        assert(out@ =~= time_repr_text(self@.0, self@.1, self@.2, self@.3));
        out
    }

    /// The time printed by `jiff` (`str(time)`, `to_string`).
    pub fn to_string(&self) -> (r: String)
        ensures
            r@ == jiff_time_text(self@.0, self@.1, self@.2, self@.3),
    {
        let h = self.hour();
        jiff_time_to_string(h, self.minute(), self.second(), self.subsec_nanosecond())
    }

    /// The ISO 8601 form (`isoformat`): no fraction for a whole second,
    /// else six fractional digits.
    pub fn isoformat(&self) -> (r: String)
        ensures
            r@ == jiff_time_iso_text(self@.0, self@.1, self@.2, self@.3, if self@.3 == 0 { 0 } else { 6 }),
    {
        let h = self.hour();
        let p: u8 = if self.subsec_nanosecond() == 0 { 0 } else { 6 };
        jiff_time_to_iso(h, self.minute(), self.second(), self.subsec_nanosecond(), p)
    }

    /// Parses a time as `jiff` does (`from_str`, `parse`); `None` where
    /// `jiff` refuses the text.
    pub fn from_str(t: &str) -> (r: Option<RyTime>)
        ensures
            r is None <==> jiff_time_parse(t@) is None,
            r matches Some(v) ==> jiff_time_parse(t@) == Some(v@),
    {
        match jiff_time_from_str(t) {
            Some((h, m, s, n)) => Some(RyTime { hour: h, minute: m, second: s, subsec: n }),
            None => None,
        }
    }

    /// The time formatted under a `strftime` format (`strftime`,
    /// `__format__`), as `jiff` formats it.
    pub fn strftime(&self, fmt: &str) -> (r: String)
        ensures
            r@ == jiff_time_strftime(fmt@, self@),
    {
        let h = self.hour();
        jiff_time_format(fmt, h, self.minute(), self.second(), self.subsec_nanosecond())
    }

    /// Reads a time from text under a `strptime` format, as `jiff` reads
    /// it; `None` where `jiff` refuses the text.
    pub fn strptime(t: &str, fmt: &str) -> (r: Option<RyTime>)
        ensures
            r is None <==> jiff_time_strptime(fmt@, t@) is None,
            r matches Some(v) ==> jiff_time_strptime(fmt@, t@) == Some(v@),
    {
        match jiff_time_read(fmt, t) {
            Some((h, m, s, n)) => Some(RyTime { hour: h, minute: m, second: s, subsec: n }),
            None => None,
        }
    }
}

/// Replacing nothing gives the time back, and replacing every part with
/// the time's own parts gives it back too.
pub proof fn lemma_time_replace_identity(t: (int, int, int, int))
    requires
        time_ok(t.0, t.1, t.2, t.3),
    ensures
        time_replace_ok(t, None, None, None, None, None, None, None),
        time_replaced(t, None, None, None, None, None, None, None) == t,
{
    assert(t.3 == (t.3 / 1_000_000) * 1_000_000 + ((t.3 / 1000) % 1000) * 1000 + t.3 % 1000);
}

/// A sub-second count made of milli-, micro- and nanoseconds, each
/// 0..=999, gives each of them back.
proof fn lemma_subsec_digits(ms: int, us: int, ns: int)
    requires
        0 <= ms <= 999,
        0 <= us <= 999,
        0 <= ns <= 999,
    ensures
        (ms * 1_000_000 + us * 1000 + ns) / 1_000_000 == ms,
        ((ms * 1_000_000 + us * 1000 + ns) / 1000) % 1000 == us,
        (ms * 1_000_000 + us * 1000 + ns) % 1000 == ns,
{
    let x = ms * 1_000_000 + us * 1000 + ns;
    assert(x / 1000 == ms * 1000 + us) by (nonlinear_arith)
        requires x == ms * 1_000_000 + us * 1000 + ns, 0 <= ns <= 999, 0 <= us <= 999, 0 <= ms;
    assert(x % 1000 == ns) by (nonlinear_arith)
        requires x == ms * 1_000_000 + us * 1000 + ns, 0 <= ns <= 999, 0 <= us <= 999, 0 <= ms;
    assert((ms * 1000 + us) % 1000 == us) by (nonlinear_arith)
        requires 0 <= us <= 999, 0 <= ms;
    assert(x / 1_000_000 == ms) by (nonlinear_arith)
        requires x == ms * 1_000_000 + us * 1000 + ns, 0 <= ns <= 999, 0 <= us <= 999, 0 <= ms;
}

/// Replacing parts of a time (without sub-second nanoseconds) sets each
/// part that is given and keeps each part that is not: hour, minute,
/// second, and the milli-, micro- and nanosecond digits of the sub-second
/// count, each on its own. So replacing only the microsecond keeps the
/// millisecond and the nanosecond digits.
pub proof fn lemma_time_replace_parts(
    t: (int, int, int, int),
    hour: Option<i8>,
    minute: Option<i8>,
    second: Option<i8>,
    millisecond: Option<i16>,
    microsecond: Option<i16>,
    nanosecond: Option<i16>,
)
    requires
        time_ok(t.0, t.1, t.2, t.3),
        time_with_ok(t, hour, minute, second, millisecond, microsecond, nanosecond, None),
    ensures
        ({
            let r = time_replaced(t, hour, minute, second, millisecond, microsecond, nanosecond, None);
            &&& time_ok(r.0, r.1, r.2, r.3)
            &&& r.0 == (if hour is Some { hour->0 as int } else { t.0 })
            &&& r.1 == (if minute is Some { minute->0 as int } else { t.1 })
            &&& r.2 == (if second is Some { second->0 as int } else { t.2 })
            &&& r.3 / 1_000_000 == (if millisecond is Some { millisecond->0 as int } else { t.3 / 1_000_000 })
            &&& (r.3 / 1000) % 1000 == (if microsecond is Some { microsecond->0 as int } else { (t.3 / 1000) % 1000 })
            &&& r.3 % 1000 == (if nanosecond is Some { nanosecond->0 as int } else { t.3 % 1000 })
        }),
        hour is None && minute is None && second is None && millisecond is None && nanosecond is None
            && microsecond is Some ==> time_replaced(t, hour, minute, second, millisecond, microsecond,
            nanosecond, None) == (t.0, t.1, t.2, (t.3 / 1_000_000) * 1_000_000 + microsecond->0 * 1000 + t.3 % 1000),
{
    let old_ms = t.3 / 1_000_000;
    let old_us = (t.3 / 1000) % 1000;
    let old_ns = t.3 % 1000;
    assert(0 <= old_ms <= 999 && 0 <= old_us <= 999 && 0 <= old_ns <= 999) by (nonlinear_arith)
        requires 0 <= t.3 <= 999_999_999, old_ms == t.3 / 1_000_000, old_us == (t.3 / 1000) % 1000,
            old_ns == t.3 % 1000;
    let ms = if millisecond is Some { millisecond->0 as int } else { old_ms };
    let us = if microsecond is Some { microsecond->0 as int } else { old_us };
    let ns = if nanosecond is Some { nanosecond->0 as int } else { old_ns };
    lemma_subsec_digits(ms, us, ns);
    assert(0 <= ms * 1_000_000 + us * 1000 + ns <= 999_999_999) by (nonlinear_arith)
        requires 0 <= ms <= 999, 0 <= us <= 999, 0 <= ns <= 999;
}

} // verus!
