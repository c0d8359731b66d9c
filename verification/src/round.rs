//! Rounding options: the smallest unit, the rounding mode and the
//! increment that the five rounding configurations hold, their defaults,
//! `replace`, equality and reprs, and rounding of datetimes and times with
//! them.
use vstd::prelude::*;
use crate::units::{JiffUnit, JiffRoundMode, unit_name, round_mode_name};
use crate::text::{int_text, push_char, push_i64, push_str};
use crate::datetime::{RyDateTime, parts_view, parts_ok};
use crate::time::{RyTime, time_ok};
use crate::date::date_ok;
use crate::signed_duration::{RySignedDuration, sd_normal};
use crate::timestamp::{RyTimestamp, ts_new_ok, ts_range};

verus! {

/// Which rounding configuration a set of options belongs to; it names the
/// repr.
#[derive(Clone, Copy, Debug, PartialEq, Eq, Structural)]
pub enum RoundKind {
    DateTime,
    SignedDuration,
    Time,
    Timestamp,
    ZonedDateTime,
}

/// The name a kind of rounding configuration prints.
pub open spec fn round_kind_name(k: RoundKind) -> Seq<char> {
    match k {
        RoundKind::DateTime => seq!['D', 'a', 't', 'e', 'T', 'i', 'm', 'e', 'R', 'o', 'u', 'n', 'd'],
        RoundKind::SignedDuration => seq!['S', 'i', 'g', 'n', 'e', 'd', 'D', 'u', 'r', 'a', 't', 'i', 'o', 'n', 'R', 'o', 'u', 'n', 'd'],
        RoundKind::Time => seq!['T', 'i', 'm', 'e', 'R', 'o', 'u', 'n', 'd'],
        RoundKind::Timestamp => seq!['T', 'i', 'm', 'e', 's', 't', 'a', 'm', 'p', 'R', 'o', 'u', 'n', 'd'],
        RoundKind::ZonedDateTime => seq!['Z', 'o', 'n', 'e', 'd', 'D', 'a', 't', 'e', 'T', 'i', 'm', 'e', 'R', 'o', 'u', 'n', 'd'],
    }
}

/// The smallest unit, rounding mode and increment of a rounding.
#[derive(Clone, Copy, Debug, PartialEq, Eq, Structural)]
pub struct RoundOptions {
    pub smallest: JiffUnit,
    pub mode: JiffRoundMode,
    pub increment: i64,
}

/// The repr: `Kind(smallest="unit", mode="mode", increment=N)`.
pub open spec fn round_repr_text(k: RoundKind, o: RoundOptions) -> Seq<char> {
    round_kind_name(k) + seq!['(', 's', 'm', 'a', 'l', 'l', 'e', 's', 't', '=', '"'] + unit_name(o.smallest)
        + seq!['"', ',', ' ', 'm', 'o', 'd', 'e', '=', '"'] + round_mode_name(o.mode) + seq!['"',
        ',', ' ', 'i', 'n', 'c', 'r', 'e', 'm', 'e', 'n', 't', '='] + int_text(o.increment as int)
        + seq![')']
}

/// The options after `replace`: each given value, else the old one.
pub open spec fn round_replaced(
    o: RoundOptions,
    smallest: Option<JiffUnit>,
    mode: Option<JiffRoundMode>,
    increment: Option<i64>,
) -> RoundOptions {
    RoundOptions {
        smallest: match smallest { Some(u) => u, None => o.smallest },
        mode: match mode { Some(m) => m, None => o.mode },
        increment: match increment { Some(i) => i, None => o.increment },
    }
}

impl RoundOptions {
    /// The options of a rounding constructor: the smallest unit defaults to
    /// nanoseconds and the mode to half-expand.
    pub fn new(smallest: Option<JiffUnit>, mode: Option<JiffRoundMode>, increment: i64) -> (r: RoundOptions)
        ensures
            r.smallest == (match smallest { Some(u) => u, None => JiffUnit::Nanosecond }),
            r.mode == (match mode { Some(m) => m, None => JiffRoundMode::HalfExpand }),
            r.increment == increment,
    {
        RoundOptions {
            smallest: match smallest { Some(u) => u, None => JiffUnit::Nanosecond },
            mode: match mode { Some(m) => m, None => JiffRoundMode::HalfExpand },
            increment,
        }
    }

    /// The options with the given values replaced (`replace`, and the
    /// single-value setters).
    pub fn replace(&self, smallest: Option<JiffUnit>, mode: Option<JiffRoundMode>, increment: Option<i64>) -> (r: RoundOptions)
        ensures
            r == round_replaced(*self, smallest, mode, increment),
    {
        RoundOptions {
            smallest: match smallest { Some(u) => u, None => self.smallest },
            mode: match mode { Some(m) => m, None => self.mode },
            increment: match increment { Some(i) => i, None => self.increment },
        }
    }

    /// Whether two sets of options are equal (`==`).
    pub fn eq_options(&self, other: &RoundOptions) -> (r: bool)
        ensures
            r == (*self == *other),
    {
        self.smallest == other.smallest && self.mode == other.mode && self.increment == other.increment
    }

    /// The repr for the given kind of rounding.
    pub fn repr(&self, kind: RoundKind) -> (r: String)
        ensures
            r@ == round_repr_text(kind, *self),
    {
        let mut out = String::new();
        push_str(&mut out, round_kind_str(kind));
        proof {
            reveal_strlit("(smallest=\"");
            reveal_strlit("\", mode=\"");
            reveal_strlit("\", increment=");
        }
        push_str(&mut out, "(smallest=\"");
        push_str(&mut out, self.smallest.static_str());
        push_str(&mut out, "\", mode=\"");
        push_str(&mut out, self.mode.static_str());
        push_str(&mut out, "\", increment=");
        push_i64(&mut out, self.increment);
        push_char(&mut out, ')');
        assert(out@ =~= round_repr_text(kind, *self));
        out
    }
}

/// The name of a kind of rounding configuration.
fn round_kind_str(k: RoundKind) -> (r: &'static str)
    ensures
        r@ == round_kind_name(k),
{
    match k {
        RoundKind::DateTime => {
            proof {
                reveal_strlit("DateTimeRound");
            }
            "DateTimeRound"
        },
        RoundKind::SignedDuration => {
            proof {
                reveal_strlit("SignedDurationRound");
            }
            "SignedDurationRound"
        },
        RoundKind::Time => {
            proof {
                reveal_strlit("TimeRound");
            }
            "TimeRound"
        },
        RoundKind::Timestamp => {
            proof {
                reveal_strlit("TimestampRound");
            }
            "TimestampRound"
        },
        RoundKind::ZonedDateTime => {
            proof {
                reveal_strlit("ZonedDateTimeRound");
            }
            "ZonedDateTimeRound"
        },
    }
}

/// The rounding configuration `DateTimeRound`.
#[derive(Clone, Copy, Debug, PartialEq, Eq, Structural)]
pub struct RyDateTimeRound {
    pub options: RoundOptions,
}

impl RyDateTimeRound {
    /// The constructor `DateTimeRound(smallest=None, mode=None, increment=1)`.
    pub fn py_new(smallest: Option<JiffUnit>, mode: Option<JiffRoundMode>, increment: i64) -> (r: RyDateTimeRound)
        ensures
            r.options.smallest == (match smallest { Some(u) => u, None => JiffUnit::Nanosecond }),
            r.options.mode == (match mode { Some(m) => m, None => JiffRoundMode::HalfExpand }),
            r.options.increment == increment,
    {
        RyDateTimeRound { options: RoundOptions::new(smallest, mode, increment) }
    }

    /// A copy with the given values replaced (`replace`).
    pub fn replace(&self, smallest: Option<JiffUnit>, mode: Option<JiffRoundMode>, increment: Option<i64>) -> (r: RyDateTimeRound)
        ensures
            r.options == round_replaced(self.options, smallest, mode, increment),
    {
        RyDateTimeRound { options: self.options.replace(smallest, mode, increment) }
    }

    /// The repr, `DateTimeRound(smallest="..", mode="..", increment=N)`.
    pub fn repr(&self) -> (r: String)
        ensures
            r@ == round_repr_text(RoundKind::DateTime, self.options),
    {
        self.options.repr(RoundKind::DateTime)
    }
}

/// The rounding configuration `SignedDurationRound`.
#[derive(Clone, Copy, Debug, PartialEq, Eq, Structural)]
pub struct RySignedDurationRound {
    pub options: RoundOptions,
}

impl RySignedDurationRound {
    /// The constructor `SignedDurationRound(smallest=None, mode=None, increment=1)`.
    pub fn py_new(smallest: Option<JiffUnit>, mode: Option<JiffRoundMode>, increment: i64) -> (r: RySignedDurationRound)
        ensures
            r.options.smallest == (match smallest { Some(u) => u, None => JiffUnit::Nanosecond }),
            r.options.mode == (match mode { Some(m) => m, None => JiffRoundMode::HalfExpand }),
            r.options.increment == increment,
    {
        RySignedDurationRound { options: RoundOptions::new(smallest, mode, increment) }
    }

    /// A copy with the given values replaced (`replace`).
    pub fn replace(&self, smallest: Option<JiffUnit>, mode: Option<JiffRoundMode>, increment: Option<i64>) -> (r: RySignedDurationRound)
        ensures
            r.options == round_replaced(self.options, smallest, mode, increment),
    {
        RySignedDurationRound { options: self.options.replace(smallest, mode, increment) }
    }

    /// The repr, `SignedDurationRound(smallest="..", mode="..", increment=N)`.
    pub fn repr(&self) -> (r: String)
        ensures
            r@ == round_repr_text(RoundKind::SignedDuration, self.options),
    {
        self.options.repr(RoundKind::SignedDuration)
    }
}

/// The rounding configuration `TimeRound`.
#[derive(Clone, Copy, Debug, PartialEq, Eq, Structural)]
pub struct RyTimeRound {
    pub options: RoundOptions,
}

impl RyTimeRound {
    /// The constructor `TimeRound(smallest=None, mode=None, increment=1)`.
    pub fn py_new(smallest: Option<JiffUnit>, mode: Option<JiffRoundMode>, increment: i64) -> (r: RyTimeRound)
        ensures
            r.options.smallest == (match smallest { Some(u) => u, None => JiffUnit::Nanosecond }),
            r.options.mode == (match mode { Some(m) => m, None => JiffRoundMode::HalfExpand }),
            r.options.increment == increment,
    {
        RyTimeRound { options: RoundOptions::new(smallest, mode, increment) }
    }

    /// A copy with the given values replaced (`replace`).
    pub fn replace(&self, smallest: Option<JiffUnit>, mode: Option<JiffRoundMode>, increment: Option<i64>) -> (r: RyTimeRound)
        ensures
            r.options == round_replaced(self.options, smallest, mode, increment),
    {
        RyTimeRound { options: self.options.replace(smallest, mode, increment) }
    }

    /// The repr, `TimeRound(smallest="..", mode="..", increment=N)`.
    pub fn repr(&self) -> (r: String)
        ensures
            r@ == round_repr_text(RoundKind::Time, self.options),
    {
        self.options.repr(RoundKind::Time)
    }
}

/// The rounding configuration `TimestampRound`.
#[derive(Clone, Copy, Debug, PartialEq, Eq, Structural)]
pub struct RyTimestampRound {
    pub options: RoundOptions,
}

impl RyTimestampRound {
    /// The constructor `TimestampRound(smallest=None, mode=None, increment=1)`.
    pub fn py_new(smallest: Option<JiffUnit>, mode: Option<JiffRoundMode>, increment: i64) -> (r: RyTimestampRound)
        ensures
            r.options.smallest == (match smallest { Some(u) => u, None => JiffUnit::Nanosecond }),
            r.options.mode == (match mode { Some(m) => m, None => JiffRoundMode::HalfExpand }),
            r.options.increment == increment,
    {
        RyTimestampRound { options: RoundOptions::new(smallest, mode, increment) }
    }

    /// A copy with the given values replaced (`replace`).
    pub fn replace(&self, smallest: Option<JiffUnit>, mode: Option<JiffRoundMode>, increment: Option<i64>) -> (r: RyTimestampRound)
        ensures
            r.options == round_replaced(self.options, smallest, mode, increment),
    {
        RyTimestampRound { options: self.options.replace(smallest, mode, increment) }
    }

    /// The repr, `TimestampRound(smallest="..", mode="..", increment=N)`.
    pub fn repr(&self) -> (r: String)
        ensures
            r@ == round_repr_text(RoundKind::Timestamp, self.options),
    {
        self.options.repr(RoundKind::Timestamp)
    }
}

/// The rounding configuration `ZonedDateTimeRound`.
#[derive(Clone, Copy, Debug, PartialEq, Eq, Structural)]
pub struct RyZonedDateTimeRound {
    pub options: RoundOptions,
}

impl RyZonedDateTimeRound {
    /// The constructor `ZonedDateTimeRound(smallest=None, mode=None, increment=1)`.
    pub fn py_new(smallest: Option<JiffUnit>, mode: Option<JiffRoundMode>, increment: i64) -> (r: RyZonedDateTimeRound)
        ensures
            r.options.smallest == (match smallest { Some(u) => u, None => JiffUnit::Nanosecond }),
            r.options.mode == (match mode { Some(m) => m, None => JiffRoundMode::HalfExpand }),
            r.options.increment == increment,
    {
        RyZonedDateTimeRound { options: RoundOptions::new(smallest, mode, increment) }
    }

    /// A copy with the given values replaced (`replace`).
    pub fn replace(&self, smallest: Option<JiffUnit>, mode: Option<JiffRoundMode>, increment: Option<i64>) -> (r: RyZonedDateTimeRound)
        ensures
            r.options == round_replaced(self.options, smallest, mode, increment),
    {
        RyZonedDateTimeRound { options: self.options.replace(smallest, mode, increment) }
    }

    /// The repr, `ZonedDateTimeRound(smallest="..", mode="..", increment=N)`.
    pub fn repr(&self) -> (r: String)
        ensures
            r@ == round_repr_text(RoundKind::ZonedDateTime, self.options),
    {
        self.options.repr(RoundKind::ZonedDateTime)
    }
}

/// `jiff`'s unit type.
#[verifier::external_type_specification]
#[verifier::external_body]
pub struct ExJiffUnit(jiff::Unit);

/// `jiff`'s rounding mode type.
#[verifier::external_type_specification]
#[verifier::external_body]
pub struct ExJiffRoundMode(jiff::RoundMode);

/// The `jiff` unit of a `JiffUnit`, variant for variant.
#[verifier::external_body]
pub(crate) fn to_jiff_unit(u: JiffUnit) -> jiff::Unit {
    match u {
        JiffUnit::Year => jiff::Unit::Year,
        JiffUnit::Month => jiff::Unit::Month,
        JiffUnit::Week => jiff::Unit::Week,
        JiffUnit::Day => jiff::Unit::Day,
        JiffUnit::Hour => jiff::Unit::Hour,
        JiffUnit::Minute => jiff::Unit::Minute,
        JiffUnit::Second => jiff::Unit::Second,
        JiffUnit::Millisecond => jiff::Unit::Millisecond,
        JiffUnit::Microsecond => jiff::Unit::Microsecond,
        JiffUnit::Nanosecond => jiff::Unit::Nanosecond,
    }
}

/// The `jiff` rounding mode of a `JiffRoundMode`, variant for variant.
#[verifier::external_body]
pub(crate) fn to_jiff_round_mode(m: JiffRoundMode) -> jiff::RoundMode {
    match m {
        JiffRoundMode::Ceil => jiff::RoundMode::Ceil,
        JiffRoundMode::Floor => jiff::RoundMode::Floor,
        JiffRoundMode::Expand => jiff::RoundMode::Expand,
        JiffRoundMode::Trunc => jiff::RoundMode::Trunc,
        JiffRoundMode::HalfCeil => jiff::RoundMode::HalfCeil,
        JiffRoundMode::HalfFloor => jiff::RoundMode::HalfFloor,
        JiffRoundMode::HalfExpand => jiff::RoundMode::HalfExpand,
        JiffRoundMode::HalfTrunc => jiff::RoundMode::HalfTrunc,
        JiffRoundMode::HalfEven => jiff::RoundMode::HalfEven,
    }
}

/// What `jiff`'s `DateTime::round` gives for a datetime and options, if it
/// succeeds.
pub uninterp spec fn jiff_datetime_round(
    d: (int, int, int),
    t: (int, int, int, int),
    o: RoundOptions,
) -> Option<((int, int, int), (int, int, int, int))>;

/// What `jiff`'s `Time::round` gives for a time and options, if it
/// succeeds.
pub uninterp spec fn jiff_time_round(t: (int, int, int, int), o: RoundOptions) -> Option<(int, int, int, int)>;

/// Rounds a datetime with `jiff`'s `DateTime::round` and `DateTimeRound`.
#[verifier::external_body]
fn jiff_round_datetime(p: ((i16, i8, i8), (i8, i8, i8, i32)), o: RoundOptions) -> (r: Option<((i16, i8, i8), (i8, i8, i8, i32))>)
    requires
        parts_ok(p),
    ensures
        r is None <==> jiff_datetime_round(parts_view(p).0, parts_view(p).1, o) is None,
        r matches Some(v) ==> jiff_datetime_round(parts_view(p).0, parts_view(p).1, o) == Some(parts_view(v)) && parts_ok(v),
{
    let ((y, m, d), (h, mi, s, n)) = p;
    let opts = jiff::civil::DateTimeRound::new().smallest(to_jiff_unit(o.smallest))
        .mode(to_jiff_round_mode(o.mode)).increment(o.increment);
    let x = jiff::civil::date(y, m, d).at(h, mi, s, n).round(opts).ok()?;
    Some(((x.year(), x.month(), x.day()), (x.hour(), x.minute(), x.second(), x.subsec_nanosecond())))
}

/// Rounds a time with `jiff`'s `Time::round` and `TimeRound`.
#[verifier::external_body]
fn jiff_round_time(t: (i8, i8, i8, i32), o: RoundOptions) -> (r: Option<(i8, i8, i8, i32)>)
    requires
        time_ok(t.0 as int, t.1 as int, t.2 as int, t.3 as int),
    ensures
        r is None <==> jiff_time_round((t.0 as int, t.1 as int, t.2 as int, t.3 as int), o) is None,
        r matches Some(v) ==> jiff_time_round((t.0 as int, t.1 as int, t.2 as int, t.3 as int), o)
            == Some((v.0 as int, v.1 as int, v.2 as int, v.3 as int)) && time_ok(v.0 as int, v.1 as int,
            v.2 as int, v.3 as int),
{
    let opts = jiff::civil::TimeRound::new().smallest(to_jiff_unit(o.smallest))
        .mode(to_jiff_round_mode(o.mode)).increment(o.increment);
    let x = jiff::civil::time(t.0, t.1, t.2, t.3).round(opts).ok()?;
    Some((x.hour(), x.minute(), x.second(), x.subsec_nanosecond()))
}

impl RyDateTimeRound {
    /// Rounds a datetime with these options (`DateTime._round`); `None`
    /// where `jiff` refuses (Python's `ValueError`).
    pub fn round(&self, dt: &RyDateTime) -> (r: Option<RyDateTime>)
        ensures
            r is None <==> jiff_datetime_round(dt@.0, dt@.1, self.options) is None,
            r matches Some(v) ==> jiff_datetime_round(dt@.0, dt@.1, self.options) == Some(v@),
    {
        match jiff_round_datetime(dt.parts(), self.options) {
            Some(p) => Some(RyDateTime::from_checked_parts(p)),
            None => None,
        }
    }
}

impl RyTimeRound {
    /// Rounds a time with these options (`Time._round`); `None` where
    /// `jiff` refuses (Python's `ValueError`).
    pub fn round(&self, t: &RyTime) -> (r: Option<RyTime>)
        ensures
            r is None <==> jiff_time_round(t@, self.options) is None,
            r matches Some(v) ==> jiff_time_round(t@, self.options) == Some(v@),
    {
        let h = t.hour();
        match jiff_round_time((h, t.minute(), t.second(), t.subsec_nanosecond()), self.options) {
            Some((a, b, c, d)) => Some(RyTime::from_valid(a, b, c, d)),
            None => None,
        }
    }
}

impl RyDateTime {
    /// Rounds the datetime (`round(smallest=None, mode=None,
    /// increment=None)`): missing values take `jiff`'s defaults,
    /// nanoseconds, half-expand and 1.
    pub fn round(&self, smallest: Option<JiffUnit>, mode: Option<JiffRoundMode>, increment: Option<i64>) -> (r: Option<RyDateTime>)
        ensures
            ({
                let o = RoundOptions {
                    smallest: match smallest { Some(u) => u, None => JiffUnit::Nanosecond },
                    mode: match mode { Some(m) => m, None => JiffRoundMode::HalfExpand },
                    increment: match increment { Some(i) => i, None => 1 },
                };
                &&& (r is None <==> jiff_datetime_round(self@.0, self@.1, o) is None)
                &&& (r matches Some(v) ==> jiff_datetime_round(self@.0, self@.1, o) == Some(v@))
            }),
    {
        let inc = match increment { Some(i) => i, None => 1 };
        RyDateTimeRound::py_new(smallest, mode, inc).round(self)
    }
}

impl RyTime {
    /// Rounds the time (`round(smallest=None, mode=None, increment=None)`):
    /// missing values take `jiff`'s defaults, nanoseconds, half-expand and
    /// 1.
    pub fn round(&self, smallest: Option<JiffUnit>, mode: Option<JiffRoundMode>, increment: Option<i64>) -> (r: Option<RyTime>)
        ensures
            ({
                let o = RoundOptions {
                    smallest: match smallest { Some(u) => u, None => JiffUnit::Nanosecond },
                    mode: match mode { Some(m) => m, None => JiffRoundMode::HalfExpand },
                    increment: match increment { Some(i) => i, None => 1 },
                };
                &&& (r is None <==> jiff_time_round(self@, o) is None)
                &&& (r matches Some(v) ==> jiff_time_round(self@, o) == Some(v@))
            }),
    {
        let inc = match increment { Some(i) => i, None => 1 };
        RyTimeRound::py_new(smallest, mode, inc).round(self)
    }
}

/// What `jiff`'s `SignedDuration::round` gives for a duration (in
/// nanoseconds) and options, if it succeeds.
pub uninterp spec fn jiff_signed_duration_round(t: int, o: RoundOptions) -> Option<int>;

/// Rounds a signed duration with `jiff`'s `SignedDuration::round` and
/// `SignedDurationRound`.
#[verifier::external_body]
fn jiff_round_signed_duration(secs: i64, nanos: i32, t: RySignedDuration, o: RoundOptions) -> (r: Option<(i64, i32)>)
    requires
        t@ == secs * 1_000_000_000 + nanos,
        sd_normal(secs as int, nanos as int),
    ensures
        r is None <==> jiff_signed_duration_round(t@, o) is None,
        r matches Some(v) ==> jiff_signed_duration_round(t@, o) == Some(v.0 * 1_000_000_000 + v.1)
            && sd_normal(v.0 as int, v.1 as int),
{
    let opts = jiff::SignedDurationRound::new().smallest(to_jiff_unit(o.smallest))
        .mode(to_jiff_round_mode(o.mode)).increment(o.increment);
    let x = jiff::SignedDuration::new(secs, nanos).round(opts).ok()?;
    Some((x.as_secs(), x.subsec_nanos()))
}

impl RySignedDurationRound {
    /// Rounds a signed duration with these options
    /// (`SignedDuration._round`); `None` where `jiff` refuses.
    pub fn round(&self, d: &RySignedDuration) -> (r: Option<RySignedDuration>)
        ensures
            r is None <==> jiff_signed_duration_round(d@, self.options) is None,
            r matches Some(v) ==> jiff_signed_duration_round(d@, self.options) == Some(v@),
    {
        let (s, n) = d.parts();
        proof {
            assert(d@ == s * 1_000_000_000 + n) by {
                crate::signed_duration::lemma_total_parts(d@);
            }
        }
        match jiff_round_signed_duration(s, n, *d, self.options) {
            Some((a, b)) => Some(RySignedDuration::from_normal_parts(a, b)),
            None => None,
        }
    }
}

/// What `jiff`'s `Timestamp::round` gives for an instant (in nanoseconds)
/// and options, if it succeeds.
pub uninterp spec fn jiff_timestamp_round(t: int, o: RoundOptions) -> Option<int>;

/// Rounds an instant with `jiff`'s `Timestamp::round` and `TimestampRound`.
#[verifier::external_body]
fn jiff_round_timestamp(second: i64, nanosecond: i32, o: RoundOptions) -> (r: Option<(i64, i32)>)
    requires
        ts_new_ok(second as int, nanosecond as int),
    ensures
        r is None <==> jiff_timestamp_round(second * 1_000_000_000 + nanosecond, o) is None,
        r matches Some(v) ==> jiff_timestamp_round(second * 1_000_000_000 + nanosecond, o)
            == Some(v.0 * 1_000_000_000 + v.1) && ts_new_ok(v.0 as int, v.1 as int),
{
    let opts = jiff::TimestampRound::new().smallest(to_jiff_unit(o.smallest))
        .mode(to_jiff_round_mode(o.mode)).increment(o.increment);
    let x = jiff::Timestamp::new(second, nanosecond).unwrap().round(opts).ok()?;
    Some((x.as_second(), x.subsec_nanosecond()))
}

impl RyTimestampRound {
    /// Rounds an instant with these options (`Timestamp._round`); `None`
    /// where `jiff` refuses.
    pub fn round(&self, t: &RyTimestamp) -> (r: Option<RyTimestamp>)
        ensures
            r is None <==> jiff_timestamp_round(t@, self.options) is None,
            r matches Some(v) ==> jiff_timestamp_round(t@, self.options) == Some(v@),
    {
        let (s, n) = t.parts();
        match jiff_round_timestamp(s, n, self.options) {
            Some((a, b)) => match RyTimestamp::py_new(a, b) {
                Ok(v) => Some(v),
                Err(_) => None,
            },
            None => None,
        }
    }
}

} // verus!
