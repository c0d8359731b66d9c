//! Difference configurations: the base value, smallest and largest unit,
//! rounding mode and increment that `since` and `until` take, with their
//! defaults, setters, equality and reprs.
use vstd::prelude::*;
use crate::units::{JiffUnit, JiffRoundMode, unit_name, round_mode_name};
use crate::text::{int_text, push_char, push_i64, push_str};
use crate::date::{RyDate, date_repr_text};
use crate::datetime::{RyDateTime, datetime_repr_text};
use crate::time::{RyTime, time_repr_text};
use crate::timestamp::{RyTimestamp, ts_repr_text};
use crate::zoned::{RyZoned, zoned_repr_text};

verus! {

/// The smallest and largest unit, rounding mode and increment of a
/// difference.
#[derive(Clone, Copy, Debug, PartialEq, Eq, Structural)]
pub struct DifferenceOptions {
    pub smallest: JiffUnit,
    pub largest: Option<JiffUnit>,
    pub mode: JiffRoundMode,
    pub increment: i64,
}

/// The options a difference constructor makes: each given value, else the
/// default smallest unit `smallest0`, no largest unit, truncation and an
/// increment of 1.
pub open spec fn difference_defaults(
    smallest0: JiffUnit,
    smallest: Option<JiffUnit>,
    largest: Option<JiffUnit>,
    mode: Option<JiffRoundMode>,
    increment: Option<i64>,
) -> DifferenceOptions {
    DifferenceOptions {
        smallest: match smallest { Some(u) => u, None => smallest0 },
        largest: largest,
        mode: match mode { Some(m) => m, None => JiffRoundMode::Trunc },
        increment: match increment { Some(i) => i, None => 1 },
    }
}

/// The options part of a difference repr: `, smallest="..", largest=".."`
/// (or `largest=None`), `, mode="..", increment=N)`.
pub open spec fn difference_options_text(o: DifferenceOptions) -> Seq<char> {
    seq![',', ' ', 's', 'm', 'a', 'l', 'l', 'e', 's', 't', '=', '"'] + unit_name(o.smallest) + seq!['"']
        + match o.largest {
        Some(u) => seq![',', ' ', 'l', 'a', 'r', 'g', 'e', 's', 't', '=', '"'] + unit_name(u) + seq!['"'],
        None => seq![',', ' ', 'l', 'a', 'r', 'g', 'e', 's', 't', '=', 'N', 'o', 'n', 'e'],
    } + seq![',', ' ', 'm', 'o', 'd', 'e', '=', '"'] + round_mode_name(o.mode) + seq!['"', ',', ' ',
        'i', 'n', 'c', 'r', 'e', 'm', 'e', 'n', 't', '='] + int_text(o.increment as int) + seq![')']
}

impl DifferenceOptions {
    /// Appends the options part of a difference repr.
    fn push_repr(&self, out: &mut String)
        ensures
            final(out)@ == old(out)@ + difference_options_text(*self),
    {
        let ghost start = out@;
        proof {
            reveal_strlit(", smallest=\"");
            reveal_strlit(", largest=\"");
            reveal_strlit(", largest=None");
            reveal_strlit(", mode=\"");
            reveal_strlit("\", increment=");
        }
        push_str(out, ", smallest=\"");
        push_str(out, self.smallest.static_str());
        push_char(out, '"');
        match self.largest {
            Some(u) => {
                push_str(out, ", largest=\"");
                push_str(out, u.static_str());
                push_char(out, '"');
            },
            None => {
                push_str(out, ", largest=None");
            },
        }
        push_str(out, ", mode=\"");
        push_str(out, self.mode.static_str());
        push_str(out, "\", increment=");
        push_i64(out, self.increment);
        push_char(out, ')');
        assert(out@ =~= start + difference_options_text(*self));
    }
}

/// The repr of a `DateDifference`.
pub open spec fn date_difference_repr_text(b: (int, int, int), o: DifferenceOptions) -> Seq<char> {
    seq!['D', 'a', 't', 'e', 'D', 'i', 'f', 'f', 'e', 'r', 'e', 'n', 'c', 'e', '('] + date_repr_text(b.0, b.1, b.2) + difference_options_text(o)
}

/// The configuration `DateDifference`: the date to measure from or to, and the options.
#[derive(Clone, Copy, Debug, PartialEq, Eq, Structural)]
pub struct RyDateDifference {
    pub date: RyDate,
    pub options: DifferenceOptions,
}

impl RyDateDifference {
    /// The constructor: the smallest unit defaults to `Day`, the mode to
    /// truncation and the increment to 1.
    pub fn py_new(
        date: RyDate,
        smallest: Option<JiffUnit>,
        largest: Option<JiffUnit>,
        mode: Option<JiffRoundMode>,
        increment: Option<i64>,
    ) -> (r: RyDateDifference)
        ensures
            r.date == date,
            r.options == difference_defaults(JiffUnit::Day, smallest, largest, mode, increment),
    {
        RyDateDifference {
            date,
            options: DifferenceOptions {
                smallest: match smallest { Some(u) => u, None => JiffUnit::Day },
                largest,
                mode: match mode { Some(m) => m, None => JiffRoundMode::Trunc },
                increment: match increment { Some(i) => i, None => 1 },
            },
        }
    }

    /// A copy with another smallest unit (`_smallest`).
    pub fn with_smallest(&self, unit: JiffUnit) -> (r: RyDateDifference)
        ensures
            r.date == self.date,
            r.options == (DifferenceOptions { smallest: unit, ..self.options }),
    {
        RyDateDifference { date: self.date, options: DifferenceOptions { smallest: unit, ..self.options } }
    }

    /// A copy with a largest unit (`_largest`).
    pub fn with_largest(&self, unit: JiffUnit) -> (r: RyDateDifference)
        ensures
            r.date == self.date,
            r.options == (DifferenceOptions { largest: Some(unit), ..self.options }),
    {
        RyDateDifference { date: self.date, options: DifferenceOptions { largest: Some(unit), ..self.options } }
    }

    /// A copy with another rounding mode (`_mode`).
    pub fn with_mode(&self, mode: JiffRoundMode) -> (r: RyDateDifference)
        ensures
            r.date == self.date,
            r.options == (DifferenceOptions { mode, ..self.options }),
    {
        RyDateDifference { date: self.date, options: DifferenceOptions { mode, ..self.options } }
    }

    /// A copy with another increment (`_increment`).
    pub fn with_increment(&self, increment: i64) -> (r: RyDateDifference)
        ensures
            r.date == self.date,
            r.options == (DifferenceOptions { increment, ..self.options }),
    {
        RyDateDifference { date: self.date, options: DifferenceOptions { increment, ..self.options } }
    }

    /// The repr, `DateDifference(<date repr>, smallest="..", largest=.., mode="..",
    /// increment=N)`.
    pub fn repr(&self) -> (r: String)
        ensures
            r@ == date_difference_repr_text(self.date@, self.options),
    {
        let mut out = String::new();
        proof {
            reveal_strlit("DateDifference(");
        }
        push_str(&mut out, "DateDifference(");
        let inner = self.date.repr();
        push_str(&mut out, inner.as_str());
        self.options.push_repr(&mut out);
        assert(out@ =~= date_difference_repr_text(self.date@, self.options));
        out
    }
}

/// The repr of a `DateTimeDifference`.
pub open spec fn datetime_difference_repr_text(b: ((int, int, int), (int, int, int, int)), o: DifferenceOptions) -> Seq<char> {
    seq!['D', 'a', 't', 'e', 'T', 'i', 'm', 'e', 'D', 'i', 'f', 'f', 'e', 'r', 'e', 'n', 'c', 'e', '('] + datetime_repr_text(b.0, b.1) + difference_options_text(o)
}

/// The configuration `DateTimeDifference`: the datetime to measure from or to, and the options.
#[derive(Clone, Copy, Debug, PartialEq, Eq, Structural)]
pub struct RyDateTimeDifference {
    pub datetime: RyDateTime,
    pub options: DifferenceOptions,
}

impl RyDateTimeDifference {
    /// The constructor: the smallest unit defaults to `Nanosecond`, the mode to
    /// truncation and the increment to 1.
    pub fn py_new(
        datetime: RyDateTime,
        smallest: Option<JiffUnit>,
        largest: Option<JiffUnit>,
        mode: Option<JiffRoundMode>,
        increment: Option<i64>,
    ) -> (r: RyDateTimeDifference)
        ensures
            r.datetime == datetime,
            r.options == difference_defaults(JiffUnit::Nanosecond, smallest, largest, mode, increment),
    {
        RyDateTimeDifference {
            datetime,
            options: DifferenceOptions {
                smallest: match smallest { Some(u) => u, None => JiffUnit::Nanosecond },
                largest,
                mode: match mode { Some(m) => m, None => JiffRoundMode::Trunc },
                increment: match increment { Some(i) => i, None => 1 },
            },
        }
    }

    /// A copy with another smallest unit (`_smallest`).
    pub fn with_smallest(&self, unit: JiffUnit) -> (r: RyDateTimeDifference)
        ensures
            r.datetime == self.datetime,
            r.options == (DifferenceOptions { smallest: unit, ..self.options }),
    {
        RyDateTimeDifference { datetime: self.datetime, options: DifferenceOptions { smallest: unit, ..self.options } }
    }

    /// A copy with a largest unit (`_largest`).
    pub fn with_largest(&self, unit: JiffUnit) -> (r: RyDateTimeDifference)
        ensures
            r.datetime == self.datetime,
            r.options == (DifferenceOptions { largest: Some(unit), ..self.options }),
    {
        RyDateTimeDifference { datetime: self.datetime, options: DifferenceOptions { largest: Some(unit), ..self.options } }
    }

    /// A copy with another rounding mode (`_mode`).
    pub fn with_mode(&self, mode: JiffRoundMode) -> (r: RyDateTimeDifference)
        ensures
            r.datetime == self.datetime,
            r.options == (DifferenceOptions { mode, ..self.options }),
    {
        RyDateTimeDifference { datetime: self.datetime, options: DifferenceOptions { mode, ..self.options } }
    }

    /// A copy with another increment (`_increment`).
    pub fn with_increment(&self, increment: i64) -> (r: RyDateTimeDifference)
        ensures
            r.datetime == self.datetime,
            r.options == (DifferenceOptions { increment, ..self.options }),
    {
        RyDateTimeDifference { datetime: self.datetime, options: DifferenceOptions { increment, ..self.options } }
    }

    /// The repr, `DateTimeDifference(<datetime repr>, smallest="..", largest=.., mode="..",
    /// increment=N)`.
    pub fn repr(&self) -> (r: String)
        ensures
            r@ == datetime_difference_repr_text(self.datetime@, self.options),
    {
        let mut out = String::new();
        proof {
            reveal_strlit("DateTimeDifference(");
        }
        push_str(&mut out, "DateTimeDifference(");
        let inner = self.datetime.repr();
        push_str(&mut out, inner.as_str());
        self.options.push_repr(&mut out);
        assert(out@ =~= datetime_difference_repr_text(self.datetime@, self.options));
        out
    }
}

/// The repr of a `TimeDifference`.
pub open spec fn time_difference_repr_text(b: (int, int, int, int), o: DifferenceOptions) -> Seq<char> {
    seq!['T', 'i', 'm', 'e', 'D', 'i', 'f', 'f', 'e', 'r', 'e', 'n', 'c', 'e', '('] + time_repr_text(b.0, b.1, b.2, b.3) + difference_options_text(o)
}

/// The configuration `TimeDifference`: the time to measure from or to, and the options.
#[derive(Clone, Copy, Debug, PartialEq, Eq, Structural)]
pub struct RyTimeDifference {
    pub time: RyTime,
    pub options: DifferenceOptions,
}

impl RyTimeDifference {
    /// The constructor: the smallest unit defaults to `Nanosecond`, the mode to
    /// truncation and the increment to 1.
    pub fn py_new(
        time: RyTime,
        smallest: Option<JiffUnit>,
        largest: Option<JiffUnit>,
        mode: Option<JiffRoundMode>,
        increment: Option<i64>,
    ) -> (r: RyTimeDifference)
        ensures
            r.time == time,
            r.options == difference_defaults(JiffUnit::Nanosecond, smallest, largest, mode, increment),
    {
        RyTimeDifference {
            time,
            options: DifferenceOptions {
                smallest: match smallest { Some(u) => u, None => JiffUnit::Nanosecond },
                largest,
                mode: match mode { Some(m) => m, None => JiffRoundMode::Trunc },
                increment: match increment { Some(i) => i, None => 1 },
            },
        }
    }

    /// A copy with another smallest unit (`_smallest`).
    pub fn with_smallest(&self, unit: JiffUnit) -> (r: RyTimeDifference)
        ensures
            r.time == self.time,
            r.options == (DifferenceOptions { smallest: unit, ..self.options }),
    {
        RyTimeDifference { time: self.time, options: DifferenceOptions { smallest: unit, ..self.options } }
    }

    /// A copy with a largest unit (`_largest`).
    pub fn with_largest(&self, unit: JiffUnit) -> (r: RyTimeDifference)
        ensures
            r.time == self.time,
            r.options == (DifferenceOptions { largest: Some(unit), ..self.options }),
    {
        RyTimeDifference { time: self.time, options: DifferenceOptions { largest: Some(unit), ..self.options } }
    }

    /// A copy with another rounding mode (`_mode`).
    pub fn with_mode(&self, mode: JiffRoundMode) -> (r: RyTimeDifference)
        ensures
            r.time == self.time,
            r.options == (DifferenceOptions { mode, ..self.options }),
    {
        RyTimeDifference { time: self.time, options: DifferenceOptions { mode, ..self.options } }
    }

    /// A copy with another increment (`_increment`).
    pub fn with_increment(&self, increment: i64) -> (r: RyTimeDifference)
        ensures
            r.time == self.time,
            r.options == (DifferenceOptions { increment, ..self.options }),
    {
        RyTimeDifference { time: self.time, options: DifferenceOptions { increment, ..self.options } }
    }

    /// The repr, `TimeDifference(<time repr>, smallest="..", largest=.., mode="..",
    /// increment=N)`.
    pub fn repr(&self) -> (r: String)
        ensures
            r@ == time_difference_repr_text(self.time@, self.options),
    {
        let mut out = String::new();
        proof {
            reveal_strlit("TimeDifference(");
        }
        push_str(&mut out, "TimeDifference(");
        let inner = self.time.repr();
        push_str(&mut out, inner.as_str());
        self.options.push_repr(&mut out);
        assert(out@ =~= time_difference_repr_text(self.time@, self.options));
        out
    }
}

/// The repr of a `TimestampDifference`.
pub open spec fn timestamp_difference_repr_text(b: int, o: DifferenceOptions) -> Seq<char> {
    seq!['T', 'i', 'm', 'e', 's', 't', 'a', 'm', 'p', 'D', 'i', 'f', 'f', 'e', 'r', 'e', 'n', 'c', 'e', '(']
        + ts_repr_text(b) + difference_options_text(o)
}

/// The configuration `TimestampDifference`: the instant to measure from or
/// to, and the options.
#[derive(Clone, Copy, Debug, PartialEq, Eq, Structural)]
pub struct RyTimestampDifference {
    pub timestamp: RyTimestamp,
    pub options: DifferenceOptions,
}

impl RyTimestampDifference {
    /// The constructor; its defaults (smallest unit `Nanosecond`, no largest
    /// unit, truncation, increment 1) are those of the Python signature.
    pub fn py_new(
        timestamp: RyTimestamp,
        smallest: JiffUnit,
        largest: Option<JiffUnit>,
        mode: JiffRoundMode,
        increment: i64,
    ) -> (r: RyTimestampDifference)
        ensures
            r.timestamp == timestamp,
            r.options == (DifferenceOptions { smallest, largest, mode, increment }),
    {
        RyTimestampDifference { timestamp, options: DifferenceOptions { smallest, largest, mode, increment } }
    }

    /// A copy with another smallest unit (`_smallest`).
    pub fn with_smallest(&self, unit: JiffUnit) -> (r: RyTimestampDifference)
        ensures
            r.timestamp == self.timestamp,
            r.options == (DifferenceOptions { smallest: unit, ..self.options }),
    {
        RyTimestampDifference { timestamp: self.timestamp, options: DifferenceOptions { smallest: unit, ..self.options } }
    }

    /// A copy with a largest unit (`_largest`).
    pub fn with_largest(&self, unit: JiffUnit) -> (r: RyTimestampDifference)
        ensures
            r.timestamp == self.timestamp,
            r.options == (DifferenceOptions { largest: Some(unit), ..self.options }),
    {
        RyTimestampDifference { timestamp: self.timestamp, options: DifferenceOptions { largest: Some(unit), ..self.options } }
    }

    /// A copy with another rounding mode (`_mode`).
    pub fn with_mode(&self, mode: JiffRoundMode) -> (r: RyTimestampDifference)
        ensures
            r.timestamp == self.timestamp,
            r.options == (DifferenceOptions { mode, ..self.options }),
    {
        RyTimestampDifference { timestamp: self.timestamp, options: DifferenceOptions { mode, ..self.options } }
    }

    /// A copy with another increment (`_increment`).
    pub fn with_increment(&self, increment: i64) -> (r: RyTimestampDifference)
        ensures
            r.timestamp == self.timestamp,
            r.options == (DifferenceOptions { increment, ..self.options }),
    {
        RyTimestampDifference { timestamp: self.timestamp, options: DifferenceOptions { increment, ..self.options } }
    }

    /// The repr, `TimestampDifference(Timestamp(second=S, nanosecond=N),
    /// smallest="..", largest=.., mode="..", increment=N)`.
    pub fn repr(&self) -> (r: String)
        ensures
            r@ == timestamp_difference_repr_text(self.timestamp@, self.options),
    {
        let mut out = String::new();
        proof {
            reveal_strlit("TimestampDifference(");
        }
        push_str(&mut out, "TimestampDifference(");
        let inner = self.timestamp.repr();
        push_str(&mut out, inner.as_str());
        self.options.push_repr(&mut out);
        assert(out@ =~= timestamp_difference_repr_text(self.timestamp@, self.options));
        out
    }
}

/// The repr of a zoned difference: `ZonedDateTimeDifference(<zoned repr>`
/// and the options.
pub open spec fn zoned_difference_repr_text(z: Seq<char>, o: DifferenceOptions) -> Seq<char> {
    seq!['Z', 'o', 'n', 'e', 'd', 'D', 'a', 't', 'e', 'T', 'i', 'm', 'e', 'D', 'i', 'f', 'f', 'e', 'r', 'e',
        'n', 'c', 'e', '('] + z + difference_options_text(o)
}

/// A zoned datetime with the options of a difference from or to it.
pub struct RyZonedDifference {
    pub zoned: RyZoned,
    pub options: DifferenceOptions,
}

impl RyZonedDifference {
    /// The constructor; its defaults (smallest unit `Nanosecond`, no largest
    /// unit, truncation, increment 1) are those of the Python signature.
    pub fn py_new(
        zoned: RyZoned,
        smallest: JiffUnit,
        largest: Option<JiffUnit>,
        mode: JiffRoundMode,
        increment: i64,
    ) -> (r: RyZonedDifference)
        ensures
            r.zoned == zoned,
            r.options == (DifferenceOptions { smallest, largest, mode, increment }),
    {
        RyZonedDifference { zoned, options: DifferenceOptions { smallest, largest, mode, increment } }
    }

    /// Equality (`__eq__`): the same instant, as `jiff` compares zoned
    /// datetimes, and the same options.
    pub fn eq_difference(&self, other: &RyZonedDifference) -> (r: bool)
        ensures
            r == (self.zoned@.0 == other.zoned@.0 && self.options == other.options),
    {
        self.zoned.timestamp().as_nanosecond() == other.zoned.timestamp().as_nanosecond()
            && self.options == other.options
    }

    /// A copy with another smallest unit (`_smallest`).
    pub fn with_smallest(&self, unit: JiffUnit) -> (r: RyZonedDifference)
        ensures
            r.zoned@ == self.zoned@ && r.zoned.time_zone() == self.zoned.time_zone(),
            r.options == (DifferenceOptions { smallest: unit, ..self.options }),
    {
        RyZonedDifference { zoned: self.zoned.duplicate(), options: DifferenceOptions { smallest: unit, ..self.options } }
    }

    /// A copy with a largest unit (`_largest`).
    pub fn with_largest(&self, unit: JiffUnit) -> (r: RyZonedDifference)
        ensures
            r.zoned@ == self.zoned@ && r.zoned.time_zone() == self.zoned.time_zone(),
            r.options == (DifferenceOptions { largest: Some(unit), ..self.options }),
    {
        RyZonedDifference {
            zoned: self.zoned.duplicate(),
            options: DifferenceOptions { largest: Some(unit), ..self.options },
        }
    }

    /// A copy with another rounding mode (`_mode`).
    pub fn with_mode(&self, mode: JiffRoundMode) -> (r: RyZonedDifference)
        ensures
            r.zoned@ == self.zoned@ && r.zoned.time_zone() == self.zoned.time_zone(),
            r.options == (DifferenceOptions { mode, ..self.options }),
    {
        RyZonedDifference { zoned: self.zoned.duplicate(), options: DifferenceOptions { mode, ..self.options } }
    }

    /// A copy with another increment (`_increment`).
    pub fn with_increment(&self, increment: i64) -> (r: RyZonedDifference)
        ensures
            r.zoned@ == self.zoned@ && r.zoned.time_zone() == self.zoned.time_zone(),
            r.options == (DifferenceOptions { increment, ..self.options }),
    {
        RyZonedDifference { zoned: self.zoned.duplicate(), options: DifferenceOptions { increment, ..self.options } }
    }

    /// The repr, `ZonedDateTimeDifference(<zoned repr>, smallest="..",
    /// largest=.., mode="..", increment=N)`.
    pub fn repr(&self) -> (r: String)
        ensures
            r@ == zoned_difference_repr_text(zoned_repr_text(self.zoned.time_zone(), self.zoned@), self.options),
    {
        let mut out = String::new();
        proof {
            reveal_strlit("ZonedDateTimeDifference(");
        }
        push_str(&mut out, "ZonedDateTimeDifference(");
        let inner = self.zoned.repr();
        push_str(&mut out, inner.as_str());
        self.options.push_repr(&mut out);
        assert(out@ =~= zoned_difference_repr_text(inner@, self.options));
        out
    }
}

} // verus!
