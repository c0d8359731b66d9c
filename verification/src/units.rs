//! The small closed vocabularies of the API (units, rounding modes,
//! weekdays, eras, time-zone conflict policies) with their names, the text
//! and numbers accepted for them, and the laws relating the two.
use vstd::prelude::*;
use crate::text::{lower_eq, lower_text, str_eq, ascii_lower, no_ascii_upper};

verus! {

/// Why a value could not be read as one of the closed choices.
#[derive(Clone, Copy, Debug, PartialEq, Eq, Structural)]
pub enum ChoiceError {
    /// The text names none of the choices.
    UnknownName,
    /// The number stands for none of the choices.
    UnknownNumber,
}

/// A calendar or clock unit, from years down to nanoseconds.
#[derive(Clone, Copy, Debug, PartialEq, Eq, Structural, Hash)]
pub enum JiffUnit {
    Year,
    Month,
    Week,
    Day,
    Hour,
    Minute,
    Second,
    Millisecond,
    Microsecond,
    Nanosecond,
}

/// The canonical name of a `JiffUnit`.
pub open spec fn unit_name(x: JiffUnit) -> Seq<char> {
    match x {
        JiffUnit::Year => seq!['y', 'e', 'a', 'r'],
        JiffUnit::Month => seq!['m', 'o', 'n', 't', 'h'],
        JiffUnit::Week => seq!['w', 'e', 'e', 'k'],
        JiffUnit::Day => seq!['d', 'a', 'y'],
        JiffUnit::Hour => seq!['h', 'o', 'u', 'r'],
        JiffUnit::Minute => seq!['m', 'i', 'n', 'u', 't', 'e'],
        JiffUnit::Second => seq!['s', 'e', 'c', 'o', 'n', 'd'],
        JiffUnit::Millisecond => seq!['m', 'i', 'l', 'l', 'i', 's', 'e', 'c', 'o', 'n', 'd'],
        JiffUnit::Microsecond => seq!['m', 'i', 'c', 'r', 'o', 's', 'e', 'c', 'o', 'n', 'd'],
        JiffUnit::Nanosecond => seq!['n', 'a', 'n', 'o', 's', 'e', 'c', 'o', 'n', 'd'],
    }
}

/// The `JiffUnit` that the text `t` names (ASCII case ignored), if any.
pub open spec fn unit_from_name(t: Seq<char>) -> Option<JiffUnit> {
    if lower_text(t) == seq!['y', 'e', 'a', 'r'] {
        Some(JiffUnit::Year)
    } else if lower_text(t) == seq!['m', 'o', 'n', 't', 'h'] {
        Some(JiffUnit::Month)
    } else if lower_text(t) == seq!['w', 'e', 'e', 'k'] {
        Some(JiffUnit::Week)
    } else if lower_text(t) == seq!['d', 'a', 'y'] {
        Some(JiffUnit::Day)
    } else if lower_text(t) == seq!['h', 'o', 'u', 'r'] {
        Some(JiffUnit::Hour)
    } else if lower_text(t) == seq!['m', 'i', 'n', 'u', 't', 'e'] {
        Some(JiffUnit::Minute)
    } else if lower_text(t) == seq!['s', 'e', 'c', 'o', 'n', 'd'] {
        Some(JiffUnit::Second)
    } else if lower_text(t) == seq!['m', 'i', 'l', 'l', 'i', 's', 'e', 'c', 'o', 'n', 'd'] {
        Some(JiffUnit::Millisecond)
    } else if lower_text(t) == seq!['m', 'i', 'c', 'r', 'o', 's', 'e', 'c', 'o', 'n', 'd'] {
        Some(JiffUnit::Microsecond)
    } else if lower_text(t) == seq!['n', 'a', 'n', 'o', 's', 'e', 'c', 'o', 'n', 'd'] {
        Some(JiffUnit::Nanosecond)
    } else {
        None
    }
}

impl JiffUnit {
    /// The canonical name.
    pub fn static_str(self) -> (r: &'static str)
        ensures
            r@ == unit_name(self),
    {
        match self {
            JiffUnit::Year => {
                proof { reveal_strlit("year"); assert("year"@ =~= seq!['y', 'e', 'a', 'r']); }
                "year"
            }
            JiffUnit::Month => {
                proof { reveal_strlit("month"); assert("month"@ =~= seq!['m', 'o', 'n', 't', 'h']); }
                "month"
            }
            JiffUnit::Week => {
                proof { reveal_strlit("week"); assert("week"@ =~= seq!['w', 'e', 'e', 'k']); }
                "week"
            }
            JiffUnit::Day => {
                proof { reveal_strlit("day"); assert("day"@ =~= seq!['d', 'a', 'y']); }
                "day"
            }
            JiffUnit::Hour => {
                proof { reveal_strlit("hour"); assert("hour"@ =~= seq!['h', 'o', 'u', 'r']); }
                "hour"
            }
            JiffUnit::Minute => {
                proof { reveal_strlit("minute"); assert("minute"@ =~= seq!['m', 'i', 'n', 'u', 't', 'e']); }
                "minute"
            }
            JiffUnit::Second => {
                proof { reveal_strlit("second"); assert("second"@ =~= seq!['s', 'e', 'c', 'o', 'n', 'd']); }
                "second"
            }
            JiffUnit::Millisecond => {
                proof { reveal_strlit("millisecond"); assert("millisecond"@ =~= seq!['m', 'i', 'l', 'l', 'i', 's', 'e', 'c', 'o', 'n', 'd']); }
                "millisecond"
            }
            JiffUnit::Microsecond => {
                proof { reveal_strlit("microsecond"); assert("microsecond"@ =~= seq!['m', 'i', 'c', 'r', 'o', 's', 'e', 'c', 'o', 'n', 'd']); }
                "microsecond"
            }
            JiffUnit::Nanosecond => {
                proof { reveal_strlit("nanosecond"); assert("nanosecond"@ =~= seq!['n', 'a', 'n', 'o', 's', 'e', 'c', 'o', 'n', 'd']); }
                "nanosecond"
            }
        }
    }

    /// Parses the name of a `JiffUnit` (ASCII case ignored).
    pub fn parse(s: &str) -> (r: Result<JiffUnit, ChoiceError>)
        ensures
            r == (match unit_from_name(s@) {
                Some(x) => Ok(x),
                None => Err(ChoiceError::UnknownName),
            }),
    {
        proof { reveal_strlit("year"); assert("year"@ =~= seq!['y', 'e', 'a', 'r']); }
        if lower_eq(s, "year") {
            return Ok(JiffUnit::Year);
        }
        proof { reveal_strlit("month"); assert("month"@ =~= seq!['m', 'o', 'n', 't', 'h']); }
        if lower_eq(s, "month") {
            return Ok(JiffUnit::Month);
        }
        proof { reveal_strlit("week"); assert("week"@ =~= seq!['w', 'e', 'e', 'k']); }
        if lower_eq(s, "week") {
            return Ok(JiffUnit::Week);
        }
        proof { reveal_strlit("day"); assert("day"@ =~= seq!['d', 'a', 'y']); }
        if lower_eq(s, "day") {
            return Ok(JiffUnit::Day);
        }
        proof { reveal_strlit("hour"); assert("hour"@ =~= seq!['h', 'o', 'u', 'r']); }
        if lower_eq(s, "hour") {
            return Ok(JiffUnit::Hour);
        }
        proof { reveal_strlit("minute"); assert("minute"@ =~= seq!['m', 'i', 'n', 'u', 't', 'e']); }
        if lower_eq(s, "minute") {
            return Ok(JiffUnit::Minute);
        }
        proof { reveal_strlit("second"); assert("second"@ =~= seq!['s', 'e', 'c', 'o', 'n', 'd']); }
        if lower_eq(s, "second") {
            return Ok(JiffUnit::Second);
        }
        proof { reveal_strlit("millisecond"); assert("millisecond"@ =~= seq!['m', 'i', 'l', 'l', 'i', 's', 'e', 'c', 'o', 'n', 'd']); }
        if lower_eq(s, "millisecond") {
            return Ok(JiffUnit::Millisecond);
        }
        proof { reveal_strlit("microsecond"); assert("microsecond"@ =~= seq!['m', 'i', 'c', 'r', 'o', 's', 'e', 'c', 'o', 'n', 'd']); }
        if lower_eq(s, "microsecond") {
            return Ok(JiffUnit::Microsecond);
        }
        proof { reveal_strlit("nanosecond"); assert("nanosecond"@ =~= seq!['n', 'a', 'n', 'o', 's', 'e', 'c', 'o', 'n', 'd']); }
        if lower_eq(s, "nanosecond") {
            return Ok(JiffUnit::Nanosecond);
        }
        Err(ChoiceError::UnknownName)
    }
}

/// How a value is rounded to an increment.
#[derive(Clone, Copy, Debug, PartialEq, Eq, Structural, Hash)]
pub enum JiffRoundMode {
    Ceil,
    Floor,
    Expand,
    Trunc,
    HalfCeil,
    HalfFloor,
    HalfExpand,
    HalfTrunc,
    HalfEven,
}

/// The canonical name of a `JiffRoundMode`.
pub open spec fn round_mode_name(x: JiffRoundMode) -> Seq<char> {
    match x {
        JiffRoundMode::Ceil => seq!['c', 'e', 'i', 'l'],
        JiffRoundMode::Floor => seq!['f', 'l', 'o', 'o', 'r'],
        JiffRoundMode::Expand => seq!['e', 'x', 'p', 'a', 'n', 'd'],
        JiffRoundMode::Trunc => seq!['t', 'r', 'u', 'n', 'c'],
        JiffRoundMode::HalfCeil => seq!['h', 'a', 'l', 'f', '-', 'c', 'e', 'i', 'l'],
        JiffRoundMode::HalfFloor => seq!['h', 'a', 'l', 'f', '-', 'f', 'l', 'o', 'o', 'r'],
        JiffRoundMode::HalfExpand => seq!['h', 'a', 'l', 'f', '-', 'e', 'x', 'p', 'a', 'n', 'd'],
        JiffRoundMode::HalfTrunc => seq!['h', 'a', 'l', 'f', '-', 't', 'r', 'u', 'n', 'c'],
        JiffRoundMode::HalfEven => seq!['h', 'a', 'l', 'f', '-', 'e', 'v', 'e', 'n'],
    }
}

/// The `JiffRoundMode` that the text `t` names (ASCII case ignored), if any.
pub open spec fn round_mode_from_name(t: Seq<char>) -> Option<JiffRoundMode> {
    if lower_text(t) == seq!['c', 'e', 'i', 'l'] {
        Some(JiffRoundMode::Ceil)
    } else if lower_text(t) == seq!['f', 'l', 'o', 'o', 'r'] {
        Some(JiffRoundMode::Floor)
    } else if lower_text(t) == seq!['e', 'x', 'p', 'a', 'n', 'd'] {
        Some(JiffRoundMode::Expand)
    } else if lower_text(t) == seq!['t', 'r', 'u', 'n', 'c'] {
        Some(JiffRoundMode::Trunc)
    } else if lower_text(t) == seq!['h', 'a', 'l', 'f', '-', 'c', 'e', 'i', 'l'] {
        Some(JiffRoundMode::HalfCeil)
    } else if lower_text(t) == seq!['h', 'a', 'l', 'f', '_', 'c', 'e', 'i', 'l'] {
        Some(JiffRoundMode::HalfCeil)
    } else if lower_text(t) == seq!['h', 'a', 'l', 'f', '-', 'f', 'l', 'o', 'o', 'r'] {
        Some(JiffRoundMode::HalfFloor)
    } else if lower_text(t) == seq!['h', 'a', 'l', 'f', '_', 'f', 'l', 'o', 'o', 'r'] {
        Some(JiffRoundMode::HalfFloor)
    } else if lower_text(t) == seq!['h', 'a', 'l', 'f', '-', 'e', 'x', 'p', 'a', 'n', 'd'] {
        Some(JiffRoundMode::HalfExpand)
    } else if lower_text(t) == seq!['h', 'a', 'l', 'f', '_', 'e', 'x', 'p', 'a', 'n', 'd'] {
        Some(JiffRoundMode::HalfExpand)
    } else if lower_text(t) == seq!['h', 'a', 'l', 'f', '-', 't', 'r', 'u', 'n', 'c'] {
        Some(JiffRoundMode::HalfTrunc)
    } else if lower_text(t) == seq!['h', 'a', 'l', 'f', '_', 't', 'r', 'u', 'n', 'c'] {
        Some(JiffRoundMode::HalfTrunc)
    } else if lower_text(t) == seq!['h', 'a', 'l', 'f', '-', 'e', 'v', 'e', 'n'] {
        Some(JiffRoundMode::HalfEven)
    } else if lower_text(t) == seq!['h', 'a', 'l', 'f', '_', 'e', 'v', 'e', 'n'] {
        Some(JiffRoundMode::HalfEven)
    } else {
        None
    }
}

impl JiffRoundMode {
    /// The canonical name.
    pub fn static_str(self) -> (r: &'static str)
        ensures
            r@ == round_mode_name(self),
    {
        match self {
            JiffRoundMode::Ceil => {
                proof { reveal_strlit("ceil"); assert("ceil"@ =~= seq!['c', 'e', 'i', 'l']); }
                "ceil"
            }
            JiffRoundMode::Floor => {
                proof { reveal_strlit("floor"); assert("floor"@ =~= seq!['f', 'l', 'o', 'o', 'r']); }
                "floor"
            }
            JiffRoundMode::Expand => {
                proof { reveal_strlit("expand"); assert("expand"@ =~= seq!['e', 'x', 'p', 'a', 'n', 'd']); }
                "expand"
            }
            JiffRoundMode::Trunc => {
                proof { reveal_strlit("trunc"); assert("trunc"@ =~= seq!['t', 'r', 'u', 'n', 'c']); }
                "trunc"
            }
            JiffRoundMode::HalfCeil => {
                proof { reveal_strlit("half-ceil"); assert("half-ceil"@ =~= seq!['h', 'a', 'l', 'f', '-', 'c', 'e', 'i', 'l']); }
                "half-ceil"
            }
            JiffRoundMode::HalfFloor => {
                proof { reveal_strlit("half-floor"); assert("half-floor"@ =~= seq!['h', 'a', 'l', 'f', '-', 'f', 'l', 'o', 'o', 'r']); }
                "half-floor"
            }
            JiffRoundMode::HalfExpand => {
                proof { reveal_strlit("half-expand"); assert("half-expand"@ =~= seq!['h', 'a', 'l', 'f', '-', 'e', 'x', 'p', 'a', 'n', 'd']); }
                "half-expand"
            }
            JiffRoundMode::HalfTrunc => {
                proof { reveal_strlit("half-trunc"); assert("half-trunc"@ =~= seq!['h', 'a', 'l', 'f', '-', 't', 'r', 'u', 'n', 'c']); }
                "half-trunc"
            }
            JiffRoundMode::HalfEven => {
                proof { reveal_strlit("half-even"); assert("half-even"@ =~= seq!['h', 'a', 'l', 'f', '-', 'e', 'v', 'e', 'n']); }
                "half-even"
            }
        }
    }

    /// Parses the name of a `JiffRoundMode` (ASCII case ignored).
    pub fn parse(s: &str) -> (r: Result<JiffRoundMode, ChoiceError>)
        ensures
            r == (match round_mode_from_name(s@) {
                Some(x) => Ok(x),
                None => Err(ChoiceError::UnknownName),
            }),
    {
        proof { reveal_strlit("ceil"); assert("ceil"@ =~= seq!['c', 'e', 'i', 'l']); }
        if lower_eq(s, "ceil") {
            return Ok(JiffRoundMode::Ceil);
        }
        proof { reveal_strlit("floor"); assert("floor"@ =~= seq!['f', 'l', 'o', 'o', 'r']); }
        if lower_eq(s, "floor") {
            return Ok(JiffRoundMode::Floor);
        }
        proof { reveal_strlit("expand"); assert("expand"@ =~= seq!['e', 'x', 'p', 'a', 'n', 'd']); }
        if lower_eq(s, "expand") {
            return Ok(JiffRoundMode::Expand);
        }
        proof { reveal_strlit("trunc"); assert("trunc"@ =~= seq!['t', 'r', 'u', 'n', 'c']); }
        if lower_eq(s, "trunc") {
            return Ok(JiffRoundMode::Trunc);
        }
        proof { reveal_strlit("half-ceil"); assert("half-ceil"@ =~= seq!['h', 'a', 'l', 'f', '-', 'c', 'e', 'i', 'l']); }
        if lower_eq(s, "half-ceil") {
            return Ok(JiffRoundMode::HalfCeil);
        }
        proof { reveal_strlit("half_ceil"); assert("half_ceil"@ =~= seq!['h', 'a', 'l', 'f', '_', 'c', 'e', 'i', 'l']); }
        if lower_eq(s, "half_ceil") {
            return Ok(JiffRoundMode::HalfCeil);
        }
        proof { reveal_strlit("half-floor"); assert("half-floor"@ =~= seq!['h', 'a', 'l', 'f', '-', 'f', 'l', 'o', 'o', 'r']); }
        if lower_eq(s, "half-floor") {
            return Ok(JiffRoundMode::HalfFloor);
        }
        proof { reveal_strlit("half_floor"); assert("half_floor"@ =~= seq!['h', 'a', 'l', 'f', '_', 'f', 'l', 'o', 'o', 'r']); }
        if lower_eq(s, "half_floor") {
            return Ok(JiffRoundMode::HalfFloor);
        }
        proof { reveal_strlit("half-expand"); assert("half-expand"@ =~= seq!['h', 'a', 'l', 'f', '-', 'e', 'x', 'p', 'a', 'n', 'd']); }
        if lower_eq(s, "half-expand") {
            return Ok(JiffRoundMode::HalfExpand);
        }
        proof { reveal_strlit("half_expand"); assert("half_expand"@ =~= seq!['h', 'a', 'l', 'f', '_', 'e', 'x', 'p', 'a', 'n', 'd']); }
        if lower_eq(s, "half_expand") {
            return Ok(JiffRoundMode::HalfExpand);
        }
        proof { reveal_strlit("half-trunc"); assert("half-trunc"@ =~= seq!['h', 'a', 'l', 'f', '-', 't', 'r', 'u', 'n', 'c']); }
        if lower_eq(s, "half-trunc") {
            return Ok(JiffRoundMode::HalfTrunc);
        }
        proof { reveal_strlit("half_trunc"); assert("half_trunc"@ =~= seq!['h', 'a', 'l', 'f', '_', 't', 'r', 'u', 'n', 'c']); }
        if lower_eq(s, "half_trunc") {
            return Ok(JiffRoundMode::HalfTrunc);
        }
        proof { reveal_strlit("half-even"); assert("half-even"@ =~= seq!['h', 'a', 'l', 'f', '-', 'e', 'v', 'e', 'n']); }
        if lower_eq(s, "half-even") {
            return Ok(JiffRoundMode::HalfEven);
        }
        proof { reveal_strlit("half_even"); assert("half_even"@ =~= seq!['h', 'a', 'l', 'f', '_', 'e', 'v', 'e', 'n']); }
        if lower_eq(s, "half_even") {
            return Ok(JiffRoundMode::HalfEven);
        }
        Err(ChoiceError::UnknownName)
    }
}

/// A day of the week.
#[derive(Clone, Copy, Debug, PartialEq, Eq, Structural, Hash)]
pub enum JiffWeekday {
    Monday,
    Tuesday,
    Wednesday,
    Thursday,
    Friday,
    Saturday,
    Sunday,
}

/// The canonical name of a `JiffWeekday`.
pub open spec fn weekday_name(x: JiffWeekday) -> Seq<char> {
    match x {
        JiffWeekday::Monday => seq!['m', 'o', 'n', 'd', 'a', 'y'],
        JiffWeekday::Tuesday => seq!['t', 'u', 'e', 's', 'd', 'a', 'y'],
        JiffWeekday::Wednesday => seq!['w', 'e', 'd', 'n', 'e', 's', 'd', 'a', 'y'],
        JiffWeekday::Thursday => seq!['t', 'h', 'u', 'r', 's', 'd', 'a', 'y'],
        JiffWeekday::Friday => seq!['f', 'r', 'i', 'd', 'a', 'y'],
        JiffWeekday::Saturday => seq!['s', 'a', 't', 'u', 'r', 'd', 'a', 'y'],
        JiffWeekday::Sunday => seq!['s', 'u', 'n', 'd', 'a', 'y'],
    }
}

/// The `JiffWeekday` that the text `t` names (exact spelling), if any.
pub open spec fn weekday_from_name(t: Seq<char>) -> Option<JiffWeekday> {
    if t == seq!['m', 'o', 'n', 'd', 'a', 'y'] {
        Some(JiffWeekday::Monday)
    } else if t == seq!['M', 'O', 'N', 'D', 'A', 'Y'] {
        Some(JiffWeekday::Monday)
    } else if t == seq!['t', 'u', 'e', 's', 'd', 'a', 'y'] {
        Some(JiffWeekday::Tuesday)
    } else if t == seq!['T', 'U', 'E', 'S', 'D', 'A', 'Y'] {
        Some(JiffWeekday::Tuesday)
    } else if t == seq!['w', 'e', 'd', 'n', 'e', 's', 'd', 'a', 'y'] {
        Some(JiffWeekday::Wednesday)
    } else if t == seq!['W', 'E', 'D', 'N', 'E', 'S', 'D', 'A', 'Y'] {
        Some(JiffWeekday::Wednesday)
    } else if t == seq!['t', 'h', 'u', 'r', 's', 'd', 'a', 'y'] {
        Some(JiffWeekday::Thursday)
    } else if t == seq!['T', 'H', 'U', 'R', 'S', 'D', 'A', 'Y'] {
        Some(JiffWeekday::Thursday)
    } else if t == seq!['f', 'r', 'i', 'd', 'a', 'y'] {
        Some(JiffWeekday::Friday)
    } else if t == seq!['F', 'R', 'I', 'D', 'A', 'Y'] {
        Some(JiffWeekday::Friday)
    } else if t == seq!['s', 'a', 't', 'u', 'r', 'd', 'a', 'y'] {
        Some(JiffWeekday::Saturday)
    } else if t == seq!['S', 'A', 'T', 'U', 'R', 'D', 'A', 'Y'] {
        Some(JiffWeekday::Saturday)
    } else if t == seq!['s', 'u', 'n', 'd', 'a', 'y'] {
        Some(JiffWeekday::Sunday)
    } else if t == seq!['S', 'U', 'N', 'D', 'A', 'Y'] {
        Some(JiffWeekday::Sunday)
    } else {
        None
    }
}

impl JiffWeekday {
    /// The canonical name.
    pub fn static_str(self) -> (r: &'static str)
        ensures
            r@ == weekday_name(self),
    {
        match self {
            JiffWeekday::Monday => {
                proof { reveal_strlit("monday"); assert("monday"@ =~= seq!['m', 'o', 'n', 'd', 'a', 'y']); }
                "monday"
            }
            JiffWeekday::Tuesday => {
                proof { reveal_strlit("tuesday"); assert("tuesday"@ =~= seq!['t', 'u', 'e', 's', 'd', 'a', 'y']); }
                "tuesday"
            }
            JiffWeekday::Wednesday => {
                proof { reveal_strlit("wednesday"); assert("wednesday"@ =~= seq!['w', 'e', 'd', 'n', 'e', 's', 'd', 'a', 'y']); }
                "wednesday"
            }
            JiffWeekday::Thursday => {
                proof { reveal_strlit("thursday"); assert("thursday"@ =~= seq!['t', 'h', 'u', 'r', 's', 'd', 'a', 'y']); }
                "thursday"
            }
            JiffWeekday::Friday => {
                proof { reveal_strlit("friday"); assert("friday"@ =~= seq!['f', 'r', 'i', 'd', 'a', 'y']); }
                "friday"
            }
            JiffWeekday::Saturday => {
                proof { reveal_strlit("saturday"); assert("saturday"@ =~= seq!['s', 'a', 't', 'u', 'r', 'd', 'a', 'y']); }
                "saturday"
            }
            JiffWeekday::Sunday => {
                proof { reveal_strlit("sunday"); assert("sunday"@ =~= seq!['s', 'u', 'n', 'd', 'a', 'y']); }
                "sunday"
            }
        }
    }

    /// Parses the name of a `JiffWeekday` (exact spelling).
    pub fn parse(s: &str) -> (r: Result<JiffWeekday, ChoiceError>)
        ensures
            r == (match weekday_from_name(s@) {
                Some(x) => Ok(x),
                None => Err(ChoiceError::UnknownName),
            }),
    {
        proof { reveal_strlit("monday"); assert("monday"@ =~= seq!['m', 'o', 'n', 'd', 'a', 'y']); }
        if str_eq(s, "monday") {
            return Ok(JiffWeekday::Monday);
        }
        proof { reveal_strlit("MONDAY"); assert("MONDAY"@ =~= seq!['M', 'O', 'N', 'D', 'A', 'Y']); }
        if str_eq(s, "MONDAY") {
            return Ok(JiffWeekday::Monday);
        }
        proof { reveal_strlit("tuesday"); assert("tuesday"@ =~= seq!['t', 'u', 'e', 's', 'd', 'a', 'y']); }
        if str_eq(s, "tuesday") {
            return Ok(JiffWeekday::Tuesday);
        }
        proof { reveal_strlit("TUESDAY"); assert("TUESDAY"@ =~= seq!['T', 'U', 'E', 'S', 'D', 'A', 'Y']); }
        if str_eq(s, "TUESDAY") {
            return Ok(JiffWeekday::Tuesday);
        }
        proof { reveal_strlit("wednesday"); assert("wednesday"@ =~= seq!['w', 'e', 'd', 'n', 'e', 's', 'd', 'a', 'y']); }
        if str_eq(s, "wednesday") {
            return Ok(JiffWeekday::Wednesday);
        }
        proof { reveal_strlit("WEDNESDAY"); assert("WEDNESDAY"@ =~= seq!['W', 'E', 'D', 'N', 'E', 'S', 'D', 'A', 'Y']); }
        if str_eq(s, "WEDNESDAY") {
            return Ok(JiffWeekday::Wednesday);
        }
        proof { reveal_strlit("thursday"); assert("thursday"@ =~= seq!['t', 'h', 'u', 'r', 's', 'd', 'a', 'y']); }
        if str_eq(s, "thursday") {
            return Ok(JiffWeekday::Thursday);
        }
        proof { reveal_strlit("THURSDAY"); assert("THURSDAY"@ =~= seq!['T', 'H', 'U', 'R', 'S', 'D', 'A', 'Y']); }
        if str_eq(s, "THURSDAY") {
            return Ok(JiffWeekday::Thursday);
        }
        proof { reveal_strlit("friday"); assert("friday"@ =~= seq!['f', 'r', 'i', 'd', 'a', 'y']); }
        if str_eq(s, "friday") {
            return Ok(JiffWeekday::Friday);
        }
        proof { reveal_strlit("FRIDAY"); assert("FRIDAY"@ =~= seq!['F', 'R', 'I', 'D', 'A', 'Y']); }
        if str_eq(s, "FRIDAY") {
            return Ok(JiffWeekday::Friday);
        }
        proof { reveal_strlit("saturday"); assert("saturday"@ =~= seq!['s', 'a', 't', 'u', 'r', 'd', 'a', 'y']); }
        if str_eq(s, "saturday") {
            return Ok(JiffWeekday::Saturday);
        }
        proof { reveal_strlit("SATURDAY"); assert("SATURDAY"@ =~= seq!['S', 'A', 'T', 'U', 'R', 'D', 'A', 'Y']); }
        if str_eq(s, "SATURDAY") {
            return Ok(JiffWeekday::Saturday);
        }
        proof { reveal_strlit("sunday"); assert("sunday"@ =~= seq!['s', 'u', 'n', 'd', 'a', 'y']); }
        if str_eq(s, "sunday") {
            return Ok(JiffWeekday::Sunday);
        }
        proof { reveal_strlit("SUNDAY"); assert("SUNDAY"@ =~= seq!['S', 'U', 'N', 'D', 'A', 'Y']); }
        if str_eq(s, "SUNDAY") {
            return Ok(JiffWeekday::Sunday);
        }
        Err(ChoiceError::UnknownName)
    }
}

/// The era of a year: before or in the common era.
#[derive(Clone, Copy, Debug, PartialEq, Eq, Structural, Hash)]
pub enum JiffEra {
    BCE,
    CE,
}

/// The canonical name of a `JiffEra`.
pub open spec fn era_name(x: JiffEra) -> Seq<char> {
    match x {
        JiffEra::BCE => seq!['B', 'C', 'E'],
        JiffEra::CE => seq!['C', 'E'],
    }
}

/// The `JiffEra` that the text `t` names, ASCII case ignored: `bce` or
/// `bc` for before the common era, `ce` or `ad` for the common era.
pub open spec fn era_from_name(t: Seq<char>) -> Option<JiffEra> {
    let l = lower_text(t);
    if l == seq!['b', 'c', 'e'] || l == seq!['b', 'c'] {
        Some(JiffEra::BCE)
    } else if l == seq!['c', 'e'] || l == seq!['a', 'd'] {
        Some(JiffEra::CE)
    } else {
        None
    }
}

impl JiffEra {
    /// The canonical name.
    pub fn static_str(self) -> (r: &'static str)
        ensures
            r@ == era_name(self),
    {
        match self {
            JiffEra::BCE => {
                proof { reveal_strlit("BCE"); assert("BCE"@ =~= seq!['B', 'C', 'E']); }
                "BCE"
            }
            JiffEra::CE => {
                proof { reveal_strlit("CE"); assert("CE"@ =~= seq!['C', 'E']); }
                "CE"
            }
        }
    }

    /// Parses the name of a `JiffEra`, ASCII case ignored (`BCE`/`BC`,
    /// `CE`/`AD`).
    pub fn parse(s: &str) -> (r: Result<JiffEra, ChoiceError>)
        ensures
            r == (match era_from_name(s@) {
                Some(x) => Ok(x),
                None => Err(ChoiceError::UnknownName),
            }),
    {
        proof {
            reveal_strlit("bce");
            reveal_strlit("bc");
            reveal_strlit("ce");
            reveal_strlit("ad");
            assert("bce"@ =~= seq!['b', 'c', 'e']);
            assert("bc"@ =~= seq!['b', 'c']);
            assert("ce"@ =~= seq!['c', 'e']);
            assert("ad"@ =~= seq!['a', 'd']);
        }
        if lower_eq(s, "bce") || lower_eq(s, "bc") {
            Ok(JiffEra::BCE)
        } else if lower_eq(s, "ce") || lower_eq(s, "ad") {
            Ok(JiffEra::CE)
        } else {
            Err(ChoiceError::UnknownName)
        }
    }
}

/// How a civil datetime that is ambiguous in a time zone is resolved.
#[derive(Clone, Copy, Debug, PartialEq, Eq, Structural, Hash)]
pub enum JiffTzDisambiguation {
    Compatible,
    Earlier,
    Later,
    Reject,
}

/// The canonical name of a `JiffTzDisambiguation`.
pub open spec fn disambiguation_name(x: JiffTzDisambiguation) -> Seq<char> {
    match x {
        JiffTzDisambiguation::Compatible => seq!['c', 'o', 'm', 'p', 'a', 't', 'i', 'b', 'l', 'e'],
        JiffTzDisambiguation::Earlier => seq!['e', 'a', 'r', 'l', 'i', 'e', 'r'],
        JiffTzDisambiguation::Later => seq!['l', 'a', 't', 'e', 'r'],
        JiffTzDisambiguation::Reject => seq!['r', 'e', 'j', 'e', 'c', 't'],
    }
}

/// The `JiffTzDisambiguation` that the text `t` names (exact spelling), if any.
pub open spec fn disambiguation_from_name(t: Seq<char>) -> Option<JiffTzDisambiguation> {
    if t == seq!['c', 'o', 'm', 'p', 'a', 't', 'i', 'b', 'l', 'e'] {
        Some(JiffTzDisambiguation::Compatible)
    } else if t == seq!['e', 'a', 'r', 'l', 'i', 'e', 'r'] {
        Some(JiffTzDisambiguation::Earlier)
    } else if t == seq!['l', 'a', 't', 'e', 'r'] {
        Some(JiffTzDisambiguation::Later)
    } else if t == seq!['r', 'e', 'j', 'e', 'c', 't'] {
        Some(JiffTzDisambiguation::Reject)
    } else {
        None
    }
}

impl JiffTzDisambiguation {
    /// The canonical name.
    pub fn static_str(self) -> (r: &'static str)
        ensures
            r@ == disambiguation_name(self),
    {
        match self {
            JiffTzDisambiguation::Compatible => {
                proof { reveal_strlit("compatible"); assert("compatible"@ =~= seq!['c', 'o', 'm', 'p', 'a', 't', 'i', 'b', 'l', 'e']); }
                "compatible"
            }
            JiffTzDisambiguation::Earlier => {
                proof { reveal_strlit("earlier"); assert("earlier"@ =~= seq!['e', 'a', 'r', 'l', 'i', 'e', 'r']); }
                "earlier"
            }
            JiffTzDisambiguation::Later => {
                proof { reveal_strlit("later"); assert("later"@ =~= seq!['l', 'a', 't', 'e', 'r']); }
                "later"
            }
            JiffTzDisambiguation::Reject => {
                proof { reveal_strlit("reject"); assert("reject"@ =~= seq!['r', 'e', 'j', 'e', 'c', 't']); }
                "reject"
            }
        }
    }

    /// Parses the name of a `JiffTzDisambiguation` (exact spelling).
    pub fn parse(s: &str) -> (r: Result<JiffTzDisambiguation, ChoiceError>)
        ensures
            r == (match disambiguation_from_name(s@) {
                Some(x) => Ok(x),
                None => Err(ChoiceError::UnknownName),
            }),
    {
        proof { reveal_strlit("compatible"); assert("compatible"@ =~= seq!['c', 'o', 'm', 'p', 'a', 't', 'i', 'b', 'l', 'e']); }
        if str_eq(s, "compatible") {
            return Ok(JiffTzDisambiguation::Compatible);
        }
        proof { reveal_strlit("earlier"); assert("earlier"@ =~= seq!['e', 'a', 'r', 'l', 'i', 'e', 'r']); }
        if str_eq(s, "earlier") {
            return Ok(JiffTzDisambiguation::Earlier);
        }
        proof { reveal_strlit("later"); assert("later"@ =~= seq!['l', 'a', 't', 'e', 'r']); }
        if str_eq(s, "later") {
            return Ok(JiffTzDisambiguation::Later);
        }
        proof { reveal_strlit("reject"); assert("reject"@ =~= seq!['r', 'e', 'j', 'e', 'c', 't']); }
        if str_eq(s, "reject") {
            return Ok(JiffTzDisambiguation::Reject);
        }
        Err(ChoiceError::UnknownName)
    }
}

/// How a conflict between an explicit offset and a time zone is resolved.
#[derive(Clone, Copy, Debug, PartialEq, Eq, Structural, Hash)]
pub enum JiffTzOffsetConflict {
    AlwaysOffset,
    AlwaysTimeZone,
    PreferOffset,
    Reject,
}

/// The canonical name of a `JiffTzOffsetConflict`.
pub open spec fn offset_conflict_name(x: JiffTzOffsetConflict) -> Seq<char> {
    match x {
        JiffTzOffsetConflict::AlwaysOffset => seq!['a', 'l', 'w', 'a', 'y', 's', '-', 'o', 'f', 'f', 's', 'e', 't'],
        JiffTzOffsetConflict::AlwaysTimeZone => seq!['a', 'l', 'w', 'a', 'y', 's', '-', 't', 'i', 'm', 'e', 'z', 'o', 'n', 'e'],
        JiffTzOffsetConflict::PreferOffset => seq!['p', 'r', 'e', 'f', 'e', 'r', '-', 'o', 'f', 'f', 's', 'e', 't'],
        JiffTzOffsetConflict::Reject => seq!['r', 'e', 'j', 'e', 'c', 't'],
    }
}

/// The `JiffTzOffsetConflict` that the text `t` names (exact spelling), if any.
pub open spec fn offset_conflict_from_name(t: Seq<char>) -> Option<JiffTzOffsetConflict> {
    if t == seq!['a', 'l', 'w', 'a', 'y', 's', '_', 'o', 'f', 'f', 's', 'e', 't'] {
        Some(JiffTzOffsetConflict::AlwaysOffset)
    } else if t == seq!['a', 'l', 'w', 'a', 'y', 's', '-', 'o', 'f', 'f', 's', 'e', 't'] {
        Some(JiffTzOffsetConflict::AlwaysOffset)
    } else if t == seq!['a', 'l', 'w', 'a', 'y', 's', '_', 't', 'i', 'm', 'e', 'z', 'o', 'n', 'e'] {
        Some(JiffTzOffsetConflict::AlwaysTimeZone)
    } else if t == seq!['a', 'l', 'w', 'a', 'y', 's', '-', 't', 'i', 'm', 'e', 'z', 'o', 'n', 'e'] {
        Some(JiffTzOffsetConflict::AlwaysTimeZone)
    } else if t == seq!['p', 'r', 'e', 'f', 'e', 'r', '_', 'o', 'f', 'f', 's', 'e', 't'] {
        Some(JiffTzOffsetConflict::PreferOffset)
    } else if t == seq!['p', 'r', 'e', 'f', 'e', 'r', '-', 'o', 'f', 'f', 's', 'e', 't'] {
        Some(JiffTzOffsetConflict::PreferOffset)
    } else if t == seq!['r', 'e', 'j', 'e', 'c', 't'] {
        Some(JiffTzOffsetConflict::Reject)
    } else {
        None
    }
}

impl JiffTzOffsetConflict {
    /// The canonical name.
    pub fn static_str(self) -> (r: &'static str)
        ensures
            r@ == offset_conflict_name(self),
    {
        match self {
            JiffTzOffsetConflict::AlwaysOffset => {
                proof { reveal_strlit("always-offset"); assert("always-offset"@ =~= seq!['a', 'l', 'w', 'a', 'y', 's', '-', 'o', 'f', 'f', 's', 'e', 't']); }
                "always-offset"
            }
            JiffTzOffsetConflict::AlwaysTimeZone => {
                proof { reveal_strlit("always-timezone"); assert("always-timezone"@ =~= seq!['a', 'l', 'w', 'a', 'y', 's', '-', 't', 'i', 'm', 'e', 'z', 'o', 'n', 'e']); }
                "always-timezone"
            }
            JiffTzOffsetConflict::PreferOffset => {
                proof { reveal_strlit("prefer-offset"); assert("prefer-offset"@ =~= seq!['p', 'r', 'e', 'f', 'e', 'r', '-', 'o', 'f', 'f', 's', 'e', 't']); }
                "prefer-offset"
            }
            JiffTzOffsetConflict::Reject => {
                proof { reveal_strlit("reject"); assert("reject"@ =~= seq!['r', 'e', 'j', 'e', 'c', 't']); }
                "reject"
            }
        }
    }

    /// Parses the name of a `JiffTzOffsetConflict` (exact spelling).
    pub fn parse(s: &str) -> (r: Result<JiffTzOffsetConflict, ChoiceError>)
        ensures
            r == (match offset_conflict_from_name(s@) {
                Some(x) => Ok(x),
                None => Err(ChoiceError::UnknownName),
            }),
    {
        proof { reveal_strlit("always_offset"); assert("always_offset"@ =~= seq!['a', 'l', 'w', 'a', 'y', 's', '_', 'o', 'f', 'f', 's', 'e', 't']); }
        if str_eq(s, "always_offset") {
            return Ok(JiffTzOffsetConflict::AlwaysOffset);
        }
        proof { reveal_strlit("always-offset"); assert("always-offset"@ =~= seq!['a', 'l', 'w', 'a', 'y', 's', '-', 'o', 'f', 'f', 's', 'e', 't']); }
        if str_eq(s, "always-offset") {
            return Ok(JiffTzOffsetConflict::AlwaysOffset);
        }
        proof { reveal_strlit("always_timezone"); assert("always_timezone"@ =~= seq!['a', 'l', 'w', 'a', 'y', 's', '_', 't', 'i', 'm', 'e', 'z', 'o', 'n', 'e']); }
        if str_eq(s, "always_timezone") {
            return Ok(JiffTzOffsetConflict::AlwaysTimeZone);
        }
        proof { reveal_strlit("always-timezone"); assert("always-timezone"@ =~= seq!['a', 'l', 'w', 'a', 'y', 's', '-', 't', 'i', 'm', 'e', 'z', 'o', 'n', 'e']); }
        if str_eq(s, "always-timezone") {
            return Ok(JiffTzOffsetConflict::AlwaysTimeZone);
        }
        proof { reveal_strlit("prefer_offset"); assert("prefer_offset"@ =~= seq!['p', 'r', 'e', 'f', 'e', 'r', '_', 'o', 'f', 'f', 's', 'e', 't']); }
        if str_eq(s, "prefer_offset") {
            return Ok(JiffTzOffsetConflict::PreferOffset);
        }
        proof { reveal_strlit("prefer-offset"); assert("prefer-offset"@ =~= seq!['p', 'r', 'e', 'f', 'e', 'r', '-', 'o', 'f', 'f', 's', 'e', 't']); }
        if str_eq(s, "prefer-offset") {
            return Ok(JiffTzOffsetConflict::PreferOffset);
        }
        proof { reveal_strlit("reject"); assert("reject"@ =~= seq!['r', 'e', 'j', 'e', 'c', 't']); }
        if str_eq(s, "reject") {
            return Ok(JiffTzOffsetConflict::Reject);
        }
        Err(ChoiceError::UnknownName)
    }
}

/// The unit-label style of the friendly duration format.
#[derive(Clone, Copy, Debug, PartialEq, Eq, Structural, Hash)]
pub enum PyDesignator {
    HumanTime,
    Short,
    Compact,
    Verbose,
}

/// The canonical name of a `PyDesignator`.
pub open spec fn designator_name(x: PyDesignator) -> Seq<char> {
    match x {
        PyDesignator::HumanTime => seq!['h', 'u', 'm', 'a', 'n', '-', 't', 'i', 'm', 'e'],
        PyDesignator::Short => seq!['s', 'h', 'o', 'r', 't'],
        PyDesignator::Compact => seq!['c', 'o', 'm', 'p', 'a', 'c', 't'],
        PyDesignator::Verbose => seq!['v', 'e', 'r', 'b', 'o', 's', 'e'],
    }
}

/// The `PyDesignator` that the text `t` names (exact spelling), if any.
pub open spec fn designator_from_name(t: Seq<char>) -> Option<PyDesignator> {
    if t == seq!['h', 'u', 'm', 'a', 'n', '-', 't', 'i', 'm', 'e'] {
        Some(PyDesignator::HumanTime)
    } else if t == seq!['h', 'u', 'm', 'a', 'n'] {
        Some(PyDesignator::HumanTime)
    } else if t == seq!['s', 'h', 'o', 'r', 't'] {
        Some(PyDesignator::Short)
    } else if t == seq!['c', 'o', 'm', 'p', 'a', 'c', 't'] {
        Some(PyDesignator::Compact)
    } else if t == seq!['v', 'e', 'r', 'b', 'o', 's', 'e'] {
        Some(PyDesignator::Verbose)
    } else {
        None
    }
}

impl PyDesignator {
    /// The canonical name.
    pub fn static_str(self) -> (r: &'static str)
        ensures
            r@ == designator_name(self),
    {
        match self {
            PyDesignator::HumanTime => {
                proof { reveal_strlit("human-time"); assert("human-time"@ =~= seq!['h', 'u', 'm', 'a', 'n', '-', 't', 'i', 'm', 'e']); }
                "human-time"
            }
            PyDesignator::Short => {
                proof { reveal_strlit("short"); assert("short"@ =~= seq!['s', 'h', 'o', 'r', 't']); }
                "short"
            }
            PyDesignator::Compact => {
                proof { reveal_strlit("compact"); assert("compact"@ =~= seq!['c', 'o', 'm', 'p', 'a', 'c', 't']); }
                "compact"
            }
            PyDesignator::Verbose => {
                proof { reveal_strlit("verbose"); assert("verbose"@ =~= seq!['v', 'e', 'r', 'b', 'o', 's', 'e']); }
                "verbose"
            }
        }
    }

    /// Parses the name of a `PyDesignator` (exact spelling).
    pub fn parse(s: &str) -> (r: Result<PyDesignator, ChoiceError>)
        ensures
            r == (match designator_from_name(s@) {
                Some(x) => Ok(x),
                None => Err(ChoiceError::UnknownName),
            }),
    {
        proof { reveal_strlit("human-time"); assert("human-time"@ =~= seq!['h', 'u', 'm', 'a', 'n', '-', 't', 'i', 'm', 'e']); }
        if str_eq(s, "human-time") {
            return Ok(PyDesignator::HumanTime);
        }
        proof { reveal_strlit("human"); assert("human"@ =~= seq!['h', 'u', 'm', 'a', 'n']); }
        if str_eq(s, "human") {
            return Ok(PyDesignator::HumanTime);
        }
        proof { reveal_strlit("short"); assert("short"@ =~= seq!['s', 'h', 'o', 'r', 't']); }
        if str_eq(s, "short") {
            return Ok(PyDesignator::Short);
        }
        proof { reveal_strlit("compact"); assert("compact"@ =~= seq!['c', 'o', 'm', 'p', 'a', 'c', 't']); }
        if str_eq(s, "compact") {
            return Ok(PyDesignator::Compact);
        }
        proof { reveal_strlit("verbose"); assert("verbose"@ =~= seq!['v', 'e', 'r', 'b', 'o', 's', 'e']); }
        if str_eq(s, "verbose") {
            return Ok(PyDesignator::Verbose);
        }
        Err(ChoiceError::UnknownName)
    }
}

/// The number of a `JiffUnit` in the numeric encoding accepted from Python
/// (0 for years up to 9 for nanoseconds).
pub open spec fn unit_number(u: JiffUnit) -> int {
    match u {
        JiffUnit::Year => 0,
        JiffUnit::Month => 1,
        JiffUnit::Week => 2,
        JiffUnit::Day => 3,
        JiffUnit::Hour => 4,
        JiffUnit::Minute => 5,
        JiffUnit::Second => 6,
        JiffUnit::Millisecond => 7,
        JiffUnit::Microsecond => 8,
        JiffUnit::Nanosecond => 9,
    }
}

/// The `JiffUnit` with number `i`, if any.
pub open spec fn unit_from_number(i: int) -> Option<JiffUnit> {
    if i == 0 { Some(JiffUnit::Year) }
    else if i == 1 { Some(JiffUnit::Month) }
    else if i == 2 { Some(JiffUnit::Week) }
    else if i == 3 { Some(JiffUnit::Day) }
    else if i == 4 { Some(JiffUnit::Hour) }
    else if i == 5 { Some(JiffUnit::Minute) }
    else if i == 6 { Some(JiffUnit::Second) }
    else if i == 7 { Some(JiffUnit::Millisecond) }
    else if i == 8 { Some(JiffUnit::Microsecond) }
    else if i == 9 { Some(JiffUnit::Nanosecond) }
    else { None }
}

impl JiffUnit {
    /// Reads a unit from its number (0 = year .. 9 = nanosecond).
    pub fn from_number(i: i64) -> (r: Result<JiffUnit, ChoiceError>)
        ensures
            r == (match unit_from_number(i as int) {
                Some(u) => Ok(u),
                None => Err(ChoiceError::UnknownNumber),
            }),
    {
        match i {
            0 => Ok(JiffUnit::Year),
            1 => Ok(JiffUnit::Month),
            2 => Ok(JiffUnit::Week),
            3 => Ok(JiffUnit::Day),
            4 => Ok(JiffUnit::Hour),
            5 => Ok(JiffUnit::Minute),
            6 => Ok(JiffUnit::Second),
            7 => Ok(JiffUnit::Millisecond),
            8 => Ok(JiffUnit::Microsecond),
            9 => Ok(JiffUnit::Nanosecond),
            _ => Err(ChoiceError::UnknownNumber),
        }
    }
}

/// The ISO number of a weekday: Monday is 1 and Sunday is 7.
pub open spec fn weekday_number(w: JiffWeekday) -> int {
    match w {
        JiffWeekday::Monday => 1,
        JiffWeekday::Tuesday => 2,
        JiffWeekday::Wednesday => 3,
        JiffWeekday::Thursday => 4,
        JiffWeekday::Friday => 5,
        JiffWeekday::Saturday => 6,
        JiffWeekday::Sunday => 7,
    }
}

/// The weekday with ISO number `i` (1 = Monday .. 7 = Sunday), if any.
pub open spec fn weekday_from_number(i: int) -> Option<JiffWeekday> {
    if i == 1 { Some(JiffWeekday::Monday) }
    else if i == 2 { Some(JiffWeekday::Tuesday) }
    else if i == 3 { Some(JiffWeekday::Wednesday) }
    else if i == 4 { Some(JiffWeekday::Thursday) }
    else if i == 5 { Some(JiffWeekday::Friday) }
    else if i == 6 { Some(JiffWeekday::Saturday) }
    else if i == 7 { Some(JiffWeekday::Sunday) }
    else { None }
}

impl JiffWeekday {
    /// The ISO number of the weekday (Monday = 1 .. Sunday = 7).
    pub fn number(self) -> (r: i8)
        ensures
            r as int == weekday_number(self),
            1 <= r <= 7,
    {
        match self {
            JiffWeekday::Monday => 1,
            JiffWeekday::Tuesday => 2,
            JiffWeekday::Wednesday => 3,
            JiffWeekday::Thursday => 4,
            JiffWeekday::Friday => 5,
            JiffWeekday::Saturday => 6,
            JiffWeekday::Sunday => 7,
        }
    }

    /// Reads a weekday from its ISO number (1 = Monday .. 7 = Sunday).
    pub fn from_number(i: i64) -> (r: Result<JiffWeekday, ChoiceError>)
        ensures
            r == (match weekday_from_number(i as int) {
                Some(w) => Ok(w),
                None => Err(ChoiceError::UnknownNumber),
            }),
    {
        match i {
            1 => Ok(JiffWeekday::Monday),
            2 => Ok(JiffWeekday::Tuesday),
            3 => Ok(JiffWeekday::Wednesday),
            4 => Ok(JiffWeekday::Thursday),
            5 => Ok(JiffWeekday::Friday),
            6 => Ok(JiffWeekday::Saturday),
            7 => Ok(JiffWeekday::Sunday),
            _ => Err(ChoiceError::UnknownNumber),
        }
    }
}

/// A weekday exposed to Python, which renders as its lower-case name.
#[derive(Clone, Copy, Debug, PartialEq, Eq, Structural)]
pub struct RyWeekday(pub JiffWeekday);

impl RyWeekday {
    /// The lower-case English name of the weekday.
    pub fn string(&self) -> (r: &'static str)
        ensures
            r@ == weekday_name(self.0),
    {
        self.0.static_str()
    }
}

/// The name of every unit reads back as that unit, and also after any ASCII
/// case change of the name.
pub proof fn lemma_unit_name_roundtrip(u: JiffUnit)
    ensures
        unit_from_name(unit_name(u)) == Some(u),
        no_ascii_upper(unit_name(u)),
{
    let n = unit_name(u);
    assert(lower_text(n) =~= n);
}

/// Unit parsing ignores ASCII case: lower-casing the text first changes
/// nothing.
pub proof fn lemma_unit_parse_ignores_case(t: Seq<char>)
    ensures
        unit_from_name(lower_text(t)) == unit_from_name(t),
{
    assert(lower_text(lower_text(t)) =~= lower_text(t));
}

/// Round-mode parsing ignores ASCII case.
pub proof fn lemma_round_mode_parse_ignores_case(t: Seq<char>)
    ensures
        round_mode_from_name(lower_text(t)) == round_mode_from_name(t),
{
    assert(lower_text(lower_text(t)) =~= lower_text(t));
}

/// The number of every unit reads back as that unit.
pub proof fn lemma_unit_number_roundtrip(u: JiffUnit)
    ensures
        unit_from_number(unit_number(u)) == Some(u),
        0 <= unit_number(u) <= 9,
{
}

/// The name of every rounding mode reads back as that mode.
pub proof fn lemma_round_mode_name_roundtrip(m: JiffRoundMode)
    ensures
        round_mode_from_name(round_mode_name(m)) == Some(m),
{
    let n = round_mode_name(m);
    assert(lower_text(n) =~= n);
}

/// The name of every weekday, and its number, read back as that weekday.
pub proof fn lemma_weekday_roundtrip(w: JiffWeekday)
    ensures
        weekday_from_name(weekday_name(w)) == Some(w),
        weekday_from_number(weekday_number(w)) == Some(w),
        1 <= weekday_number(w) <= 7,
{
}

/// Every weekday number from 1 to 7 names a weekday that maps back to it.
pub proof fn lemma_weekday_number_bijective(i: int)
    requires
        1 <= i <= 7,
    ensures
        weekday_from_number(i) is Some,
        weekday_number(weekday_from_number(i).unwrap()) == i,
{
}

/// The name of every era, disambiguation policy, offset-conflict policy and
/// designator reads back as that value.
pub proof fn lemma_policy_name_roundtrip(
    e: JiffEra,
    d: JiffTzDisambiguation,
    c: JiffTzOffsetConflict,
    g: PyDesignator,
)
    ensures
        era_from_name(era_name(e)) == Some(e),
        disambiguation_from_name(disambiguation_name(d)) == Some(d),
        offset_conflict_from_name(offset_conflict_name(c)) == Some(c),
        designator_from_name(designator_name(g)) == Some(g),
{
    assert(lower_text(seq!['B', 'C', 'E']) =~= seq!['b', 'c', 'e']);
    assert(lower_text(seq!['C', 'E']) =~= seq!['c', 'e']);
}

} // verus!
