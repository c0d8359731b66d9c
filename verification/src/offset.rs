//! Fixed UTC offsets: construction from hours/minutes/seconds, their parts,
//! negation, comparison and their text forms.
use vstd::prelude::*;
use crate::compare::{CompareOp, apply_op, op_holds, int_sign_of_diff, sign_of_diff};
use crate::text::{padded_int_text, int_text, push_char, push_padded_i64, push_i64, push_str};

verus! {

/// The largest offset magnitude in seconds (25:59:59).
pub const OFFSET_MAX_SECONDS: i32 = 93599;

/// Whether `s` seconds is a valid UTC offset (`-25:59:59..=25:59:59`).
pub open spec fn offset_ok(s: int) -> bool {
    -93599 <= s <= 93599
}

/// Why an offset could not be made.
#[derive(Clone, Copy, Debug, PartialEq, Eq, Structural)]
pub enum OffsetError {
    /// The offset lies outside `-25:59:59..=25:59:59`.
    OutOfRange,
}

/// A fixed offset from UTC, in whole seconds.
#[derive(Clone, Copy, Debug, PartialEq, Eq, Structural, Hash)]
pub struct RyOffset {
    seconds: i32,
}

/// Absolute value.
pub open spec fn abs(x: int) -> int {
    if x < 0 { -x } else { x }
}

/// Whole hours of an offset, truncated toward zero.
pub open spec fn offset_hours(s: int) -> int {
    if s < 0 { -(abs(s) / 3600) } else { s / 3600 }
}

/// Minutes of an offset left after its whole hours, with the offset's sign.
pub open spec fn offset_minutes(s: int) -> int {
    if s < 0 { -((abs(s) % 3600) / 60) } else { (s % 3600) / 60 }
}

/// Seconds of an offset left after its whole minutes, with the offset's sign.
pub open spec fn offset_secs(s: int) -> int {
    if s < 0 { -(abs(s) % 60) } else { s % 60 }
}

/// `"HH:MM"` for the magnitude of an offset.
pub open spec fn hh_mm(a: int) -> Seq<char> {
    padded_int_text(a / 3600, 2) + seq![':'] + padded_int_text((a % 3600) / 60, 2)
}

/// The text `jiff` prints for an offset: `+00` for zero, `±HH` for whole
/// hours, `±HH:MM` for whole minutes and `±HH:MM:SS` otherwise.
pub open spec fn offset_display_text(s: int) -> Seq<char> {
    let a = abs(s);
    let sign = if s < 0 { '-' } else { '+' };
    if a == 0 {
        seq!['+', '0', '0']
    } else if (a % 3600) / 60 == 0 && a % 60 == 0 {
        seq![sign] + padded_int_text(a / 3600, 2)
    } else if a % 60 == 0 {
        seq![sign] + hh_mm(a)
    } else {
        seq![sign] + hh_mm(a) + seq![':'] + padded_int_text(a % 60, 2)
    }
}

/// The ISO 8601 text of an offset as Python's `isoformat` writes it:
/// `+00:00` for zero, `±HH:MM` for whole minutes, `±HH:MM:SS` otherwise.
pub open spec fn offset_iso_text(s: int) -> Seq<char> {
    let a = abs(s);
    let sign = if s < 0 { '-' } else { '+' };
    if a == 0 {
        seq!['+', '0', '0', ':', '0', '0']
    } else if a % 60 == 0 {
        seq![sign] + hh_mm(a)
    } else {
        seq![sign] + hh_mm(a) + seq![':'] + padded_int_text(a % 60, 2)
    }
}

/// The repr of an offset: `Offset(hours=H)` for whole hours, otherwise
/// `Offset(seconds=S)`.
pub open spec fn offset_repr_text(s: int) -> Seq<char> {
    if s % 3600 == 0 {
        seq!['O', 'f', 'f', 's', 'e', 't', '(', 'h', 'o', 'u', 'r', 's', '=']
            + int_text(s / 3600) + seq![')']
    } else {
        seq!['O', 'f', 'f', 's', 'e', 't', '(', 's', 'e', 'c', 'o', 'n', 'd', 's', '=']
            + int_text(s) + seq![')']
    }
}

impl View for RyOffset {
    type V = int;

    closed spec fn view(&self) -> int {
        self.seconds as int
    }
}

/// Builds an offset as `jiff::tz::Offset::from_seconds` does: it accepts
/// exactly the seconds in `-93_599..=93_599` and keeps them unchanged.
fn offset_of_seconds(seconds: i32) -> (r: Option<RyOffset>)
    ensures
        r is Some <==> offset_ok(seconds as int),
        r matches Some(o) ==> o@ == seconds as int,
{
    if -93_599 <= seconds && seconds <= 93_599 {
        Some(RyOffset { seconds })
    } else {
        None
    }
}

/// Builds an offset as `jiff::tz::Offset::from_hours` does: it accepts
/// exactly the hours in `-25..=25` and gives `hours * 3600` seconds.
fn offset_of_hours(hours: i8) -> (r: Option<RyOffset>)
    ensures
        r is Some <==> -25 <= hours <= 25,
        r matches Some(o) ==> o@ == hours as int * 3600,
{
    if -25 <= hours && hours <= 25 {
        Some(RyOffset { seconds: hours as i32 * 3600 })
    } else {
        None
    }
}

/// The text of `jiff::tz::Offset`'s `Display`, which the source writes as
/// `+00`, `±HH`, `±HH:MM` or `±HH:MM:SS` from the offset's parts.
#[verifier::external_body]
fn jiff_offset_to_string(seconds: i32) -> (r: String)
    requires
        offset_ok(seconds as int),
    ensures
        r@ == offset_display_text(seconds as int),
{
    match jiff::tz::Offset::from_seconds(seconds) {
        Ok(o) => o.to_string(),
        Err(_) => String::new(),
    }
}

impl RyOffset {
    #[verifier::type_invariant]
    spec fn inv(self) -> bool {
        offset_ok(self.seconds as int)
    }

    /// Every offset lies in `-25:59:59..=25:59:59`.
    pub fn seconds(&self) -> (r: i32)
        ensures
            r as int == self@,
            offset_ok(r as int),
    {
        proof {
            use_type_invariant(self);
        }
        self.seconds
    }

    /// The zero offset (UTC).
    pub fn utc() -> (r: RyOffset)
        ensures
            r@ == 0,
    {
        RyOffset { seconds: 0 }
    }

    /// The smallest offset, `-25:59:59`.
    #[allow(non_snake_case)]
    pub fn MIN() -> (r: RyOffset)
        ensures
            r@ == -93599,
    {
        RyOffset { seconds: -93599 }
    }

    /// The largest offset, `+25:59:59`.
    #[allow(non_snake_case)]
    pub fn MAX() -> (r: RyOffset)
        ensures
            r@ == 93599,
    {
        RyOffset { seconds: 93599 }
    }

    /// The offset of `seconds` seconds; fails outside `-93_599..=93_599`.
    pub fn from_seconds(seconds: i32) -> (r: Result<RyOffset, OffsetError>)
        ensures
            r is Ok <==> offset_ok(seconds as int),
            r matches Ok(o) ==> o@ == seconds as int,
            r matches Err(e) ==> e == OffsetError::OutOfRange,
    {
        match offset_of_seconds(seconds) {
            Some(o) => Ok(o),
            None => Err(OffsetError::OutOfRange),
        }
    }

    /// The offset of `hours` whole hours; fails outside `-25..=25`.
    pub fn from_hours(hours: i8) -> (r: Result<RyOffset, OffsetError>)
        ensures
            r is Ok <==> -25 <= hours <= 25,
            r matches Ok(o) ==> o@ == hours as int * 3600,
            r matches Err(e) ==> e == OffsetError::OutOfRange,
    {
        match offset_of_hours(hours) {
            Some(o) => Ok(o),
            None => Err(OffsetError::OutOfRange),
        }
    }

    /// The offset `hours:minutes:seconds`, the parts added with their signs
    /// (the constructor `Offset(hours, minutes, seconds)`); fails when the
    /// total lies outside `-25:59:59..=25:59:59`.
    pub fn py_new(hours: i8, minutes: i16, seconds: i32) -> (r: Result<RyOffset, OffsetError>)
        requires
            i32::MIN <= hours * 3600 + minutes * 60 + seconds <= i32::MAX,
        ensures
            r is Ok <==> offset_ok(hours * 3600 + minutes * 60 + seconds),
            r matches Ok(o) ==> o@ == hours * 3600 + minutes * 60 + seconds,
    {
        let total = (hours as i32) * 3600 + (minutes as i32) * 60 + seconds;
        RyOffset::from_seconds(total)
    }

    /// The hours, minutes and seconds of the offset, each truncated toward
    /// zero and carrying the offset's sign.
    pub fn hms(&self) -> (r: (i8, i16, i32))
        ensures
            r.0 as int == offset_hours(self@),
            r.1 as int == offset_minutes(self@),
            r.2 as int == offset_secs(self@),
    {
        proof {
            use_type_invariant(self);
        }
        let s = self.seconds;
        let a: i32 = if s < 0 { -s } else { s };
        let h = (a / 3600) as i8;
        let m = ((a % 3600) / 60) as i16;
        let sec = a % 60;
        if s < 0 {
            (-h, -m, -sec)
        } else {
            (h, m, sec)
        }
    }

    /// Whether the offset is west of UTC.
    pub fn is_negative(&self) -> (r: bool)
        ensures
            r == (self@ < 0),
    {
        self.seconds < 0
    }

    /// Whether the offset is UTC or east of it.
    pub fn is_positive(&self) -> (r: bool)
        ensures
            r == (self@ >= 0),
    {
        !self.is_negative()
    }

    /// The offset with the opposite sign.
    pub fn negate(&self) -> (r: RyOffset)
        ensures
            r@ == -self@,
    {
        proof {
            use_type_invariant(self);
        }
        RyOffset { seconds: -self.seconds }
    }

    /// Python's rich comparison of two offsets, ordered by their seconds.
    pub fn rich_compare(&self, other: &RyOffset, op: CompareOp) -> (r: bool)
        ensures
            r == op_holds(op, int_sign_of_diff(self@, other@)),
    {
        apply_op(op, sign_of_diff(self.seconds as i64, other.seconds as i64))
    }

    /// The offset as `jiff` prints it (`+00`, `±HH`, `±HH:MM`, `±HH:MM:SS`).
    pub fn to_string(&self) -> (r: String)
        ensures
            r@ == offset_display_text(self@),
    {
        jiff_offset_to_string(self.seconds())
    }

    /// The ISO 8601 form used by Python (`+00:00`, `±HH:MM`, `±HH:MM:SS`).
    pub fn isoformat(&self) -> (r: String)
        ensures
            r@ == offset_iso_text(self@),
    {
        let s = self.seconds();
        let mut out = String::new();
        if s == 0 {
            proof { reveal_strlit("+00:00"); }
            push_str(&mut out, "+00:00");
            assert(out@ =~= offset_iso_text(self@));
            return out;
        }
        let a: i32 = if s < 0 { -s } else { s };
        push_char(&mut out, if s < 0 { '-' } else { '+' });
        push_padded_i64(&mut out, (a / 3600) as i64, 2);
        push_char(&mut out, ':');
        push_padded_i64(&mut out, ((a % 3600) / 60) as i64, 2);
        if a % 60 != 0 {
            push_char(&mut out, ':');
            push_padded_i64(&mut out, (a % 60) as i64, 2);
        }
        assert(out@ =~= offset_iso_text(self@));
        out
    }

    /// The repr: `Offset(hours=H)` for whole hours, else `Offset(seconds=S)`.
    pub fn repr(&self) -> (r: String)
        ensures
            r@ == offset_repr_text(self@),
    {
        let s = self.seconds();
        let mut out = String::new();
        if s % 3600 == 0 {
            proof { reveal_strlit("Offset(hours="); }
            push_str(&mut out, "Offset(hours=");
            push_i64(&mut out, (s / 3600) as i64);
        } else {
            proof { reveal_strlit("Offset(seconds="); }
            push_str(&mut out, "Offset(seconds=");
            push_i64(&mut out, s as i64);
        }
        push_char(&mut out, ')');
        assert(out@ =~= offset_repr_text(self@));
        out
    }
}

/// Splitting an offset into hours, minutes and seconds and adding them back
/// gives the offset again, and each part is within the range of its field.
pub proof fn lemma_hms_roundtrip(s: int)
    requires
        offset_ok(s),
    ensures
        offset_hours(s) * 3600 + offset_minutes(s) * 60 + offset_secs(s) == s,
        -25 <= offset_hours(s) <= 25,
        -59 <= offset_minutes(s) <= 59,
        -59 <= offset_secs(s) <= 59,
{
    let a = abs(s);
    assert(a == (a / 3600) * 3600 + ((a % 3600) / 60) * 60 + a % 60) by (nonlinear_arith)
        requires a >= 0;
    assert(a / 3600 <= 25) by (nonlinear_arith)
        requires 0 <= a <= 93599;
}

/// Negating an offset twice gives it back.
pub proof fn lemma_negate_involutive(s: int)
    requires
        offset_ok(s),
    ensures
        offset_ok(-s),
        -(-s) == s,
{
}

} // verus!
