//! Time zones: how a name given to the constructor is read, the kinds of
//! zone (UTC, unknown, a fixed offset, a zone of the database), their names
//! and reprs.
use vstd::prelude::*;
use crate::offset::{RyOffset, offset_display_text};
use crate::text::{lower_eq, lower_text, push_char, push_str};

verus! {

/// How the constructor reads a time zone name: empty text or `unknown` (any
/// ASCII case) is the unknown zone, `utc` (any ASCII case) is UTC, anything
/// else is looked up in the time zone database.
#[derive(Clone, Copy, Debug, PartialEq, Eq, Structural)]
pub enum TzNameKind {
    Unknown,
    Utc,
    Lookup,
}

/// The kind of a time zone name.
pub open spec fn tz_name_kind(name: Seq<char>) -> TzNameKind {
    if name.len() == 0 || lower_text(name) == seq!['u', 'n', 'k', 'n', 'o', 'w', 'n'] {
        TzNameKind::Unknown
    } else if lower_text(name) == seq!['u', 't', 'c'] {
        TzNameKind::Utc
    } else {
        TzNameKind::Lookup
    }
}

/// Reads a time zone name as the constructor does.
pub fn classify_tz_name(name: &str) -> (r: TzNameKind)
    ensures
        r == tz_name_kind(name@),
{
    proof {
        reveal_strlit("unknown");
        reveal_strlit("utc");
        assert("unknown"@ =~= seq!['u', 'n', 'k', 'n', 'o', 'w', 'n']);
        assert("utc"@ =~= seq!['u', 't', 'c']);
    }
    let n = name.unicode_len();
    if n == 0 || lower_eq(name, "unknown") {
        TzNameKind::Unknown
    } else if lower_eq(name, "utc") {
        TzNameKind::Utc
    } else {
        TzNameKind::Lookup
    }
}

/// A time zone.
#[derive(Clone, Debug, PartialEq, Eq)]
pub enum RyTimeZone {
    /// UTC, whose name is `UTC`.
    Utc,
    /// The unknown zone (`Etc/Unknown`), which has no name.
    Unknown,
    /// A fixed offset other than zero, which has no name.
    Fixed(RyOffset),
    /// A zone of the time zone database, by its name there.
    Named(String),
}

/// Why a time zone could not be made (Python's `ValueError`).
#[derive(Clone, Copy, Debug, PartialEq, Eq, Structural)]
pub enum TimeZoneError {
    /// The database has no zone of that name.
    NotFound,
}

/// Looks a zone up with `jiff`'s `TimeZone::get` and gives its IANA name.
/// What the database holds is not known here: nothing is promised of the
/// result.
#[verifier::external_body]
fn jiff_tz_lookup(name: &str) -> (r: Option<String>) {
    let tz = jiff::tz::TimeZone::get(name).ok()?;
    Some(tz.iana_name().unwrap_or(name).to_string())
}

/// `jiff`'s time zone type.
#[verifier::external_type_specification]
#[verifier::external_body]
pub struct ExJiffTimeZone(jiff::tz::TimeZone);

/// The `jiff` time zone of a zone, variant for variant; a database zone is
/// looked up with `TimeZone::get` (`None` where the database has no zone
/// of that name).
#[verifier::external_body]
pub(crate) fn to_jiff_tz(tz: &RyTimeZone) -> Option<jiff::tz::TimeZone> {
    match tz {
        RyTimeZone::Utc => Some(jiff::tz::TimeZone::UTC),
        RyTimeZone::Unknown => Some(jiff::tz::TimeZone::unknown()),
        RyTimeZone::Fixed(o) => jiff::tz::Offset::from_seconds(o.seconds()).ok().map(jiff::tz::TimeZone::fixed),
        RyTimeZone::Named(n) => jiff::tz::TimeZone::get(n.as_str()).ok(),
    }
}

/// The repr of a zone: `TimeZone("unknown")`, `TimeZone("name")`, or
/// `TimeZone('offset')` for a fixed offset.
pub open spec fn tz_repr_text(tz: RyTimeZone) -> Seq<char> {
    seq!['T', 'i', 'm', 'e', 'Z', 'o', 'n', 'e', '('] + match tz {
        RyTimeZone::Unknown => seq!['"', 'u', 'n', 'k', 'n', 'o', 'w', 'n', '"'],
        RyTimeZone::Utc => seq!['"', 'U', 'T', 'C', '"'],
        RyTimeZone::Named(n) => seq!['"'] + n@ + seq!['"'],
        RyTimeZone::Fixed(o) => seq!['\''] + offset_display_text(o@) + seq!['\''],
    } + seq![')']
}

impl RyTimeZone {
    /// The zone of a name (the Python constructor `TimeZone(name)`): the
    /// unknown zone for empty text or `unknown`, UTC for `utc` (ASCII case
    /// ignored), else the database's zone of that name.
    pub fn py_new(name: &str) -> (r: Result<RyTimeZone, TimeZoneError>)
        ensures
            tz_name_kind(name@) == TzNameKind::Unknown ==> r == Ok::<RyTimeZone, TimeZoneError>(RyTimeZone::Unknown),
            tz_name_kind(name@) == TzNameKind::Utc ==> r == Ok::<RyTimeZone, TimeZoneError>(RyTimeZone::Utc),
            tz_name_kind(name@) == TzNameKind::Lookup ==> (r is Err || r matches Ok(RyTimeZone::Named(_))),
    {
        match classify_tz_name(name) {
            TzNameKind::Unknown => Ok(RyTimeZone::Unknown),
            TzNameKind::Utc => Ok(RyTimeZone::Utc),
            TzNameKind::Lookup => match jiff_tz_lookup(name) {
                Some(n) => Ok(RyTimeZone::Named(n)),
                None => Err(TimeZoneError::NotFound),
            },
        }
    }

    /// The zone of a fixed offset (`fixed`): UTC for a zero offset.
    pub fn fixed(offset: &RyOffset) -> (r: RyTimeZone)
        ensures
            offset@ == 0 ==> r == RyTimeZone::Utc,
            offset@ != 0 ==> r == RyTimeZone::Fixed(*offset),
    {
        if offset.seconds() == 0 {
            RyTimeZone::Utc
        } else {
            RyTimeZone::Fixed(*offset)
        }
    }

    /// A copy of the zone.
    pub fn duplicate(&self) -> (r: RyTimeZone)
        ensures
            r == *self,
    {
        match self {
            RyTimeZone::Utc => RyTimeZone::Utc,
            RyTimeZone::Unknown => RyTimeZone::Unknown,
            RyTimeZone::Fixed(o) => RyTimeZone::Fixed(*o),
            RyTimeZone::Named(n) => RyTimeZone::Named(n.clone()),
        }
    }

    /// Whether this is a zone of the time zone database.
    pub fn is_named(&self) -> (r: bool)
        ensures
            r == (*self is Named),
    {
        match self {
            RyTimeZone::Named(_) => true,
            _ => false,
        }
    }

    /// Whether this is the unknown zone (`is_unknown`).
    pub fn is_unknown(&self) -> (r: bool)
        ensures
            r == (*self matches RyTimeZone::Unknown),
    {
        match self {
            RyTimeZone::Unknown => true,
            _ => false,
        }
    }

    /// The zone's IANA name (`name`, `iana_name`): `UTC` for UTC, the
    /// database name for a database zone, none otherwise.
    pub fn iana_name(&self) -> (r: Option<String>)
        ensures
            match *self {
                RyTimeZone::Utc => r matches Some(s) && s@ == seq!['U', 'T', 'C'],
                RyTimeZone::Named(n) => r matches Some(s) && s@ == n@,
                _ => r is None,
            },
    {
        match self {
            RyTimeZone::Utc => {
                let mut s = String::new();
                proof {
                    reveal_strlit("UTC");
                }
                push_str(&mut s, "UTC");
                assert(s@ =~= seq!['U', 'T', 'C']);
                Some(s)
            },
            RyTimeZone::Named(n) => Some(n.clone()),
            _ => None,
        }
    }

    /// The repr.
    pub fn repr(&self) -> (r: String)
        ensures
            r@ == tz_repr_text(*self),
    {
        let mut out = String::new();
        proof {
            reveal_strlit("TimeZone(");
            reveal_strlit("\"unknown\"");
            reveal_strlit("\"UTC\"");
        }
        push_str(&mut out, "TimeZone(");
        match self {
            RyTimeZone::Unknown => push_str(&mut out, "\"unknown\""),
            RyTimeZone::Utc => push_str(&mut out, "\"UTC\""),
            RyTimeZone::Named(n) => {
                push_char(&mut out, '"');
                push_str(&mut out, n.as_str());
                push_char(&mut out, '"');
            },
            RyTimeZone::Fixed(o) => {
                push_char(&mut out, '\'');
                let t = o.to_string();
                push_str(&mut out, t.as_str());
                push_char(&mut out, '\'');
            },
        }
        push_char(&mut out, ')');
        assert(out@ =~= tz_repr_text(*self));
        out
    }
}

} // verus!
