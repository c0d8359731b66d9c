//! Zoned datetimes as text: `strftime`, RFC 2822, and reading them back
//! from `jiff`'s own format, from a `strptime` format or from RFC 2822.
use vstd::prelude::*;
use crate::offset::{RyOffset, offset_ok};
use crate::text::str_eq;
use crate::timestamp::{RyTimestamp, ts_new_ok};
use crate::timezone::{RyTimeZone, to_jiff_tz};
use crate::zoned::{RyZoned, fixed_offset_of};

verus! {

/// What `jiff` prints for an instant (in nanoseconds) in a zone under a
/// `strftime` format (lenient: an unknown directive is printed as it
/// stands); stated only for zones that are not database zones.
pub uninterp spec fn jiff_zoned_strftime(fmt: Seq<char>, t: int, tz: RyTimeZone) -> Seq<char>;

/// Whether `jiff`'s `Zoned::strftime` can print `text` for instant `t` (in
/// nanoseconds) in the database zone named `name` under format `fmt`. The
/// database decides which text comes; this records the request that a text
/// is to.
pub uninterp spec fn jiff_named_zoned_strftime(fmt: Seq<char>, t: int, name: Seq<char>, text: Seq<char>) -> bool;

/// What `jiff`'s RFC 2822 printer prints for an instant (in nanoseconds)
/// shown at an offset (in seconds), if it can (it refuses negative years).
pub uninterp spec fn jiff_rfc2822_text(t: int, off: int) -> Option<Seq<char>>;

/// The instant (in nanoseconds) and offset (in seconds) `jiff`'s RFC 2822
/// parser reads from text, if any.
pub uninterp spec fn jiff_rfc2822_parse(s: Seq<char>) -> Option<(int, int)>;

/// What `jiff`'s `FromStr` for `jiff::Zoned` reads from text when the zone
/// it gives has no IANA name (a fixed offset or the unknown zone, which
/// need no database): the instant (in nanoseconds), whether the zone is the
/// unknown zone, and its fixed offset if it has one; `None` for every other
/// text.
pub uninterp spec fn jiff_zoned_parse(s: Seq<char>) -> Option<(int, bool, Option<int>)>;

/// What `jiff`'s `Zoned::strptime` reads from text under a format when the
/// zone it gives has no IANA name, in the parts of `jiff_zoned_parse`;
/// `None` for every other text.
pub uninterp spec fn jiff_zoned_strptime(fmt: Seq<char>, s: Seq<char>) -> Option<(int, bool, Option<int>)>;

/// An optional offset as an optional integer.
pub open spec fn opt_int(o: Option<i32>) -> Option<int> {
    match o {
        Some(v) => Some(v as int),
        None => None,
    }
}

/// The parts a zoned datetime read from text has, when its zone has no
/// IANA name: the instant, the unknown-zone flag and the fixed offset.
pub open spec fn unnamed_parts(v: (i64, i32, Option<String>, bool, Option<i32>)) -> Option<(int, bool, Option<int>)> {
    if v.2 is None {
        Some((v.0 * 1_000_000_000 + v.1, v.3, opt_int(v.4)))
    } else {
        None
    }
}

/// What reading text gives, by the parts `jiff` reports of a zone with no
/// IANA name: a zoned datetime at the instant in the unknown zone, or in the
/// fixed zone of the offset, and none for another zone.
pub open spec fn unnamed_zoned_ok(p: (int, bool, Option<int>), r: Option<RyZoned>) -> bool {
    if p.1 {
        r matches Some(z) && z@.0 == p.0 && z.time_zone() == RyTimeZone::Unknown
    } else {
        match p.2 {
            Some(o) => (r matches Some(z) && z@.0 == p.0 && !(z.time_zone() is Named) && !(z.time_zone() is Unknown)
                && fixed_offset_of(z.time_zone()) == o),
            None => r is None,
        }
    }
}

/// An instant in a zone formatted by `jiff`'s `Zoned::strftime` (whose
/// `Display` never fails: it formats leniently); `None` only where the
/// database no longer has a database zone (so that no text answers). For
/// a database zone what the database holds is not known here: only that
/// the text answers this request.
#[verifier::external_body]
fn jiff_zoned_format(fmt: &str, second: i64, nanosecond: i32, tz: &RyTimeZone) -> (r: Option<String>)
    requires
        ts_new_ok(second as int, nanosecond as int),
    ensures
        !(*tz is Named) ==> r is Some,
        r matches Some(v) ==> (!(*tz is Named) ==> v@ == jiff_zoned_strftime(fmt@, second * 1_000_000_000
            + nanosecond, *tz)),
        r matches Some(v) ==> (match *tz {
            RyTimeZone::Named(n) => jiff_named_zoned_strftime(fmt@, second * 1_000_000_000 + nanosecond, n@, v@),
            _ => true,
        }),
        r is None ==> (match *tz {
            RyTimeZone::Named(n) => forall|w: Seq<char>| !#[trigger] jiff_named_zoned_strftime(fmt@, second
                * 1_000_000_000 + nanosecond, n@, w),
            _ => true,
        }),
{
    let z = jiff::Timestamp::new(second, nanosecond).unwrap().to_zoned(to_jiff_tz(tz)?);
    Some(z.strftime(fmt).to_string())
}

/// An instant shown at an offset printed by `jiff`'s
/// `fmt::rfc2822::to_string`. That printer reads only the civil datetime
/// and the offset of a zoned datetime, so the instant is placed in the
/// fixed zone of the offset.
#[verifier::external_body]
fn jiff_rfc2822_to_string(second: i64, nanosecond: i32, off: i32) -> (r: Option<String>)
    requires
        ts_new_ok(second as int, nanosecond as int),
        offset_ok(off as int),
    ensures
        r is None <==> jiff_rfc2822_text(second * 1_000_000_000 + nanosecond, off as int) is None,
        r matches Some(v) ==> jiff_rfc2822_text(second * 1_000_000_000 + nanosecond, off as int) == Some(v@),
{
    let tz = jiff::tz::TimeZone::fixed(jiff::tz::Offset::from_seconds(off).unwrap());
    jiff::fmt::rfc2822::to_string(&jiff::Timestamp::new(second, nanosecond).unwrap().to_zoned(tz)).ok()
}

/// RFC 2822 text read by `jiff`'s `fmt::rfc2822::parse`: the instant and
/// the offset of the zoned datetime it gives.
#[verifier::external_body]
fn jiff_rfc2822_read(s: &str) -> (r: Option<(i64, i32, i32)>)
    ensures
        r is None <==> jiff_rfc2822_parse(s@) is None,
        r matches Some(v) ==> jiff_rfc2822_parse(s@) == Some((v.0 * 1_000_000_000 + v.1, v.2 as int))
            && ts_new_ok(v.0 as int, v.1 as int) && offset_ok(v.2 as int),
{
    let z = jiff::fmt::rfc2822::parse(s).ok()?;
    Some((z.timestamp().as_second(), z.timestamp().subsec_nanosecond(), z.offset().seconds()))
}

/// A zoned datetime read by `jiff`'s `FromStr` for `jiff::Zoned`: the
/// instant, the zone's IANA name if it has one, whether it is the unknown
/// zone, and its fixed offset if it has one. A zone named in the text is
/// looked up in the database, so of a result whose zone has an IANA name
/// only that its instant is in range is known here; a result with no such
/// name is `jiff_zoned_parse` of the text.
#[verifier::external_body]
fn jiff_zoned_read(s: &str) -> (r: Option<(i64, i32, Option<String>, bool, Option<i32>)>)
    ensures
        r matches Some(v) ==> ts_new_ok(v.0 as int, v.1 as int) && (v.4 matches Some(o) ==> offset_ok(o as int)),
        jiff_zoned_parse(s@) is Some <==> (r matches Some(v) && v.2 is None),
        r matches Some(v) ==> (v.2 is None ==> jiff_zoned_parse(s@) == unnamed_parts(v)),
{
    let z = s.parse::<jiff::Zoned>().ok()?;
    let tz = z.time_zone();
    let fixed = tz.to_fixed_offset().ok().map(|o| o.seconds());
    Some((z.timestamp().as_second(), z.timestamp().subsec_nanosecond(), tz.iana_name().map(String::from),
        tz.is_unknown(), fixed))
}

/// A zoned datetime read by `jiff`'s `Zoned::strptime`, in the same parts
/// as `jiff_zoned_read`. A zone named in the text is looked up in the
/// database, so of a result whose zone has an IANA name only that its
/// instant is in range is known here; a result with no such name is
/// `jiff_zoned_strptime` of the format and text.
#[verifier::external_body]
fn jiff_zoned_read_format(s: &str, fmt: &str) -> (r: Option<(i64, i32, Option<String>, bool, Option<i32>)>)
    ensures
        r matches Some(v) ==> ts_new_ok(v.0 as int, v.1 as int) && (v.4 matches Some(o) ==> offset_ok(o as int)),
        jiff_zoned_strptime(fmt@, s@) is Some <==> (r matches Some(v) && v.2 is None),
        r matches Some(v) ==> (v.2 is None ==> jiff_zoned_strptime(fmt@, s@) == unnamed_parts(v)),
{
    let z = jiff::Zoned::strptime(fmt, s).ok()?;
    let tz = z.time_zone();
    let fixed = tz.to_fixed_offset().ok().map(|o| o.seconds());
    Some((z.timestamp().as_second(), z.timestamp().subsec_nanosecond(), tz.iana_name().map(String::from),
        tz.is_unknown(), fixed))
}

impl RyZoned {
    /// The zoned datetime of the parts `jiff` reports for one: an instant
    /// and a zone that is UTC when its IANA name is `UTC`, a database zone
    /// when it has another name (looked up again, so it can fail), the
    /// unknown zone, or the fixed zone of its offset; `None` for any other
    /// zone.
    pub fn from_fields(second: i64, nanosecond: i32, iana: Option<String>, unknown: bool, fixed: Option<i32>) -> (r:
        Option<RyZoned>)
        requires
            ts_new_ok(second as int, nanosecond as int),
            fixed matches Some(o) ==> offset_ok(o as int),
        ensures
            r matches Some(z) ==> z@.0 == second * 1_000_000_000 + nanosecond,
            match iana {
                Some(n) => if n@ == seq!['U', 'T', 'C'] {
                    r matches Some(z) && z.time_zone() == RyTimeZone::Utc
                } else {
                    r matches Some(z) ==> z.time_zone() == RyTimeZone::Named(n)
                },
                None => if unknown {
                    r matches Some(z) && z.time_zone() == RyTimeZone::Unknown
                } else {
                    match fixed {
                        Some(o) => (r matches Some(z) && !(z.time_zone() is Named) && !(z.time_zone() is Unknown)
                            && fixed_offset_of(z.time_zone()) == o),
                        None => r is None,
                    }
                },
            },
    {
        let ts = match RyTimestamp::py_new(second, nanosecond) {
            Ok(t) => t,
            Err(_) => return None,
        };
        let tz = match iana {
            Some(n) => {
                proof {
                    reveal_strlit("UTC");
                    assert("UTC"@ =~= seq!['U', 'T', 'C']);
                }
                if str_eq(n.as_str(), "UTC") {
                    RyTimeZone::Utc
                } else {
                    RyTimeZone::Named(n)
                }
            },
            None => if unknown {
                RyTimeZone::Unknown
            } else {
                match fixed {
                    Some(o) => match RyOffset::from_seconds(o) {
                        Ok(off) => RyTimeZone::fixed(&off),
                        Err(_) => return None,
                    },
                    None => return None,
                }
            },
        };
        match RyZoned::from_parts(&ts, &tz) {
            Ok(z) => Some(z),
            Err(_) => None,
        }
    }

    /// Reads a zoned datetime as `jiff` does (`from_str`, `parse`):
    /// `None` where `jiff` refuses the text or names a zone the database
    /// lacks. A zone given by a fixed offset or as the unknown zone is read
    /// exactly; a zone named in the text comes from the database, so less
    /// is stated of it.
    pub fn from_str(s: &str) -> (r: Option<RyZoned>)
        ensures
            jiff_zoned_parse(s@) matches Some(p) ==> unnamed_zoned_ok(p, r),
            r matches Some(z) ==> ((z.time_zone() is Unknown || z.time_zone() is Fixed) ==> jiff_zoned_parse(s@)
                is Some),
    {
        match jiff_zoned_read(s) {
            Some((a, b, n, u, f)) => RyZoned::from_fields(a, b, n, u, f),
            None => None,
        }
    }

    /// Reads a zoned datetime under a `strptime` format as `jiff` does
    /// (`strptime`): `None` where `jiff` refuses the text. A zone given by
    /// an offset or as the unknown zone is read exactly; a zone named in the
    /// text comes from the database, so less is stated of it.
    pub fn strptime(s: &str, fmt: &str) -> (r: Option<RyZoned>)
        ensures
            jiff_zoned_strptime(fmt@, s@) matches Some(p) ==> unnamed_zoned_ok(p, r),
            r matches Some(z) ==> ((z.time_zone() is Unknown || z.time_zone() is Fixed) ==> jiff_zoned_strptime(
                fmt@, s@) is Some),
    {
        match jiff_zoned_read_format(s, fmt) {
            Some((a, b, n, u, f)) => RyZoned::from_fields(a, b, n, u, f),
            None => None,
        }
    }

    /// Reads RFC 2822 text (`parse_rfc2822`, `from_rfc2822`): the instant
    /// `jiff` reads, in the fixed zone of the offset read (UTC for a zero
    /// offset); `None` where `jiff` refuses the text.
    pub fn from_rfc2822(s: &str) -> (r: Option<RyZoned>)
        ensures
            r is None <==> jiff_rfc2822_parse(s@) is None,
            r matches Some(z) ==> jiff_rfc2822_parse(s@) == Some((z@.0, z@.1)),
            r matches Some(z) ==> !(z.time_zone() is Named) && !(z.time_zone() is Unknown)
                && fixed_offset_of(z.time_zone()) == z@.1,
    {
        match jiff_rfc2822_read(s) {
            Some((a, b, o)) => {
                let ts = match RyTimestamp::py_new(a, b) {
                    Ok(t) => t,
                    Err(_) => return None,
                };
                let off = match RyOffset::from_seconds(o) {
                    Ok(off) => off,
                    Err(_) => return None,
                };
                match RyZoned::from_parts(&ts, &RyTimeZone::fixed(&off)) {
                    Ok(z) => Some(z),
                    Err(_) => None,
                }
            },
            None => None,
        }
    }

    /// The RFC 2822 text of this zoned datetime (`format_rfc2822`,
    /// `to_rfc2822`), as `jiff` prints it from the civil datetime and the
    /// offset; `None` where `jiff` refuses (a negative year).
    pub fn to_rfc2822(&self) -> (r: Option<String>)
        ensures
            r is None <==> jiff_rfc2822_text(self@.0, self@.1) is None,
            r matches Some(v) ==> jiff_rfc2822_text(self@.0, self@.1) == Some(v@),
    {
        let (s, n) = self.timestamp().parts();
        jiff_rfc2822_to_string(s, n, self.offset().seconds())
    }

    /// This zoned datetime under a `strftime` format (`strftime`,
    /// `__format__`), as `jiff` formats it. A database zone's text comes
    /// from the database, so of it only that it answers this request is
    /// stated; `None` only where the database no longer has the zone.
    pub fn strftime(&self, fmt: &str) -> (r: Option<String>)
        ensures
            !(self.time_zone() is Named) ==> (r matches Some(v) && v@ == jiff_zoned_strftime(fmt@, self@.0,
                self.time_zone())),
            r matches Some(v) ==> (match self.time_zone() {
                RyTimeZone::Named(n) => jiff_named_zoned_strftime(fmt@, self@.0, n@, v@),
                _ => true,
            }),
            (self.time_zone() matches RyTimeZone::Named(n) && exists|w: Seq<char>| #[trigger] jiff_named_zoned_strftime(
                fmt@, self@.0, n@, w)) ==> r is Some,
    {
        let (s, n) = self.timestamp().parts();
        let tz = self.time_zone();
        jiff_zoned_format(fmt, s, n, &tz)
    }
}

} // verus!
