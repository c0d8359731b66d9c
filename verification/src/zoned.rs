//! Zoned datetimes: an instant together with a time zone, the offset in
//! force there and the civil datetime it shows; their parts, comparison,
//! ISO form and repr, and the `fold` flag Python's datetimes carry.
use vstd::prelude::*;
use crate::compare::{CompareOp, apply_op, op_holds, int_sign_of_diff};
use crate::datetime::{RyDateTime, parts_ok, parts_view, jiff_datetime_iso_text};
use crate::offset::{RyOffset, offset_ok, offset_iso_text};
use crate::text::{int_text, push_char, push_i64, push_str};
use crate::timestamp::{RyTimestamp, ts_new_ok, ts_range};
use crate::timezone::{RyTimeZone, to_jiff_tz};
use crate::shift::{civil_nanos, lemma_civil_of_instant_in_range, lemma_civil_nanos_injective};

verus! {

/// The civil nanoseconds that an instant (in nanoseconds) shows at an
/// offset (in seconds): the instant moved by the offset.
pub open spec fn civil_at(t: int, off: int) -> int {
    t + off * 1_000_000_000
}

/// What `jiff` prints for a zoned datetime, an instant (in nanoseconds) in
/// a zone; stated only for zones that are not database zones.
pub uninterp spec fn jiff_zoned_text(t: int, tz: RyTimeZone) -> Seq<char>;

/// Whether `jiff`'s placement of civil datetime `dt` in the database zone
/// named `name` (`DateTime::in_tz`: compatible disambiguation) can answer
/// with instant `t` (in nanoseconds) at offset `o` (in seconds). The
/// database decides which answer comes; this records the request that an
/// answer is to.
pub uninterp spec fn jiff_zone_placement(dt: ((int, int, int), (int, int, int, int)), name: Seq<char>, t: int, o: int) -> bool;

/// Whether `jiff` (`TimeZone::get`, then `to_offset`) can answer that the
/// database zone named `name` puts offset `o` (in seconds) in force at
/// instant `t` (in nanoseconds). The database decides which answer comes;
/// this records the request that an answer is to. A name for which no
/// offset can come at an instant is one the database does not have.
pub uninterp spec fn jiff_zone_offset(name: Seq<char>, t: int, o: int) -> bool;

/// Whether the database can place civil datetime `dt` in the zone named
/// `name` at all: some instant and offset answer the request.
pub open spec fn zone_places(dt: ((int, int, int), (int, int, int, int)), name: Seq<char>) -> bool {
    exists|t: int, o: int| #[trigger] jiff_zone_placement(dt, name, t, o)
}

/// Whether the database can give the end of the civil day of instant `t`
/// in the zone named `name` at all.
pub open spec fn zone_ends_day(name: Seq<char>, t: int) -> bool {
    exists|t2: int, o2: int| #[trigger] jiff_zone_end_of_day(name, t, t2, o2)
}

/// Whether a zone has an offset at instant `t` (in nanoseconds): always for
/// UTC, the unknown zone and a fixed zone; for a database zone, when the
/// database has the zone, so that some offset answers at `t`.
pub open spec fn zone_answers_at(tz: RyTimeZone, t: int) -> bool {
    match tz {
        RyTimeZone::Named(n) => exists|o: int| #[trigger] jiff_zone_offset(n@, t, o),
        _ => true,
    }
}

/// Whether `jiff` (`Zoned::end_of_day`) can answer that the last instant of
/// the civil day of instant `t` in the database zone named `name` is `t2`,
/// shown at offset `o2`. The database decides which answer comes; this
/// records the request that an answer is to.
pub uninterp spec fn jiff_zone_end_of_day(name: Seq<char>, t: int, t2: int, o2: int) -> bool;

/// Whether `jiff`'s `Display` for `jiff::Zoned` can print `text` for instant
/// `t` in the database zone named `name`. The database decides which text
/// comes; this records the request that a text is to.
pub uninterp spec fn jiff_named_zoned_text(t: int, name: Seq<char>, text: Seq<char>) -> bool;

/// The offset a time zone puts in force: 0 for UTC and the unknown zone,
/// the fixed offset for a fixed zone; a database zone's offset is not
/// known here.
pub open spec fn zone_offset_fits(tz: RyTimeZone, off: int) -> bool {
    match tz {
        RyTimeZone::Utc => off == 0,
        RyTimeZone::Unknown => off == 0,
        RyTimeZone::Fixed(o) => off == o@,
        RyTimeZone::Named(_) => offset_ok(off),
    }
}

/// The offset of a zone that needs no database: 0 for UTC and the unknown
/// zone, the offset of a fixed zone (0 for a database zone, which these
/// statements leave out).
pub open spec fn fixed_offset_of(tz: RyTimeZone) -> int {
    match tz {
        RyTimeZone::Fixed(o) => o@,
        _ => 0,
    }
}

/// Why a zoned datetime could not be made (Python's `ValueError`).
#[derive(Clone, Copy, Debug, PartialEq, Eq, Structural)]
pub enum ZonedError {
    /// The time zone database has no zone of that name, or the datetime
    /// does not exist there.
    NotFound,
    /// The civil date does not exist.
    BadDate,
    /// The result of arithmetic is out of range (Python's `OverflowError`).
    OutOfRange,
}

/// An instant in a time zone.
#[derive(Debug)]
pub struct RyZoned {
    ts: RyTimestamp,
    offset: RyOffset,
    tz: RyTimeZone,
    dt: RyDateTime,
}

/// The civil datetime an instant shows at an offset (what `jiff`'s
/// `Offset::to_datetime` gives): the datetime whose civil nanoseconds are
/// the instant's moved by the offset.
fn civil_datetime_at(t: &RyTimestamp, off: i32) -> (r: RyDateTime)
    requires
        offset_ok(off as int),
    ensures
        civil_nanos(r@) == civil_at(t@, off as int),
{
    let (s, n) = t.parts();
    proof {
        lemma_civil_of_instant_in_range(t@, off as int);
    }
    RyDateTime::from_civil_nanos(s as i128 * 1_000_000_000 + n as i128 + off as i128 * 1_000_000_000)
}

/// The offset a database zone puts in force at an instant (`jiff`'s
/// `TimeZone::get` then `to_offset`). What the database holds is not known
/// here: only that an offset is in range and answers this request, and
/// that `None` comes only where `TimeZone::get` finds no zone of that name
/// (`to_offset` itself never fails), so that no offset answers.
#[verifier::external_body]
fn jiff_tz_offset_at(name: &str, second: i64, nanosecond: i32) -> (r: Option<i32>)
    requires
        ts_new_ok(second as int, nanosecond as int),
    ensures
        r matches Some(o) ==> offset_ok(o as int),
        r matches Some(o) ==> jiff_zone_offset(name@, second * 1_000_000_000 + nanosecond, o as int),
        r is None ==> forall|o: int| !#[trigger] jiff_zone_offset(name@, second * 1_000_000_000 + nanosecond, o),
{
    let tz = jiff::tz::TimeZone::get(name).ok()?;
    Some(tz.to_offset(jiff::Timestamp::new(second, nanosecond).unwrap()).seconds())
}

/// A civil datetime placed in a database zone (`jiff`'s `DateTime::in_tz`,
/// earlier of two candidates in a fold, later across a gap): the instant,
/// the offset and the zone's name. What the database holds is not known
/// here: only that the instant and offset are in range, that they answer
/// this request, and (as `jiff` documents for compatible disambiguation:
/// the earlier time in a fold, the later across a gap) that the civil time
/// shown is not before the one asked for. `None` comes only where `jiff`
/// has no answer (no zone of that name, or an instant out of range).
#[verifier::external_body]
fn jiff_civil_in_tz(p: ((i16, i8, i8), (i8, i8, i8, i32)), name: &str) -> (r: Option<(i64, i32, i32, String)>)
    requires
        parts_ok(p),
    ensures
        r matches Some(v) ==> ts_new_ok(v.0 as int, v.1 as int) && offset_ok(v.2 as int),
        r matches Some(v) ==> jiff_zone_placement(parts_view(p), name@, v.0 * 1_000_000_000 + v.1, v.2 as int),
        r matches Some(v) ==> civil_at(v.0 * 1_000_000_000 + v.1, v.2 as int) >= civil_nanos(parts_view(p)),
        r is None ==> forall|t: int, o: int| !#[trigger] jiff_zone_placement(parts_view(p), name@, t, o),
{
    let ((y, m, d), (h, mi, s, n)) = p;
    let z = jiff::civil::date(y, m, d).at(h, mi, s, n).in_tz(name).ok()?;
    let t = z.timestamp();
    let iana = z.time_zone().iana_name().unwrap_or(name).to_string();
    Some((t.as_second(), t.subsec_nanosecond(), z.offset().seconds(), iana))
}

/// The last instant of the civil day of an instant in a database zone
/// (`jiff`'s `Zoned::end_of_day`): the instant and the offset in force.
/// What the database holds is not known here: only that the instant and
/// offset are in range and answer this request, and that `None` comes only
/// where `jiff` has no answer (no zone of that name, or a day end out of
/// range).
#[verifier::external_body]
fn jiff_named_end_of_day(second: i64, nanosecond: i32, name: &str) -> (r: Option<(i64, i32, i32)>)
    requires
        ts_new_ok(second as int, nanosecond as int),
    ensures
        r matches Some(v) ==> ts_new_ok(v.0 as int, v.1 as int) && offset_ok(v.2 as int),
        r matches Some(v) ==> jiff_zone_end_of_day(name@, second * 1_000_000_000 + nanosecond, v.0 * 1_000_000_000
            + v.1, v.2 as int),
        r is None ==> forall|t2: int, o2: int| !#[trigger] jiff_zone_end_of_day(name@, second * 1_000_000_000
            + nanosecond, t2, o2),
{
    let tz = jiff::tz::TimeZone::get(name).ok()?;
    let z = jiff::Timestamp::new(second, nanosecond).unwrap().to_zoned(tz).end_of_day().ok()?;
    Some((z.timestamp().as_second(), z.timestamp().subsec_nanosecond(), z.offset().seconds()))
}

/// A zoned datetime printed by `jiff`'s `Display` for `jiff::Zoned`: `None`
/// only where the database no longer has a database zone (so that no text
/// answers). For a database zone what the database holds is not known
/// here: only that the text answers this request.
#[verifier::external_body]
fn jiff_zoned_to_string(second: i64, nanosecond: i32, tz: &RyTimeZone) -> (r: Option<String>)
    requires
        ts_new_ok(second as int, nanosecond as int),
    ensures
        !(*tz is Named) ==> r is Some,
        r matches Some(v) ==> (!(*tz is Named) ==> v@ == jiff_zoned_text(second * 1_000_000_000 + nanosecond, *tz)),
        r matches Some(v) ==> (match *tz {
            RyTimeZone::Named(n) => jiff_named_zoned_text(second * 1_000_000_000 + nanosecond, n@, v@),
            _ => true,
        }),
        r is None ==> (match *tz {
            RyTimeZone::Named(n) => forall|w: Seq<char>| !#[trigger] jiff_named_zoned_text(second * 1_000_000_000
                + nanosecond, n@, w),
            _ => true,
        }),
{
    let z = jiff::Timestamp::new(second, nanosecond).unwrap().to_zoned(to_jiff_tz(tz)?);
    Some(z.to_string())
}

/// The repr of a zoned datetime whose zone has a name:
/// `ZonedDateTime(year=.., .., nanosecond=.., tz="name")`.
pub open spec fn zoned_named_repr_text(d: ((int, int, int), (int, int, int, int)), name: Seq<char>) -> Seq<char> {
    seq!['Z', 'o', 'n', 'e', 'd', 'D', 'a', 't', 'e', 'T', 'i', 'm', 'e', '(', 'y', 'e', 'a', 'r',
        '='] + int_text(d.0.0) + seq![',', ' ', 'm', 'o', 'n', 't', 'h', '='] + int_text(d.0.1)
        + seq![',', ' ', 'd', 'a', 'y', '='] + int_text(d.0.2) + seq![',', ' ', 'h', 'o', 'u', 'r',
        '='] + int_text(d.1.0) + seq![',', ' ', 'm', 'i', 'n', 'u', 't', 'e', '='] + int_text(d.1.1)
        + seq![',', ' ', 's', 'e', 'c', 'o', 'n', 'd', '='] + int_text(d.1.2) + seq![',', ' ', 'n',
        'a', 'n', 'o', 's', 'e', 'c', 'o', 'n', 'd', '='] + int_text(d.1.3) + seq![',', ' ', 't',
        'z', '=', '"'] + name + seq!['"', ')']
}

/// The repr of a zoned datetime (instant, offset, civil datetime) in a
/// zone: with the zone's name when it has one, else
/// `ZonedDateTime.parse("<jiff text>")`.
pub open spec fn zoned_repr_text(tz: RyTimeZone, v: (int, int, ((int, int, int), (int, int, int, int)))) -> Seq<char> {
    match tz {
        RyTimeZone::Named(n) => zoned_named_repr_text(v.2, n@),
        RyTimeZone::Utc => zoned_named_repr_text(v.2, seq!['U', 'T', 'C']),
        _ => zoned_parse_repr_text(jiff_zoned_text(v.0, tz)),
    }
}

/// The repr of a zoned datetime whose zone has no name:
/// `ZonedDateTime.parse("<jiff text>")`.
pub open spec fn zoned_parse_repr_text(text: Seq<char>) -> Seq<char> {
    seq!['Z', 'o', 'n', 'e', 'd', 'D', 'a', 't', 'e', 'T', 'i', 'm', 'e', '.', 'p', 'a', 'r', 's',
        'e', '(', '"'] + text + seq!['"', ')']
}

/// Python's `fold` flag for an instant `t` (nanoseconds) at offset `off`
/// (seconds), given the transition before it (at `prev_t`, to offset
/// `prev_off`) and the first transition after that one (at `next_t`): the
/// instant is on the second pass through repeated local times when moving
/// it by the change of offset does not pass the start of the current
/// offset.
pub open spec fn fold_flag(t: int, off: int, prev_t: int, prev_off: int, next_t: int) -> bool {
    let start = if next_t == t { next_t } else { prev_t };
    t + (off - prev_off) * 1_000_000_000 <= start
}

/// Decides Python's `fold` flag for a zoned datetime from the zone's
/// transitions around it.
pub fn python_fold(t: &RyTimestamp, off: &RyOffset, prev_t: &RyTimestamp, prev_off: &RyOffset, next_t: &RyTimestamp) -> (r: bool)
    requires
        ts_range(t@ + (off@ - prev_off@) * 1_000_000_000),
    ensures
        r == fold_flag(t@, off@, prev_t@, prev_off@, next_t@),
{
    let a = t.as_nanosecond();
    let n = next_t.as_nanosecond();
    let start = if n == a { n } else { prev_t.as_nanosecond() };
    let d = (off.seconds() as i128 - prev_off.seconds() as i128) * 1_000_000_000;
    a + d <= start
}

impl RyZoned {
    #[verifier::type_invariant]
    spec fn inv(self) -> bool {
        &&& civil_nanos(self.dt@) == civil_at(self.ts@, self.offset@)
        &&& zone_offset_fits(self.tz, self.offset@)
    }

    /// The instant in a zone (`from_parts`, `Timestamp.to_zoned`,
    /// `with_time_zone`): UTC and the unknown zone at offset 0, a fixed
    /// zone at its offset, a database zone at the offset it puts in force
    /// (failing when the database no longer has the zone).
    pub fn from_parts(ts: &RyTimestamp, tz: &RyTimeZone) -> (r: Result<RyZoned, ZonedError>)
        ensures
            !(*tz matches RyTimeZone::Named(_)) ==> r is Ok,
            zone_answers_at(*tz, ts@) ==> r is Ok,
            r matches Ok(z) ==> z@.0 == ts@ && z.time_zone() == *tz && zone_offset_fits(*tz, z@.1)
                && civil_nanos(z@.2) == civil_at(ts@, z@.1),
            r matches Ok(z) ==> (match *tz {
                RyTimeZone::Named(n) => jiff_zone_offset(n@, ts@, z@.1),
                _ => true,
            }),
            r matches Err(e) ==> e == ZonedError::NotFound,
    {
        let (s, n) = ts.parts();
        let off: i32 = match tz {
            RyTimeZone::Utc => 0,
            RyTimeZone::Unknown => 0,
            RyTimeZone::Fixed(o) => o.seconds(),
            RyTimeZone::Named(name) => {
                return match jiff_tz_offset_at(name.as_str(), s, n) {
                    Some(o) => RyZoned::at_instant_offset(s, n, o, tz.duplicate()),
                    None => Err(ZonedError::NotFound),
                };
            },
        };
        let offset = match RyOffset::from_seconds(off) {
            Ok(o) => o,
            Err(_) => return Err(ZonedError::NotFound),
        };
        let dt = civil_datetime_at(ts, off);
        Ok(RyZoned { ts: *ts, offset, tz: tz.duplicate(), dt })
    }

    /// The zoned datetime at an instant (`second`, `nanosecond`) shown at an
    /// offset in a zone: fails with `NotFound` unless the instant and
    /// offset are in range and the offset is one the zone can have (any
    /// in-range offset for a database zone, the zone's own otherwise).
    pub fn at_instant_offset(second: i64, nanosecond: i32, offset: i32, tz: RyTimeZone) -> (r: Result<RyZoned, ZonedError>)
        ensures
            r is Ok <==> ts_new_ok(second as int, nanosecond as int) && offset_ok(offset as int) && zone_offset_fits(
                tz, offset as int),
            r matches Ok(z) ==> z@.0 == second * 1_000_000_000 + nanosecond && z@.1 == offset as int
                && z.time_zone() == tz && civil_nanos(z@.2) == civil_at(z@.0, z@.1),
            r matches Err(e) ==> e == ZonedError::NotFound,
    {
        let ts = match RyTimestamp::py_new(second, nanosecond) {
            Ok(t) => t,
            Err(_) => return Err(ZonedError::NotFound),
        };
        let o = match RyOffset::from_seconds(offset) {
            Ok(o) => o,
            Err(_) => return Err(ZonedError::NotFound),
        };
        let fits = match &tz {
            RyTimeZone::Utc => offset == 0,
            RyTimeZone::Unknown => offset == 0,
            RyTimeZone::Fixed(f) => offset == f.seconds(),
            RyTimeZone::Named(_) => true,
        };
        if !fits {
            return Err(ZonedError::NotFound);
        }
        let dt = civil_datetime_at(&ts, offset);
        Ok(RyZoned { ts, offset: o, tz, dt })
    }

    /// The civil datetime `year-month-day hour:minute:second.nanosecond` in
    /// the database zone `tz` (the Python constructor with a zone name),
    /// placed as `jiff`'s `DateTime::in_tz` places it: fails with `BadDate`
    /// exactly when the date does not exist, else with `NotFound` where the
    /// database refuses.
    pub fn py_new(
        year: i16,
        month: i8,
        day: i8,
        hour: i8,
        minute: i8,
        second: i8,
        nanosecond: i32,
        tz: &str,
    ) -> (r: Result<RyZoned, ZonedError>)
        requires
            crate::time::time_ok(hour as int, minute as int, second as int, nanosecond as int),
        ensures
            ({
                let asked = ((year as int, month as int, day as int), (hour as int, minute as int, second as int,
                    nanosecond as int));
                &&& (r == Err::<RyZoned, ZonedError>(ZonedError::BadDate) <==> !crate::date::date_ok(year as int,
                    month as int, day as int))
                &&& (r matches Err(e) ==> e == ZonedError::BadDate || e == ZonedError::NotFound)
                &&& (r matches Ok(z) ==> z.time_zone() is Named && offset_ok(z@.1) && civil_nanos(z@.2) == civil_at(
                    z@.0, z@.1))
                &&& (r matches Ok(z) ==> jiff_zone_placement(asked, tz@, z@.0, z@.1) && civil_nanos(z@.2)
                    >= civil_nanos(asked))
                &&& (crate::date::date_ok(year as int, month as int, day as int) && zone_places(asked, tz@)
                    ==> r is Ok)
            }),
    {
        let d = match crate::date::RyDate::py_new(year, month, day) {
            Ok(d) => d,
            Err(_) => return Err(ZonedError::BadDate),
        };
        let dt = d.at(hour, minute, second, nanosecond);
        match jiff_civil_in_tz(dt.parts(), tz) {
            Some((s, n, off, name)) => RyZoned::at_instant_offset(s, n, off, RyTimeZone::Named(name)),
            None => Err(ZonedError::NotFound),
        }
    }

    /// A civil datetime placed in a zone (`jiff`'s `DateTime::to_zoned`):
    /// in UTC, the unknown zone or a fixed zone the instant is the civil
    /// datetime less the offset, failing when that instant is out of range;
    /// a database zone picks the offset (the earlier one where the local
    /// time repeats, the later one across a gap).
    pub fn from_civil(dt: &RyDateTime, tz: &RyTimeZone) -> (r: Result<RyZoned, ZonedError>)
        ensures
            !(*tz is Named) ==> (r is Ok <==> ts_range(civil_nanos(dt@) - fixed_offset_of(*tz) * 1_000_000_000)),
            !(*tz is Named) && r is Err ==> r == Err::<RyZoned, ZonedError>(ZonedError::OutOfRange),
            r matches Ok(z) ==> z.time_zone() == *tz && zone_offset_fits(*tz, z@.1)
                && civil_nanos(z@.2) == civil_at(z@.0, z@.1),
            r matches Ok(z) ==> (!(*tz is Named) ==> z@.0 == civil_nanos(dt@) - fixed_offset_of(*tz)
                * 1_000_000_000 && z@.2 == dt@),
            r matches Ok(z) ==> (match *tz {
                RyTimeZone::Named(n) => jiff_zone_placement(dt@, n@, z@.0, z@.1) && civil_nanos(z@.2) >= civil_nanos(
                    dt@),
                _ => true,
            }),
            r matches Err(e) ==> e != ZonedError::BadDate,
            (*tz matches RyTimeZone::Named(n) && zone_places(dt@, n@)) ==> r is Ok,
    {
        let (off, ts) = match tz {
            RyTimeZone::Named(name) => {
                match jiff_civil_in_tz(dt.parts(), name.as_str()) {
                    Some((s, n, o, _)) => {
                        let t = match RyTimestamp::py_new(s, n) {
                            Ok(t) => t,
                            Err(_) => return Err(ZonedError::NotFound),
                        };
                        (o, t)
                    },
                    None => return Err(ZonedError::NotFound),
                }
            },
            _ => {
                let o: i32 = match tz {
                    RyTimeZone::Fixed(o) => o.seconds(),
                    _ => 0,
                };
                let c = dt.civil_nanosecond() - o as i128 * 1_000_000_000;
                match RyTimestamp::from_nanosecond(c) {
                    Ok(t) => (o, t),
                    Err(_) => return Err(ZonedError::OutOfRange),
                }
            },
        };
        let offset = match RyOffset::from_seconds(off) {
            Ok(o) => o,
            Err(_) => return Err(ZonedError::NotFound),
        };
        let zdt = civil_datetime_at(&ts, off);
        let shown = zdt.civil_nanosecond();
        proof {
            if !(*tz is Named) {
                assert(shown == civil_nanos(dt@));
                lemma_civil_nanos_injective(zdt@, dt@);
            }
        }
        Ok(RyZoned { ts, offset, tz: tz.duplicate(), dt: zdt })
    }

    /// The last instant of this datetime's civil day (`end_of_day`): in
    /// UTC, the unknown zone or a fixed zone, 23:59:59.999999999 of the day
    /// placed in the zone; a database zone takes the later instant where
    /// that time repeats and the earlier across a gap.
    pub fn end_of_day(&self) -> (r: Result<RyZoned, ZonedError>)
        ensures
            !(self.time_zone() is Named) ==> (r is Ok <==> ts_range(civil_nanos((self@.2.0, (23int, 59int, 59int,
                999_999_999int))) - fixed_offset_of(self.time_zone()) * 1_000_000_000)),
            r matches Ok(z) ==> (!(self.time_zone() is Named) ==> z@.2 == (self@.2.0, (23int, 59int, 59int,
                999_999_999int))),
            r matches Ok(z) ==> z.time_zone() == self.time_zone() && civil_nanos(z@.2) == civil_at(z@.0, z@.1),
            r matches Ok(z) ==> (match self.time_zone() {
                RyTimeZone::Named(n) => jiff_zone_end_of_day(n@, self@.0, z@.0, z@.1),
                _ => true,
            }),
            (self.time_zone() matches RyTimeZone::Named(n) && zone_ends_day(n@, self@.0)) ==> r is Ok,
    {
        match &self.tz {
            RyTimeZone::Named(name) => {
                let (s, n) = self.ts.parts();
                match jiff_named_end_of_day(s, n, name.as_str()) {
                    Some((s2, n2, off)) => RyZoned::at_instant_offset(s2, n2, off, self.tz.duplicate()),
                    None => Err(ZonedError::NotFound),
                }
            },
            _ => {
                let tz = self.time_zone();
                RyZoned::from_civil(&self.dt.end_of_day(), &tz)
            },
        }
    }

    /// The same instant in another zone (`with_time_zone`, `in_tz`).
    pub fn with_time_zone(&self, tz: &RyTimeZone) -> (r: Result<RyZoned, ZonedError>)
        ensures
            !(*tz matches RyTimeZone::Named(_)) ==> r is Ok,
            zone_answers_at(*tz, self@.0) ==> r is Ok,
            r matches Ok(z) ==> z@.0 == self@.0 && z.time_zone() == *tz && zone_offset_fits(*tz, z@.1)
                && civil_nanos(z@.2) == civil_at(self@.0, z@.1),
            r matches Ok(z) ==> (match *tz {
                RyTimeZone::Named(n) => jiff_zone_offset(n@, self@.0, z@.1),
                _ => true,
            }),
    {
        RyZoned::from_parts(&self.ts, tz)
    }

    /// The same instant in UTC (`inutc`).
    pub fn in_utc(&self) -> (r: RyZoned)
        ensures
            r@.0 == self@.0,
            r@.1 == 0,
            r.time_zone() == RyTimeZone::Utc,
            civil_nanos(r@.2) == self@.0,
    {
        let dt = civil_datetime_at(&self.ts, 0);
        RyZoned { ts: self.ts, offset: RyOffset::utc(), tz: RyTimeZone::Utc, dt }
    }

    /// The instant (`timestamp`).
    pub fn timestamp(&self) -> (r: RyTimestamp)
        ensures
            r@ == self@.0,
    {
        self.ts
    }

    /// The offset in force (`offset`).
    pub fn offset(&self) -> (r: RyOffset)
        ensures
            r@ == self@.1,
            zone_offset_fits(self.time_zone(), r@),
    {
        proof {
            use_type_invariant(self);
        }
        self.offset
    }

    /// The time zone (`timezone`, `tz`).
    pub closed spec fn time_zone_spec(&self) -> RyTimeZone {
        self.tz
    }

    /// The time zone.
    #[verifier::when_used_as_spec(time_zone_spec)]
    pub fn time_zone(&self) -> (r: RyTimeZone)
        ensures
            r == self.time_zone_spec(),
    {
        self.tz.duplicate()
    }

    /// A copy of this zoned datetime.
    pub fn duplicate(&self) -> (r: RyZoned)
        ensures
            r@ == self@,
            r.time_zone() == self.time_zone(),
    {
        proof {
            use_type_invariant(self);
        }
        RyZoned { ts: self.ts, offset: self.offset, tz: self.tz.duplicate(), dt: self.dt }
    }

    /// The civil datetime shown (`datetime`; `date`, `time` and the
    /// calendar getters read it).
    pub fn datetime(&self) -> (r: RyDateTime)
        ensures
            r@ == self@.2,
            civil_nanos(r@) == civil_at(self@.0, self@.1),
    {
        proof {
            use_type_invariant(self);
        }
        self.dt
    }

    /// Compares two zoned datetimes by their instants, as `jiff` does.
    pub fn rich_compare(&self, other: &RyZoned, op: CompareOp) -> (r: bool)
        ensures
            r == op_holds(op, int_sign_of_diff(self@.0, other@.0)),
    {
        self.ts.rich_compare(&other.ts, op)
    }

    /// The text `jiff` prints for this zoned datetime (`str`,
    /// `to_string`). A database zone's text comes from the database, so
    /// only its existence is stated; `None` only where the database no
    /// longer has the zone.
    pub fn to_string(&self) -> (r: Option<String>)
        ensures
            !(self.time_zone() is Named) ==> (r matches Some(v) && v@ == jiff_zoned_text(self@.0, self.time_zone())),
            r matches Some(v) ==> (match self.time_zone() {
                RyTimeZone::Named(n) => jiff_named_zoned_text(self@.0, n@, v@),
                _ => true,
            }),
            (self.time_zone() matches RyTimeZone::Named(n) && exists|w: Seq<char>| #[trigger] jiff_named_zoned_text(
                self@.0, n@, w)) ==> r is Some,
    {
        proof {
            use_type_invariant(self);
        }
        let (s, n) = self.ts.parts();
        jiff_zoned_to_string(s, n, &self.tz)
    }

    /// The ISO 8601 form (`isoformat`): the civil datetime with no fraction
    /// for a whole second, else six fractional digits, then the offset as
    /// `±HH:MM[:SS]`.
    pub fn isoformat(&self) -> (r: String)
        ensures
            r@ == jiff_datetime_iso_text(self@.2.0, self@.2.1, if self@.2.1.3 == 0 { 0 } else { 6 })
                + offset_iso_text(self@.1),
    {
        let mut out = self.dt.isoformat();
        let tail = self.offset.isoformat();
        push_str(&mut out, tail.as_str());
        out
    }

    /// The repr: with the zone's name when it has one, else
    /// `ZonedDateTime.parse("<jiff text>")`.
    #[verifier::spinoff_prover]
    #[verifier::rlimit(40)]
    pub fn repr(&self) -> (r: String)
        ensures
            r@ == zoned_repr_text(self.time_zone(), self@),
    {
        proof {
            use_type_invariant(self);
        }
        let (s, n) = self.ts.parts();
        match self.tz.iana_name() {
            Some(name) => {
                let mut out = String::new();
                let d = self.dt.date();
                let t = self.dt.time();
                proof {
                    reveal_strlit("ZonedDateTime(year=");
                    reveal_strlit(", month=");
                    reveal_strlit(", day=");
                    reveal_strlit(", hour=");
                    reveal_strlit(", minute=");
                    reveal_strlit(", second=");
                    reveal_strlit(", nanosecond=");
                    reveal_strlit(", tz=\"");
                }
                push_str(&mut out, "ZonedDateTime(year=");
                push_i64(&mut out, d.year() as i64);
                push_str(&mut out, ", month=");
                push_i64(&mut out, d.month() as i64);
                push_str(&mut out, ", day=");
                push_i64(&mut out, d.day() as i64);
                push_str(&mut out, ", hour=");
                push_i64(&mut out, t.hour() as i64);
                push_str(&mut out, ", minute=");
                push_i64(&mut out, t.minute() as i64);
                push_str(&mut out, ", second=");
                push_i64(&mut out, t.second() as i64);
                push_str(&mut out, ", nanosecond=");
                push_i64(&mut out, t.subsec_nanosecond() as i64);
                push_str(&mut out, ", tz=\"");
                push_str(&mut out, name.as_str());
                push_char(&mut out, '"');
                push_char(&mut out, ')');
                assert(out@ =~= zoned_named_repr_text(self@.2, name@));
                out
            },
            None => {
                let text = match jiff_zoned_to_string(s, n, &self.tz) {
                    Some(t) => t,
                    None => String::new(),
                };
                let mut out = String::new();
                proof {
                    reveal_strlit("ZonedDateTime.parse(\"");
                }
                push_str(&mut out, "ZonedDateTime.parse(\"");
                push_str(&mut out, text.as_str());
                push_char(&mut out, '"');
                push_char(&mut out, ')');
                assert(out@ =~= zoned_parse_repr_text(text@));
                out
            },
        }
    }
}

impl View for RyZoned {
    type V = (int, int, ((int, int, int), (int, int, int, int)));

    /// The instant, the offset in force and the civil datetime shown.
    closed spec fn view(&self) -> (int, int, ((int, int, int), (int, int, int, int))) {
        (self.ts@, self.offset@, self.dt@)
    }
}

} // verus!
