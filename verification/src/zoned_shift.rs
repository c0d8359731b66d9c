//! Arithmetic on zoned datetimes: exact durations move the instant, spans
//! of calendar units move the civil datetime shown in the zone; and the
//! day and month boundaries of a zoned datetime.
use vstd::prelude::*;
use crate::datetime::{RyDateTime, parts_ok, parts_view};
use crate::date::{RyDate, date_replace_ok, date_replace_result, lemma_date_replace_result_unique};
use crate::time::{RyTime, time_with_ok, time_replaced};
use crate::offset::{RyOffset, offset_ok};
use crate::units::{JiffEra, JiffTzOffsetConflict, JiffTzDisambiguation};
use crate::date::{next_date, prev_date, days_in_month, nth_weekday_of_month_day, nth_weekday_day_number,
    weekday_of, epoch_day, epoch_day_in_range};
use crate::units::{JiffWeekday, weekday_number, JiffUnit, JiffRoundMode};
use crate::shift::{civil_nanos, day_nanos, time_of_day_nanos, span_time_nanos, calendar_free, ShiftError, jiff_datetime_plus_span};
use crate::signed_duration::{RySignedDuration, sd_range};
use crate::span::{RySpan, calendar_part, any_negative, negated};
use crate::timestamp::{RyTimestamp, ts_range, ts_min_second, ts_max_second, ts_new_ok};
use crate::timezone::{RyTimeZone, to_jiff_tz};
use crate::round::{RyZonedDateTimeRound, RoundOptions, to_jiff_unit, to_jiff_round_mode};
use crate::zoned::{jiff_zone_offset, jiff_zone_placement, RyZoned, ZonedError, fixed_offset_of, zone_offset_fits, zone_answers_at, zone_places, civil_at};

verus! {

/// `jiff`'s offset conflict strategy type.
#[verifier::external_type_specification]
#[verifier::external_body]
pub struct ExJiffOffsetConflict(jiff::tz::OffsetConflict);

/// `jiff`'s disambiguation strategy type.
#[verifier::external_type_specification]
#[verifier::external_body]
pub struct ExJiffDisambiguation(jiff::tz::Disambiguation);

/// The `jiff` offset conflict strategy of a `JiffTzOffsetConflict`,
/// variant for variant.
#[verifier::external_body]
fn to_jiff_offset_conflict(c: JiffTzOffsetConflict) -> jiff::tz::OffsetConflict {
    match c {
        JiffTzOffsetConflict::AlwaysOffset => jiff::tz::OffsetConflict::AlwaysOffset,
        JiffTzOffsetConflict::AlwaysTimeZone => jiff::tz::OffsetConflict::AlwaysTimeZone,
        JiffTzOffsetConflict::PreferOffset => jiff::tz::OffsetConflict::PreferOffset,
        JiffTzOffsetConflict::Reject => jiff::tz::OffsetConflict::Reject,
    }
}

/// The `jiff` disambiguation strategy of a `JiffTzDisambiguation`, variant
/// for variant.
#[verifier::external_body]
fn to_jiff_disambiguation(d: JiffTzDisambiguation) -> jiff::tz::Disambiguation {
    match d {
        JiffTzDisambiguation::Compatible => jiff::tz::Disambiguation::Compatible,
        JiffTzDisambiguation::Earlier => jiff::tz::Disambiguation::Earlier,
        JiffTzDisambiguation::Later => jiff::tz::Disambiguation::Later,
        JiffTzDisambiguation::Reject => jiff::tz::Disambiguation::Reject,
    }
}

/// Whether `jiff`'s resolution (`OffsetConflict::resolve` under strategy
/// `c`, then `disambiguate` under `d`) of civil datetime `dt` with offset
/// `off` (in seconds) in the database zone named `name` can answer with
/// instant `t` (in nanoseconds) at offset `o`. The database decides which
/// answer comes; this records the request that an answer is to.
pub uninterp spec fn jiff_named_resolution(
    dt: ((int, int, int), (int, int, int, int)),
    name: Seq<char>,
    off: int,
    c: JiffTzOffsetConflict,
    d: JiffTzDisambiguation,
    t: int,
    o: int,
) -> bool;

/// A civil datetime and an offset resolved in a database zone (`jiff`'s
/// `OffsetConflict::resolve`, then `disambiguate`): the instant and the
/// offset in force. What the database holds is not known here: only that
/// the instant and offset are in range and answer this request, that
/// under `AlwaysOffset` the instant is the civil datetime less the given
/// offset, as `jiff`'s source shows, and that `None` comes only where `jiff`
/// has no answer (no zone of that name, a rejected offset, or an instant
/// out of range).
#[verifier::external_body]
fn jiff_named_resolve(
    p: ((i16, i8, i8), (i8, i8, i8, i32)),
    name: &str,
    off: i32,
    c: JiffTzOffsetConflict,
    d: JiffTzDisambiguation,
) -> (r: Option<(i64, i32, i32)>)
    requires
        parts_ok(p),
        offset_ok(off as int),
    ensures
        r matches Some(v) ==> ts_new_ok(v.0 as int, v.1 as int) && offset_ok(v.2 as int),
        r matches Some(v) ==> jiff_named_resolution(parts_view(p), name@, off as int, c, d, v.0 * 1_000_000_000 + v.1,
            v.2 as int),
        r matches Some(v) ==> (c == JiffTzOffsetConflict::AlwaysOffset ==> v.0 * 1_000_000_000 + v.1 == civil_nanos(
            parts_view(p)) - off * 1_000_000_000),
        r is None ==> forall|t: int, o: int| !#[trigger] jiff_named_resolution(parts_view(p), name@, off as int, c, d,
            t, o),
{
    let tz = jiff::tz::TimeZone::get(name).ok()?;
    let ((y, m, dd), (h, mi, s, n)) = p;
    let offset = jiff::tz::Offset::from_seconds(off).ok()?;
    let amb = to_jiff_offset_conflict(c).resolve(jiff::civil::date(y, m, dd).at(h, mi, s, n), offset, tz).ok()?;
    let z = amb.disambiguate(to_jiff_disambiguation(d)).ok()?;
    Some((z.timestamp().as_second(), z.timestamp().subsec_nanosecond(), z.offset().seconds()))
}

/// Whether `jiff` can resolve civil datetime `dt` with offset `off` in the
/// database zone named `name` at all: some instant and offset answer.
pub open spec fn zone_resolves(
    dt: ((int, int, int), (int, int, int, int)),
    name: Seq<char>,
    off: int,
    c: JiffTzOffsetConflict,
    d: JiffTzDisambiguation,
) -> bool {
    exists|t: int, o: int| #[trigger] jiff_named_resolution(dt, name, off, c, d, t, o)
}

/// The instant of civil nanoseconds `civil` with offset `o` in a zone whose
/// only offset is `f`: the given offset when the strategy always uses it,
/// an error when the strategy rejects a conflicting offset, else the
/// zone's offset.
pub open spec fn fixed_zone_resolve(civil: int, o: int, f: int, c: JiffTzOffsetConflict) -> Option<int> {
    match c {
        JiffTzOffsetConflict::AlwaysOffset => Some(civil - o * 1_000_000_000),
        JiffTzOffsetConflict::Reject => if o == f { Some(civil - f * 1_000_000_000) } else { None },
        _ => Some(civil - f * 1_000_000_000),
    }
}

/// Whether `v` is the civil datetime that `replace` describes for base
/// date `bd` and base time `bt`.
pub open spec fn is_replaced_datetime(
    v: ((int, int, int), (int, int, int, int)),
    bd: (int, int, int),
    bt: (int, int, int, int),
    year: Option<i16>,
    era_year: Option<(i16, JiffEra)>,
    month: Option<i8>,
    day: Option<i8>,
    day_of_year: Option<i16>,
    day_of_year_no_leap: Option<i16>,
    hour: Option<i8>,
    minute: Option<i8>,
    second: Option<i8>,
    millisecond: Option<i16>,
    microsecond: Option<i16>,
    nanosecond: Option<i16>,
    subsec_nanosecond: Option<i32>,
) -> bool {
    &&& date_replace_result(v.0, bd.0, bd.1, bd.2, year, era_year, month, day, day_of_year, day_of_year_no_leap)
    &&& v.1 == time_replaced(bt, hour, minute, second, millisecond, microsecond, nanosecond, subsec_nanosecond)
}

/// Whether instant `t` is what the civil datetime that `replace`
/// describes (base date `bd` and time `bt`, date parts `dp`, time parts
/// `tp`) resolves to with offset `o` in a zone whose only offset is `f`.
pub open spec fn replaced_and_resolved(
    t: int,
    bd: (int, int, int),
    bt: (int, int, int, int),
    dp: (Option<i16>, Option<(i16, JiffEra)>, Option<i8>, Option<i8>, Option<i16>, Option<i16>),
    tp: (Option<i8>, Option<i8>, Option<i8>, Option<i16>, Option<i16>, Option<i16>, Option<i32>),
    o: int,
    f: int,
    c: JiffTzOffsetConflict,
) -> bool {
    exists|v: ((int, int, int), (int, int, int, int))|
        is_replaced_datetime(v, bd, bt, dp.0, dp.1, dp.2, dp.3, dp.4, dp.5, tp.0, tp.1, tp.2, tp.3, tp.4, tp.5, tp.6)
            && fixed_zone_resolve(#[trigger] civil_nanos(v), o, f, c) == Some(t)
}

/// Whether instant `t` at offset `o_out` answers the resolution, in the
/// database zone named `name` with offset `off`, strategy `c` and
/// disambiguation `d`, of the civil datetime that `replace` describes
/// (base date `bd` and time `bt`, date parts `dp`, time parts `tp`).
pub open spec fn replaced_and_named_resolved(
    t: int,
    o_out: int,
    bd: (int, int, int),
    bt: (int, int, int, int),
    dp: (Option<i16>, Option<(i16, JiffEra)>, Option<i8>, Option<i8>, Option<i16>, Option<i16>),
    tp: (Option<i8>, Option<i8>, Option<i8>, Option<i16>, Option<i16>, Option<i16>, Option<i32>),
    name: Seq<char>,
    off: int,
    c: JiffTzOffsetConflict,
    d: JiffTzDisambiguation,
) -> bool {
    exists|v: ((int, int, int), (int, int, int, int))|
        is_replaced_datetime(v, bd, bt, dp.0, dp.1, dp.2, dp.3, dp.4, dp.5, tp.0, tp.1, tp.2, tp.3, tp.4, tp.5, tp.6)
            && #[trigger] jiff_named_resolution(v, name, off, c, d, t, o_out)
}

/// Whether the civil datetime that `replace` describes resolves, with
/// offset `o` in a zone whose only offset is `f`, to an instant in range.
/// Whether the replaced datetime can be resolved in the database zone named
/// `name`: one of the datetimes the replacement gives (there is at most
/// one) is one `jiff` can resolve there.
pub open spec fn replaced_named_resolvable(
    bd: (int, int, int),
    bt: (int, int, int, int),
    dp: (Option<i16>, Option<(i16, JiffEra)>, Option<i8>, Option<i8>, Option<i16>, Option<i16>),
    tp: (Option<i8>, Option<i8>, Option<i8>, Option<i16>, Option<i16>, Option<i16>, Option<i32>),
    name: Seq<char>,
    o: int,
    c: JiffTzOffsetConflict,
    d: JiffTzDisambiguation,
) -> bool {
    exists|v: ((int, int, int), (int, int, int, int))|
        is_replaced_datetime(v, bd, bt, dp.0, dp.1, dp.2, dp.3, dp.4, dp.5, tp.0, tp.1, tp.2, tp.3, tp.4, tp.5, tp.6)
            && #[trigger] zone_resolves(v, name, o, c, d)
}

pub open spec fn replaced_resolvable(
    bd: (int, int, int),
    bt: (int, int, int, int),
    dp: (Option<i16>, Option<(i16, JiffEra)>, Option<i8>, Option<i8>, Option<i16>, Option<i16>),
    tp: (Option<i8>, Option<i8>, Option<i8>, Option<i16>, Option<i16>, Option<i16>, Option<i32>),
    o: int,
    f: int,
    c: JiffTzOffsetConflict,
) -> bool {
    exists|v: ((int, int, int), (int, int, int, int))|
        is_replaced_datetime(v, bd, bt, dp.0, dp.1, dp.2, dp.3, dp.4, dp.5, tp.0, tp.1, tp.2, tp.3, tp.4, tp.5, tp.6)
            && (fixed_zone_resolve(#[trigger] civil_nanos(v), o, f, c) matches Some(t) && ts_range(t))
}

/// The instant that a zoned datetime (instant `t`, civil datetime `dt`) in
/// a zone without a database moves to when a span is added: for a span of
/// time units the instant moves by their length; otherwise the civil
/// datetime moves by the calendar units, is placed back in the zone, and
/// then moves by the time units. `None` when a step is out of range.
pub open spec fn zoned_span_target(
    t: int,
    dt: ((int, int, int), (int, int, int, int)),
    tz: RyTimeZone,
    f: Seq<int>,
) -> Option<int> {
    if calendar_free(f) {
        if ts_range(t + span_time_nanos(f)) { Some(t + span_time_nanos(f)) } else { None }
    } else {
        match jiff_datetime_plus_span(dt, calendar_part(f)) {
            None => None,
            Some(moved) => {
                let t1 = civil_nanos(moved) - fixed_offset_of(tz) * 1_000_000_000;
                if ts_range(t1) && ts_range(t1 + span_time_nanos(f)) {
                    Some(t1 + span_time_nanos(f))
                } else {
                    None
                }
            },
        }
    }
}

/// Whether a span `f` added to a zoned datetime (instant `t`, civil
/// datetime `dt`) in the database zone named `name` can land on instant
/// `t2` shown at offset `o2`, by the answers the database gives: a span of
/// time units moves the instant; otherwise the civil datetime moves by the
/// calendar units, the database places it in the zone, and the time units
/// move that instant; the offset shown is the one the database puts in
/// force at `t2`.
pub open spec fn named_span_moved(
    t: int,
    dt: ((int, int, int), (int, int, int, int)),
    name: Seq<char>,
    f: Seq<int>,
    t2: int,
    o2: int,
) -> bool {
    &&& jiff_zone_offset(name, t2, o2)
    &&& if calendar_free(f) {
        t2 == t + span_time_nanos(f)
    } else {
        match jiff_datetime_plus_span(dt, calendar_part(f)) {
            None => false,
            Some(m) => exists|t1: int, o1: int| #[trigger] jiff_zone_placement(m, name, t1, o1) && t2 == t1
                + span_time_nanos(f),
        }
    }
}

/// Whether a span `f` added to a zoned datetime (instant `t`, civil
/// datetime `dt`) in the database zone named `name` lands, whatever answers
/// the database gives: a span of time units moves the instant into range,
/// where the zone has an offset; otherwise the calendar units move the
/// civil datetime, the database can place it in the zone, and every
/// placement it may give, moved by the time units, is in range where the
/// zone has an offset.
pub open spec fn named_span_lands(
    t: int,
    dt: ((int, int, int), (int, int, int, int)),
    name: Seq<char>,
    f: Seq<int>,
) -> bool {
    if calendar_free(f) {
        ts_range(t + span_time_nanos(f)) && exists|o: int| #[trigger] jiff_zone_offset(name, t + span_time_nanos(f), o)
    } else {
        match jiff_datetime_plus_span(dt, calendar_part(f)) {
            None => false,
            Some(m) => zone_places(m, name) && forall|t1: int, o1: int| #[trigger] jiff_zone_placement(m, name, t1, o1)
                ==> ts_range(t1 + span_time_nanos(f)) && exists|o2: int| #[trigger] jiff_zone_offset(name, t1
                + span_time_nanos(f), o2),
        }
    }
}

impl RyZoned {
    /// The instant placed back in this datetime's zone.
    fn rezone(&self, ts: &RyTimestamp) -> (r: Result<RyZoned, ZonedError>)
        ensures
            !(self.time_zone() is Named) ==> r is Ok,
            zone_answers_at(self.time_zone(), ts@) ==> r is Ok,
            r matches Ok(z) ==> z@.0 == ts@ && z.time_zone() == self.time_zone() && zone_offset_fits(
                self.time_zone(), z@.1) && civil_nanos(z@.2) == civil_at(ts@, z@.1),
            r matches Ok(z) ==> (match self.time_zone() {
                RyTimeZone::Named(n) => jiff_zone_offset(n@, ts@, z@.1),
                _ => true,
            }),
    {
        RyZoned::from_parts(ts, &self.time_zone())
    }

    /// This zoned datetime moved by an exact duration (`checked_add`): the
    /// instant moves and the zone stays.
    pub fn checked_add_duration(&self, d: &RySignedDuration) -> (r: Result<RyZoned, ZonedError>)
        ensures
            !ts_range(self@.0 + d@) ==> r == Err::<RyZoned, ZonedError>(ZonedError::OutOfRange),
            ts_range(self@.0 + d@) && !(self.time_zone() is Named) ==> r is Ok,
            ts_range(self@.0 + d@) && zone_answers_at(self.time_zone(), self@.0 + d@) ==> r is Ok,
            r matches Ok(z) ==> z@.0 == self@.0 + d@ && z.time_zone() == self.time_zone()
                && civil_nanos(z@.2) == civil_at(z@.0, z@.1),
            r matches Ok(z) ==> (match self.time_zone() {
                RyTimeZone::Named(n) => jiff_zone_offset(n@, z@.0, z@.1),
                _ => true,
            }),
    {
        match self.timestamp().checked_add(d) {
            Ok(ts) => self.rezone(&ts),
            Err(_) => Err(ZonedError::OutOfRange),
        }
    }

    /// This zoned datetime moved back by an exact duration (`checked_sub`);
    /// fails when the duration has no negation.
    pub fn checked_sub_duration(&self, d: &RySignedDuration) -> (r: Result<RyZoned, ZonedError>)
        ensures
            !(sd_range(-d@) && ts_range(self@.0 - d@)) ==> r == Err::<RyZoned, ZonedError>(ZonedError::OutOfRange),
            sd_range(-d@) && ts_range(self@.0 - d@) && !(self.time_zone() is Named) ==> r is Ok,
            sd_range(-d@) && ts_range(self@.0 - d@) && zone_answers_at(self.time_zone(), self@.0 - d@) ==> r is Ok,
            r matches Ok(z) ==> z@.0 == self@.0 - d@ && z.time_zone() == self.time_zone()
                && civil_nanos(z@.2) == civil_at(z@.0, z@.1),
            r matches Ok(z) ==> (match self.time_zone() {
                RyTimeZone::Named(n) => jiff_zone_offset(n@, z@.0, z@.1),
                _ => true,
            }),
    {
        match d.neg() {
            Ok(m) => self.checked_add_duration(&m),
            Err(_) => Err(ZonedError::OutOfRange),
        }
    }

    /// This zoned datetime moved by a span (`checked_add`): a span of time
    /// units moves the instant; calendar units move the civil datetime in
    /// the zone, which is then placed back in the zone before the time
    /// units move the instant.
    pub fn checked_add_span(&self, s: &RySpan) -> (r: Result<RyZoned, ZonedError>)
        ensures
            !(self.time_zone() is Named) ==> (r is Ok <==> zoned_span_target(self@.0, self@.2, self.time_zone(), s@)
                is Some),
            r matches Ok(z) ==> (!(self.time_zone() is Named) ==> zoned_span_target(self@.0, self@.2,
                self.time_zone(), s@) == Some(z@.0)),
            r matches Ok(z) ==> z.time_zone() == self.time_zone() && civil_nanos(z@.2) == civil_at(z@.0, z@.1),
            calendar_free(s@) ==> (r matches Ok(z) ==> z@.0 == self@.0 + span_time_nanos(s@)),
            r matches Ok(z) ==> (match self.time_zone() {
                RyTimeZone::Named(n) => named_span_moved(self@.0, self@.2, n@, s@, z@.0, z@.1),
                _ => true,
            }),
            (self.time_zone() matches RyTimeZone::Named(n) && named_span_lands(self@.0, self@.2, n@, s@)) ==> r is Ok,
    {
        let tz = self.time_zone();
        let (cal, time) = s.split_calendar();
        if cal.is_zero() {
            assert(calendar_free(s@)) by {
                assert(cal@[0] == 0 && cal@[1] == 0 && cal@[2] == 0 && cal@[3] == 0);
            }
            return match self.timestamp().checked_add_span(s) {
                Ok(ts) => self.rezone(&ts),
                Err(_) => Err(ZonedError::OutOfRange),
            };
        }
        assert(!calendar_free(s@)) by {
            if calendar_free(s@) {
                assert(cal@ =~= seq![0int, 0, 0, 0, 0, 0, 0, 0, 0, 0]);
                assert forall|i: int| 0 <= i < 10 implies #[trigger] cal@[i] == 0 by {}
            }
        }
        let moved = match self.datetime().checked_add_span(&cal) {
            Ok(m) => m,
            Err(_) => return Err(ZonedError::OutOfRange),
        };
        let placed = match RyZoned::from_civil(&moved, &tz) {
            Ok(z) => z,
            Err(e) => return Err(e),
        };
        assert(span_time_nanos(time@) == span_time_nanos(s@));
        assert(calendar_free(time@));
        let r = match placed.timestamp().checked_add_span(&time) {
            Ok(ts) => self.rezone(&ts),
            Err(_) => Err(ZonedError::OutOfRange),
        };
        proof {
            match self.time_zone() {
                RyTimeZone::Named(n) => {
                    if r is Ok {
                        let z = r->Ok_0;
                        assert(jiff_zone_placement(moved@, n@, placed@.0, placed@.1));
                        assert(named_span_moved(self@.0, self@.2, n@, s@, z@.0, z@.1));
                    }
                },
                _ => {},
            }
        }
        r
    }

    /// This zoned datetime moved back by a span (`checked_sub`): the
    /// negated span added.
    pub fn checked_sub_span(&self, s: &RySpan) -> (r: Result<RyZoned, ZonedError>)
        ensures
            !(self.time_zone() is Named) ==> (r is Ok <==> zoned_span_target(self@.0, self@.2, self.time_zone(),
                negated(s@)) is Some),
            r matches Ok(z) ==> (!(self.time_zone() is Named) ==> zoned_span_target(self@.0, self@.2,
                self.time_zone(), negated(s@)) == Some(z@.0)),
            r matches Ok(z) ==> z.time_zone() == self.time_zone() && civil_nanos(z@.2) == civil_at(z@.0, z@.1),
            r matches Ok(z) ==> (match self.time_zone() {
                RyTimeZone::Named(n) => named_span_moved(self@.0, self@.2, n@, negated(s@), z@.0, z@.1),
                _ => true,
            }),
            (self.time_zone() matches RyTimeZone::Named(n) && named_span_lands(self@.0, self@.2, n@, negated(s@)))
                ==> r is Ok,
    {
        let n = s.negate();
        self.checked_add_span(&n)
    }

    /// The exact time from `other` to this zoned datetime
    /// (`duration_since`).
    pub fn duration_since(&self, other: &RyZoned) -> (r: RySignedDuration)
        ensures
            r@ == self@.0 - other@.0,
    {
        let a = self.timestamp().as_nanosecond();
        let b = other.timestamp().as_nanosecond();
        RySignedDuration::from_total(a - b)
    }

    /// The exact time from this zoned datetime to `other`
    /// (`duration_until`).
    pub fn duration_until(&self, other: &RyZoned) -> (r: RySignedDuration)
        ensures
            r@ == other@.0 - self@.0,
    {
        other.duration_since(self)
    }

    /// The civil datetime placed in this datetime's zone.
    fn in_own_zone(&self, dt: &RyDateTime) -> (r: Result<RyZoned, ZonedError>)
        ensures
            !(self.time_zone() is Named) ==> (r is Ok <==> ts_range(civil_nanos(dt@) - fixed_offset_of(
                self.time_zone()) * 1_000_000_000)),
            r matches Ok(z) ==> (!(self.time_zone() is Named) ==> z@.2 == dt@),
            r matches Ok(z) ==> z.time_zone() == self.time_zone() && civil_nanos(z@.2) == civil_at(z@.0, z@.1),
            r matches Ok(z) ==> (match self.time_zone() {
                RyTimeZone::Named(n) => jiff_zone_placement(dt@, n@, z@.0, z@.1),
                _ => true,
            }),
            (self.time_zone() matches RyTimeZone::Named(n) && zone_places(dt@, n@)) ==> r is Ok,
    {
        RyZoned::from_civil(dt, &self.time_zone())
    }

    /// Midnight of this datetime's civil day in its zone (`start_of_day`).
    pub fn start_of_day(&self) -> (r: Result<RyZoned, ZonedError>)
        ensures
            !(self.time_zone() is Named) ==> (r is Ok <==> ts_range(civil_nanos((self@.2.0, (0int, 0int, 0int, 0int)))
                - fixed_offset_of(self.time_zone()) * 1_000_000_000)),
            r matches Ok(z) ==> (!(self.time_zone() is Named) ==> z@.2 == (self@.2.0, (0int, 0int, 0int, 0int))),
            r matches Ok(z) ==> z.time_zone() == self.time_zone(),
            r matches Ok(z) ==> (match self.time_zone() {
                RyTimeZone::Named(n) => jiff_zone_placement((self@.2.0, (0int, 0int, 0int, 0int)), n@, z@.0, z@.1),
                _ => true,
            }),
            (self.time_zone() matches RyTimeZone::Named(n) && zone_places((self@.2.0, (0int, 0int, 0int, 0int)), n@)) ==> r is Ok,
    {
        self.in_own_zone(&self.datetime().start_of_day())
    }

    /// The same time of day on the next civil day, in the zone
    /// (`tomorrow`).
    pub fn tomorrow(&self) -> (r: Result<RyZoned, ZonedError>)
        ensures
            r matches Ok(z) ==> (!(self.time_zone() is Named) ==> z@.2 == (next_date(self@.2.0.0, self@.2.0.1,
                self@.2.0.2), self@.2.1)),
            r matches Ok(z) ==> z.time_zone() == self.time_zone(),
            self@.2.0 == (9999int, 12int, 31int) ==> r is Err,
            !(self.time_zone() is Named) && self@.2.0 != (9999int, 12int, 31int) ==> (r is Ok <==> ts_range(
                civil_nanos((next_date(self@.2.0.0, self@.2.0.1, self@.2.0.2), self@.2.1)) - fixed_offset_of(self.time_zone()) * 1_000_000_000)),
            r matches Ok(z) ==> (match self.time_zone() {
                RyTimeZone::Named(n) => jiff_zone_placement((next_date(self@.2.0.0, self@.2.0.1, self@.2.0.2), self@.2.1), n@, z@.0, z@.1),
                _ => true,
            }),
            self@.2.0 != (9999int, 12int, 31int) ==> (self.time_zone() matches RyTimeZone::Named(n) && zone_places((
                next_date(self@.2.0.0, self@.2.0.1, self@.2.0.2), self@.2.1), n@)) ==> r is Ok,
    {
        match self.datetime().tomorrow() {
            Ok(dt) => self.in_own_zone(&dt),
            Err(_) => Err(ZonedError::OutOfRange),
        }
    }

    /// The same time of day on the previous civil day, in the zone
    /// (`yesterday`).
    pub fn yesterday(&self) -> (r: Result<RyZoned, ZonedError>)
        ensures
            r matches Ok(z) ==> (!(self.time_zone() is Named) ==> z@.2 == (prev_date(self@.2.0.0, self@.2.0.1,
                self@.2.0.2), self@.2.1)),
            r matches Ok(z) ==> z.time_zone() == self.time_zone(),
            self@.2.0 == (-9999int, 1int, 1int) ==> r is Err,
            !(self.time_zone() is Named) && self@.2.0 != (-9999int, 1int, 1int) ==> (r is Ok <==> ts_range(
                civil_nanos((prev_date(self@.2.0.0, self@.2.0.1, self@.2.0.2), self@.2.1)) - fixed_offset_of(self.time_zone()) * 1_000_000_000)),
            r matches Ok(z) ==> (match self.time_zone() {
                RyTimeZone::Named(n) => jiff_zone_placement((prev_date(self@.2.0.0, self@.2.0.1, self@.2.0.2), self@.2.1), n@, z@.0, z@.1),
                _ => true,
            }),
            self@.2.0 != (-9999int, 1int, 1int) ==> (self.time_zone() matches RyTimeZone::Named(n) && zone_places((
                prev_date(self@.2.0.0, self@.2.0.1, self@.2.0.2), self@.2.1), n@)) ==> r is Ok,
    {
        match self.datetime().yesterday() {
            Ok(dt) => self.in_own_zone(&dt),
            Err(_) => Err(ZonedError::OutOfRange),
        }
    }

    /// The same time of day on the first day of the month, in the zone
    /// (`first_of_month`).
    pub fn first_of_month(&self) -> (r: Result<RyZoned, ZonedError>)
        ensures
            r matches Ok(z) ==> (!(self.time_zone() is Named) ==> z@.2 == ((self@.2.0.0, self@.2.0.1, 1int),
                self@.2.1)),
            !(self.time_zone() is Named) ==> (r is Ok <==> ts_range(civil_nanos(((self@.2.0.0, self@.2.0.1, 1int), self@.2.1)) - fixed_offset_of(self.time_zone()) * 1_000_000_000)),
            r matches Ok(z) ==> z.time_zone() == self.time_zone(),
            r matches Ok(z) ==> (match self.time_zone() {
                RyTimeZone::Named(n) => jiff_zone_placement(((self@.2.0.0, self@.2.0.1, 1int), self@.2.1), n@, z@.0, z@.1),
                _ => true,
            }),
            (self.time_zone() matches RyTimeZone::Named(n) && zone_places(((self@.2.0.0, self@.2.0.1, 1int), self@.2.1), n@)) ==> r is Ok,
    {
        self.in_own_zone(&self.datetime().first_of_month())
    }

    /// The same time of day on the last day of the month, in the zone
    /// (`last_of_month`).
    pub fn last_of_month(&self) -> (r: Result<RyZoned, ZonedError>)
        ensures
            r matches Ok(z) ==> (!(self.time_zone() is Named) ==> z@.2 == ((self@.2.0.0, self@.2.0.1,
                days_in_month(self@.2.0.0, self@.2.0.1)), self@.2.1)),
            !(self.time_zone() is Named) ==> (r is Ok <==> ts_range(civil_nanos(((self@.2.0.0, self@.2.0.1, days_in_month(self@.2.0.0, self@.2.0.1)), self@.2.1)) - fixed_offset_of(self.time_zone()) * 1_000_000_000)),
            r matches Ok(z) ==> z.time_zone() == self.time_zone(),
            r matches Ok(z) ==> (match self.time_zone() {
                RyTimeZone::Named(n) => jiff_zone_placement(((self@.2.0.0, self@.2.0.1, days_in_month(self@.2.0.0, self@.2.0.1)), self@.2.1), n@, z@.0, z@.1),
                _ => true,
            }),
            (self.time_zone() matches RyTimeZone::Named(n) && zone_places(((self@.2.0.0, self@.2.0.1, days_in_month(self@.2.0.0, self@.2.0.1)), self@.2.1), n@)) ==> r is Ok,
    {
        self.in_own_zone(&self.datetime().last_of_month())
    }

    /// The same time of day on January 1, in the zone (`first_of_year`).
    pub fn first_of_year(&self) -> (r: Result<RyZoned, ZonedError>)
        ensures
            r matches Ok(z) ==> (!(self.time_zone() is Named) ==> z@.2 == ((self@.2.0.0, 1int, 1int), self@.2.1)),
            !(self.time_zone() is Named) ==> (r is Ok <==> ts_range(civil_nanos(((self@.2.0.0, 1int, 1int), self@.2.1)) - fixed_offset_of(self.time_zone()) * 1_000_000_000)),
            r matches Ok(z) ==> z.time_zone() == self.time_zone(),
            r matches Ok(z) ==> (match self.time_zone() {
                RyTimeZone::Named(n) => jiff_zone_placement(((self@.2.0.0, 1int, 1int), self@.2.1), n@, z@.0, z@.1),
                _ => true,
            }),
            (self.time_zone() matches RyTimeZone::Named(n) && zone_places(((self@.2.0.0, 1int, 1int), self@.2.1), n@)) ==> r is Ok,
    {
        self.in_own_zone(&self.datetime().first_of_year())
    }

    /// The same time of day on December 31, in the zone (`last_of_year`).
    pub fn last_of_year(&self) -> (r: Result<RyZoned, ZonedError>)
        ensures
            r matches Ok(z) ==> (!(self.time_zone() is Named) ==> z@.2 == ((self@.2.0.0, 12int, 31int), self@.2.1)),
            !(self.time_zone() is Named) ==> (r is Ok <==> ts_range(civil_nanos(((self@.2.0.0, 12int, 31int), self@.2.1)) - fixed_offset_of(self.time_zone()) * 1_000_000_000)),
            r matches Ok(z) ==> z.time_zone() == self.time_zone(),
            r matches Ok(z) ==> (match self.time_zone() {
                RyTimeZone::Named(n) => jiff_zone_placement(((self@.2.0.0, 12int, 31int), self@.2.1), n@, z@.0, z@.1),
                _ => true,
            }),
            (self.time_zone() matches RyTimeZone::Named(n) && zone_places(((self@.2.0.0, 12int, 31int), self@.2.1), n@)) ==> r is Ok,
    {
        self.in_own_zone(&self.datetime().last_of_year())
    }

    /// This zoned datetime moved by a span, clamped to the supported
    /// instants (`saturating_add`): on overflow the earliest instant for a
    /// negative span, the latest otherwise, in the same zone.
    pub fn saturating_add_span(&self, s: &RySpan) -> (r: Result<RyZoned, ZonedError>)
        ensures
            !(self.time_zone() is Named) ==> r is Ok,
            r matches Ok(z) ==> (!(self.time_zone() is Named) ==> z@.0 == match zoned_span_target(self@.0, self@.2,
                self.time_zone(), s@) {
                Some(t) => t,
                None => if any_negative(s@) {
                    ts_min_second() * 1_000_000_000
                } else {
                    ts_max_second() * 1_000_000_000 + 999_999_999
                },
            }),
            r matches Ok(z) ==> z.time_zone() == self.time_zone(),
            (self.time_zone() matches RyTimeZone::Named(n) && named_span_lands(self@.0, self@.2, n@, s@)) ==> r is Ok,
    {
        match self.checked_add_span(s) {
            Ok(z) => Ok(z),
            Err(_) => {
                let ts = if s.is_negative() { RyTimestamp::MIN() } else { RyTimestamp::MAX() };
                self.rezone(&ts)
            },
        }
    }

    /// This zoned datetime moved back by a span, clamped to the supported
    /// instants (`saturating_sub`): the negated span added.
    pub fn saturating_sub_span(&self, s: &RySpan) -> (r: Result<RyZoned, ZonedError>)
        ensures
            !(self.time_zone() is Named) ==> r is Ok,
            r matches Ok(z) ==> (!(self.time_zone() is Named) ==> z@.0 == match zoned_span_target(self@.0, self@.2,
                self.time_zone(), negated(s@)) {
                Some(t) => t,
                None => if any_negative(negated(s@)) {
                    ts_min_second() * 1_000_000_000
                } else {
                    ts_max_second() * 1_000_000_000 + 999_999_999
                },
            }),
            r matches Ok(z) ==> z.time_zone() == self.time_zone(),
            (self.time_zone() matches RyTimeZone::Named(n) && named_span_lands(self@.0, self@.2, n@, negated(s@)))
                ==> r is Ok,
    {
        let n = s.negate();
        self.saturating_add_span(&n)
    }

    /// This zoned datetime moved by a duration, clamped to the supported
    /// instants (`saturating_add`).
    pub fn saturating_add_duration(&self, d: &RySignedDuration) -> (r: Result<RyZoned, ZonedError>)
        ensures
            !(self.time_zone() is Named) ==> r is Ok,
            r matches Ok(z) ==> z@.0 == (if ts_range(self@.0 + d@) {
                self@.0 + d@
            } else if d@ < 0 {
                ts_min_second() * 1_000_000_000
            } else {
                ts_max_second() * 1_000_000_000 + 999_999_999
            }),
            r matches Ok(z) ==> z.time_zone() == self.time_zone(),
            zone_answers_at(self.time_zone(), if ts_range(self@.0 + d@) {
                self@.0 + d@
            } else if d@ < 0 {
                ts_min_second() * 1_000_000_000
            } else {
                ts_max_second() * 1_000_000_000 + 999_999_999
            }) ==> r is Ok,
    {
        let ts = self.timestamp().saturating_add_duration(d);
        self.rezone(&ts)
    }

    /// This zoned datetime moved back by a duration, clamped to the
    /// supported instants (`saturating_sub`); a duration without a negation
    /// gives the earliest instant.
    pub fn saturating_sub_duration(&self, d: &RySignedDuration) -> (r: Result<RyZoned, ZonedError>)
        ensures
            !(self.time_zone() is Named) ==> r is Ok,
            r matches Ok(z) ==> z@.0 == (if !sd_range(-d@) {
                ts_min_second() * 1_000_000_000
            } else if ts_range(self@.0 - d@) {
                self@.0 - d@
            } else if -d@ < 0 {
                ts_min_second() * 1_000_000_000
            } else {
                ts_max_second() * 1_000_000_000 + 999_999_999
            }),
            r matches Ok(z) ==> z.time_zone() == self.time_zone(),
            zone_answers_at(self.time_zone(), if !sd_range(-d@) {
                ts_min_second() * 1_000_000_000
            } else if ts_range(self@.0 - d@) {
                self@.0 - d@
            } else if -d@ < 0 {
                ts_min_second() * 1_000_000_000
            } else {
                ts_max_second() * 1_000_000_000 + 999_999_999
            }) ==> r is Ok,
    {
        let ts = self.timestamp().saturating_sub_duration(d);
        self.rezone(&ts)
    }

    /// A civil datetime resolved in this datetime's zone with an offset, a
    /// conflict strategy and a disambiguation (`jiff`'s
    /// `OffsetConflict::resolve` then `disambiguate`).
    fn resolve_in_zone(
        &self,
        dt: &RyDateTime,
        o: &RyOffset,
        c: JiffTzOffsetConflict,
        d: JiffTzDisambiguation,
    ) -> (r: Result<RyZoned, ZonedError>)
        ensures
            !(self.time_zone() is Named) ==> (r is Ok <==> (fixed_zone_resolve(civil_nanos(dt@), o@, fixed_offset_of(
                self.time_zone()), c) matches Some(t) && ts_range(t))),
            r matches Ok(z) ==> (!(self.time_zone() is Named) ==> fixed_zone_resolve(civil_nanos(dt@), o@,
                fixed_offset_of(self.time_zone()), c) == Some(z@.0)),
            r matches Ok(z) ==> z.time_zone() == self.time_zone() && civil_nanos(z@.2) == civil_at(z@.0, z@.1),
            r matches Ok(z) ==> (match self.time_zone() {
                RyTimeZone::Named(n) => jiff_named_resolution(dt@, n@, o@, c, d, z@.0, z@.1),
                _ => true,
            }),
            r matches Err(e) ==> e != ZonedError::BadDate,
            (self.time_zone() matches RyTimeZone::Named(n) && zone_resolves(dt@, n@, o@, c, d)) ==> r is Ok,
    {
        let tz = self.time_zone();
        match &tz {
            RyTimeZone::Named(name) => {
                match jiff_named_resolve(dt.parts(), name.as_str(), o.seconds(), c, d) {
                    Some((s2, n2, off2)) => RyZoned::at_instant_offset(s2, n2, off2, self.time_zone()),
                    None => Err(ZonedError::NotFound),
                }
            },
            _ => {
                let f: i32 = match &tz {
                    RyTimeZone::Fixed(x) => x.seconds(),
                    _ => 0,
                };
                let civil = dt.civil_nanosecond();
                let t = match c {
                    JiffTzOffsetConflict::AlwaysOffset => civil - o.seconds() as i128 * 1_000_000_000,
                    JiffTzOffsetConflict::Reject => {
                        if o.seconds() != f {
                            return Err(ZonedError::OutOfRange);
                        }
                        civil - f as i128 * 1_000_000_000
                    },
                    _ => civil - f as i128 * 1_000_000_000,
                };
                match RyTimestamp::from_nanosecond(t) {
                    Ok(ts) => self.rezone(&ts),
                    Err(_) => Err(ZonedError::OutOfRange),
                }
            },
        }
    }

    /// What `replace` hands to the zone's resolution besides the civil
    /// datetime: the given offset, else the current one; the given conflict
    /// strategy, else preferring the offset; the given disambiguation, else
    /// compatible.
    pub fn replace_request(
        &self,
        offset: Option<RyOffset>,
        offset_conflict: Option<JiffTzOffsetConflict>,
        disambiguation: Option<JiffTzDisambiguation>,
    ) -> (r: (RyOffset, JiffTzOffsetConflict, JiffTzDisambiguation))
        ensures
            r.0@ == (match offset { Some(x) => x@, None => self@.1 }),
            r.1 == (match offset_conflict { Some(x) => x, None => JiffTzOffsetConflict::PreferOffset }),
            r.2 == (match disambiguation { Some(x) => x, None => JiffTzDisambiguation::Compatible }),
    {
        let o = match offset {
            Some(x) => x,
            None => self.offset(),
        };
        let c = match offset_conflict {
            Some(x) => x,
            None => JiffTzOffsetConflict::PreferOffset,
        };
        let d = match disambiguation {
            Some(x) => x,
            None => JiffTzDisambiguation::Compatible,
        };
        (o, c, d)
    }

    /// A copy with parts replaced (`replace`), as `jiff`'s `ZonedWith`
    /// builder does: the civil datetime's parts are replaced as
    /// `DateTime.replace` does, then the result is resolved in the same
    /// zone with an offset (the given one, else the current one), a
    /// conflict strategy (default: prefer the offset) and a disambiguation
    /// (default: compatible). In a zone without a database the only valid
    /// offset is the zone's own.
    #[verifier::spinoff_prover]
    #[verifier::rlimit(50)]
    pub fn replace(
        &self,
        date: Option<RyDate>,
        time: Option<RyTime>,
        year: Option<i16>,
        era_year: Option<(i16, JiffEra)>,
        month: Option<i8>,
        day: Option<i8>,
        day_of_year: Option<i16>,
        day_of_year_no_leap: Option<i16>,
        hour: Option<i8>,
        minute: Option<i8>,
        second: Option<i8>,
        millisecond: Option<i16>,
        microsecond: Option<i16>,
        nanosecond: Option<i16>,
        subsec_nanosecond: Option<i32>,
        offset: Option<RyOffset>,
        offset_conflict: Option<JiffTzOffsetConflict>,
        disambiguation: Option<JiffTzDisambiguation>,
    ) -> (r: Result<RyZoned, ZonedError>)
        ensures
            ({
                let bd = match date {
                    Some(d) => d@,
                    None => self@.2.0,
                };
                let bt = match time {
                    Some(t) => t@,
                    None => self@.2.1,
                };
                let o = match offset {
                    Some(x) => x@,
                    None => self@.1,
                };
                let c = match offset_conflict {
                    Some(x) => x,
                    None => JiffTzOffsetConflict::PreferOffset,
                };
                let d = match disambiguation {
                    Some(x) => x,
                    None => JiffTzDisambiguation::Compatible,
                };
                let f = fixed_offset_of(self.time_zone());
                &&& (r == Err::<RyZoned, ZonedError>(ZonedError::BadDate) <==> !(date_replace_ok(bd.0, bd.1, bd.2,
                    year, era_year, month, day, day_of_year, day_of_year_no_leap) && time_with_ok(bt, hour, minute,
                    second, millisecond, microsecond, nanosecond, subsec_nanosecond)))
                &&& (r matches Ok(z) ==> (match self.time_zone() {
                    RyTimeZone::Named(n) => replaced_and_named_resolved(z@.0, z@.1, bd, bt, (year, era_year, month,
                        day, day_of_year, day_of_year_no_leap), (hour, minute, second, millisecond, microsecond,
                        nanosecond, subsec_nanosecond), n@, o, c, d),
                    _ => true,
                }))
                &&& (r matches Ok(z) ==> z.time_zone() == self.time_zone() && civil_nanos(z@.2) == civil_at(z@.0,
                    z@.1))
                &&& (!(self.time_zone() is Named) ==> (r is Ok <==> date_replace_ok(bd.0, bd.1, bd.2, year, era_year,
                    month, day, day_of_year, day_of_year_no_leap) && time_with_ok(bt, hour, minute, second,
                    millisecond, microsecond, nanosecond, subsec_nanosecond) && replaced_resolvable(bd, bt, (year,
                    era_year, month, day, day_of_year, day_of_year_no_leap), (hour, minute, second, millisecond,
                    microsecond, nanosecond, subsec_nanosecond), o, f, c)))
                &&& date_replace_ok(bd.0, bd.1, bd.2, year, era_year, month, day, day_of_year, day_of_year_no_leap)
                    && time_with_ok(bt, hour, minute, second, millisecond, microsecond, nanosecond, subsec_nanosecond)
                    ==> (self.time_zone() matches RyTimeZone::Named(n) && replaced_named_resolvable(bd, bt, (year,
                    era_year, month, day, day_of_year, day_of_year_no_leap), (hour, minute, second, millisecond,
                    microsecond, nanosecond, subsec_nanosecond), n@, o, c, d)) ==> r is Ok
                &&& (r matches Ok(z) ==> !(self.time_zone() is Named) ==> replaced_and_resolved(z@.0, bd, bt,
                    (year, era_year, month, day, day_of_year, day_of_year_no_leap), (hour, minute, second, millisecond,
                    microsecond, nanosecond, subsec_nanosecond), o, f, c))
            }),
    {
        let dt = match self.datetime().replace(None, date, time, year, era_year, month, day, day_of_year,
            day_of_year_no_leap, hour, minute, second, millisecond, microsecond, nanosecond, subsec_nanosecond) {
            Ok(v) => v,
            Err(_) => return Err(ZonedError::BadDate),
        };
        let (o, c, d) = self.replace_request(offset, offset_conflict, disambiguation);
        let r = self.resolve_in_zone(&dt, &o, c, d);
        proof {
            let bd = match date {
                Some(d) => d@,
                None => self@.2.0,
            };
            let bt = match time {
                Some(t) => t@,
                None => self@.2.1,
            };
            let dp = (year, era_year, month, day, day_of_year, day_of_year_no_leap);
            let tp = (hour, minute, second, millisecond, microsecond, nanosecond, subsec_nanosecond);
            let f = fixed_offset_of(self.time_zone());
            // The replaced datetime is the one computed here, and no other.
            assert(is_replaced_datetime(dt@, bd, bt, dp.0, dp.1, dp.2, dp.3, dp.4, dp.5, tp.0, tp.1, tp.2, tp.3,
                tp.4, tp.5, tp.6));
            match self.time_zone() {
                RyTimeZone::Named(n) => {
                    if r is Ok {
                        let z = r->Ok_0;
                        assert(jiff_named_resolution(dt@, n@, o@, c, d, z@.0, z@.1));
                        assert(replaced_and_named_resolved(z@.0, z@.1, bd, bt, dp, tp, n@, o@, c, d));
                    }
                    if replaced_named_resolvable(bd, bt, dp, tp, n@, o@, c, d) {
                        let w = choose|v: ((int, int, int), (int, int, int, int))|
                            is_replaced_datetime(v, bd, bt, dp.0, dp.1, dp.2, dp.3, dp.4, dp.5, tp.0, tp.1, tp.2,
                                tp.3, tp.4, tp.5, tp.6) && #[trigger] zone_resolves(v, n@, o@, c, d);
                        lemma_date_replace_result_unique(w.0, dt@.0, bd.0, bd.1, bd.2, year, era_year, month, day,
                            day_of_year, day_of_year_no_leap);
                        assert(w == dt@);
                    }
                },
                _ => {},
            }
            if !(self.time_zone() is Named) {
                if r is Ok {
                    assert(fixed_zone_resolve(civil_nanos(dt@), o@, f, c) matches Some(t) && ts_range(t));
                    assert(replaced_and_resolved(r->Ok_0@.0, bd, bt, dp, tp, o@, f, c));
                    assert(replaced_resolvable(bd, bt, dp, tp, o@, f, c));
                }
                if replaced_resolvable(bd, bt, dp, tp, o@, f, c) {
                    let w = choose|v: ((int, int, int), (int, int, int, int))|
                        is_replaced_datetime(v, bd, bt, dp.0, dp.1, dp.2, dp.3, dp.4, dp.5, tp.0, tp.1, tp.2, tp.3,
                            tp.4, tp.5, tp.6) && (fixed_zone_resolve(#[trigger] civil_nanos(v), o@, f, c) matches Some(
                            t) && ts_range(t));
                    lemma_date_replace_result_unique(w.0, dt@.0, bd.0, bd.1, bd.2, year, era_year, month, day,
                        day_of_year, day_of_year_no_leap);
                }
            }
        }
        r
    }
}

impl RyZoned {
    /// The `nth` given weekday of the month at the same time of day, in
    /// the zone (`nth_weekday_of_month`): fails where the civil datetime
    /// has no such weekday (as for dates) or cannot be placed in the zone.
    pub fn nth_weekday_of_month(&self, nth: i8, weekday: JiffWeekday) -> (r: Result<RyZoned, ZonedError>)
        ensures
            ({
                let day = nth_weekday_of_month_day(self@.2.0.0, self@.2.0.1, nth as int, weekday_number(weekday));
                let civil_ok = nth != 0 && -5 <= nth <= 5 && 1 <= day <= days_in_month(self@.2.0.0, self@.2.0.1);
                &&& !civil_ok ==> r == Err::<RyZoned, ZonedError>(ZonedError::BadDate)
                &&& civil_ok && !(self.time_zone() is Named) ==> (r is Ok <==> ts_range(civil_nanos(
                    ((self@.2.0.0, self@.2.0.1, day), self@.2.1)) - fixed_offset_of(self.time_zone()) * 1_000_000_000))
                &&& r matches Ok(z) ==> (!(self.time_zone() is Named) ==> z@.2 == ((self@.2.0.0, self@.2.0.1, day),
                    self@.2.1))
                &&& civil_ok ==> (self.time_zone() matches RyTimeZone::Named(n) && zone_places(((self@.2.0.0,
                    self@.2.0.1, day), self@.2.1), n@)) ==> r is Ok
            }),
            r matches Ok(z) ==> z.time_zone() == self.time_zone(),
            r matches Ok(z) ==> (match self.time_zone() {
                RyTimeZone::Named(n) => jiff_zone_placement(((self@.2.0.0, self@.2.0.1, nth_weekday_of_month_day(self@.2.0.0, self@.2.0.1, nth as int, weekday_number(weekday))), self@.2.1), n@, z@.0, z@.1),
                _ => true,
            }),
    {
        match self.datetime().nth_weekday_of_month(nth, weekday) {
            Ok(dt) => self.in_own_zone(&dt),
            Err(_) => Err(ZonedError::BadDate),
        }
    }

    /// The `nth` given weekday after (positive `nth`) or before (negative)
    /// the civil date, at the same time of day, in the zone
    /// (`nth_weekday`): fails where the civil datetime has no such weekday
    /// in range (as for dates) or cannot be placed in the zone.
    pub fn nth_weekday(&self, nth: i32, weekday: JiffWeekday) -> (r: Result<RyZoned, ZonedError>)
        ensures
            ({
                let d = self@.2.0;
                let target = nth_weekday_day_number(epoch_day(d.0, d.1, d.2), weekday_of(d.0, d.1, d.2), nth as int,
                    weekday_number(weekday));
                let civil_ok = nth != 0 && -1_043_497 <= nth <= 1_043_497 && epoch_day_in_range(target);
                &&& !civil_ok ==> r == Err::<RyZoned, ZonedError>(ZonedError::BadDate)
                &&& civil_ok && !(self.time_zone() is Named) ==> (r is Ok <==> ts_range(target * day_nanos()
                    + time_of_day_nanos(self@.2.1) - fixed_offset_of(self.time_zone()) * 1_000_000_000))
                &&& r matches Ok(z) ==> (!(self.time_zone() is Named) ==> epoch_day(z@.2.0.0, z@.2.0.1, z@.2.0.2)
                    == target && z@.2.1 == self@.2.1)
                &&& civil_ok ==> (self.time_zone() matches RyTimeZone::Named(n) && (forall|v: ((int, int, int), (int,
                    int, int, int))| crate::date::date_ok(v.0.0, v.0.1, v.0.2) && v.1 == self@.2.1 && epoch_day(v.0.0,
                    v.0.1, v.0.2) == target ==> #[trigger] zone_places(v, n@))) ==> r is Ok
            }),
            r matches Ok(z) ==> z.time_zone() == self.time_zone(),
            r matches Ok(z) ==> (!(self.time_zone() is Named) ==> weekday_of(z@.2.0.0, z@.2.0.1, z@.2.0.2)
                == weekday_number(weekday)),
            r matches Ok(z) ==> (match self.time_zone() {
                RyTimeZone::Named(n) => (exists|v: ((int, int, int), (int, int, int, int))| #[trigger] jiff_zone_placement(v, n@, z@.0, z@.1) && v.1 == self@.2.1 && epoch_day(v.0.0, v.0.1, v.0.2) == nth_weekday_day_number(epoch_day(self@.2.0.0, self@.2.0.1, self@.2.0.2), weekday_of(self@.2.0.0, self@.2.0.1, self@.2.0.2), nth as int, weekday_number(weekday))),
                _ => true,
            }),
    {
        match self.datetime().nth_weekday(nth, weekday) {
            Ok(dt) => {
                let _ = dt.date().year();
                proof {
                    match self.time_zone() {
                        RyTimeZone::Named(n) => {
                            assert(crate::date::date_ok(dt@.0.0, dt@.0.1, dt@.0.2));
                            assert(dt@ == (dt@.0, dt@.1));
                        },
                        _ => {},
                    }
                }
                self.in_own_zone(&dt)
            },
            Err(_) => Err(ZonedError::BadDate),
        }
    }
}

/// What `jiff`'s `Zoned::round` gives, as an instant in nanoseconds, for an
/// instant in a zone, if it succeeds; stated only for zones that are not
/// database zones.
pub uninterp spec fn jiff_zoned_round(t: int, tz: RyTimeZone, o: RoundOptions) -> Option<int>;

/// Whether `jiff`'s `Zoned::round` with options `o` can answer, for instant
/// `t` in the database zone named `name`, with instant `t2` shown at offset
/// `o2`. The database decides which answer comes; this records the request
/// that an answer is to.
pub uninterp spec fn jiff_named_zoned_round(t: int, name: Seq<char>, o: RoundOptions, t2: int, o2: int) -> bool;

/// Whether `jiff` can round instant `t` in the database zone named `name`
/// with options `o` at all: some instant and offset answer the request.
pub open spec fn zone_rounds(t: int, name: Seq<char>, o: RoundOptions) -> bool {
    exists|t2: int, o2: int| #[trigger] jiff_named_zoned_round(t, name, o, t2, o2)
}

/// Rounds an instant in a zone with `jiff`'s `Zoned::round` and
/// `ZonedRound`: the rounded instant and the offset it is shown at. For a
/// database zone what the database holds is not known here: only that the
/// result is in range and answers this request, and that `None` comes only
/// where `jiff` has no answer (no zone of that name, options it refuses, or
/// a result out of range).
#[verifier::external_body]
fn jiff_round_zoned(second: i64, nanosecond: i32, tz: &RyTimeZone, o: RoundOptions) -> (r: Option<(i64, i32, i32)>)
    requires
        ts_new_ok(second as int, nanosecond as int),
    ensures
        !(*tz is Named) ==> (r is None <==> jiff_zoned_round(second * 1_000_000_000 + nanosecond, *tz, o) is None),
        r matches Some(v) ==> (!(*tz is Named) ==> jiff_zoned_round(second * 1_000_000_000 + nanosecond, *tz, o)
            == Some(v.0 * 1_000_000_000 + v.1)),
        r matches Some(v) ==> ts_new_ok(v.0 as int, v.1 as int) && offset_ok(v.2 as int),
        r matches Some(v) ==> (match *tz {
            RyTimeZone::Named(n) => jiff_named_zoned_round(second * 1_000_000_000 + nanosecond, n@, o, v.0
                * 1_000_000_000 + v.1, v.2 as int),
            _ => v.2 == fixed_offset_of(*tz),
        }),
        r is None ==> (match *tz {
            RyTimeZone::Named(n) => forall|t2: int, o2: int| !#[trigger] jiff_named_zoned_round(second
                * 1_000_000_000 + nanosecond, n@, o, t2, o2),
            _ => true,
        }),
{
    let opts = jiff::ZonedRound::new().smallest(to_jiff_unit(o.smallest))
        .mode(to_jiff_round_mode(o.mode)).increment(o.increment);
    let z = jiff::Timestamp::new(second, nanosecond).unwrap().to_zoned(to_jiff_tz(tz)?).round(opts).ok()?;
    Some((z.timestamp().as_second(), z.timestamp().subsec_nanosecond(), z.offset().seconds()))
}

impl RyZonedDateTimeRound {
    /// Rounds a zoned datetime with these options (`ZonedDateTime._round`,
    /// `round`): the civil datetime is rounded and placed back in the same
    /// zone, as `jiff` does; `None` where `jiff` refuses (Python's
    /// `ValueError`). A database zone's result is whatever `jiff` finds.
    pub fn round(&self, z: &RyZoned) -> (r: Option<RyZoned>)
        ensures
            r matches Some(v) ==> v.time_zone() == z.time_zone(),
            !(z.time_zone() is Named) ==> (r is None <==> jiff_zoned_round(z@.0, z.time_zone(), self.options) is None),
            !(z.time_zone() is Named) ==> (r matches Some(v) ==> jiff_zoned_round(z@.0, z.time_zone(), self.options)
                == Some(v@.0)),
            r matches Some(v) ==> (match z.time_zone() {
                RyTimeZone::Named(n) => jiff_named_zoned_round(z@.0, n@, self.options, v@.0, v@.1),
                _ => true,
            }),
            r matches Some(v) ==> civil_nanos(v@.2) == civil_at(v@.0, v@.1),
            (z.time_zone() matches RyTimeZone::Named(n) && zone_rounds(z@.0, n@, self.options)) ==> r is Some,
    {
        let ts = z.timestamp();
        let tz = z.time_zone();
        let (s, n) = ts.parts();
        match jiff_round_zoned(s, n, &tz, self.options) {
            Some((a, b, o)) => match RyZoned::at_instant_offset(a, b, o, tz) {
                Ok(v) => Some(v),
                Err(_) => None,
            },
            None => None,
        }
    }
}

impl RyZoned {
    /// Rounds the zoned datetime (`round(smallest=None, mode=None,
    /// increment=None)`): missing values take `jiff`'s defaults,
    /// nanoseconds, half-expand and 1.
    pub fn round(&self, smallest: Option<JiffUnit>, mode: Option<JiffRoundMode>, increment: Option<i64>) -> (r: Option<RyZoned>)
        ensures
            ({
                let o = RoundOptions {
                    smallest: match smallest { Some(u) => u, None => JiffUnit::Nanosecond },
                    mode: match mode { Some(m) => m, None => JiffRoundMode::HalfExpand },
                    increment: match increment { Some(i) => i, None => 1 },
                };
                &&& (!(self.time_zone() is Named) ==> (r is None <==> jiff_zoned_round(self@.0, self.time_zone(), o) is None))
                &&& (!(self.time_zone() is Named) ==> (r matches Some(v) ==> jiff_zoned_round(self@.0, self.time_zone(), o)
                    == Some(v@.0)))
            }),
            r matches Some(v) ==> v.time_zone() == self.time_zone(),
            r matches Some(v) ==> (match self.time_zone() {
                RyTimeZone::Named(n) => jiff_named_zoned_round(self@.0, n@, RoundOptions {
                    smallest: match smallest { Some(u) => u, None => JiffUnit::Nanosecond },
                    mode: match mode { Some(m) => m, None => JiffRoundMode::HalfExpand },
                    increment: match increment { Some(i) => i, None => 1 },
                }, v@.0, v@.1),
                _ => true,
            }),
            (self.time_zone() matches RyTimeZone::Named(n) && zone_rounds(self@.0, n@, RoundOptions {
                smallest: match smallest { Some(u) => u, None => JiffUnit::Nanosecond },
                mode: match mode { Some(m) => m, None => JiffRoundMode::HalfExpand },
                increment: match increment { Some(i) => i, None => 1 },
            })) ==> r is Some,
    {
        let inc = match increment { Some(i) => i, None => 1 };
        RyZonedDateTimeRound::py_new(smallest, mode, inc).round(self)
    }
}

} // verus!
