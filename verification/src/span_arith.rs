//! Span arithmetic that needs a reference point: adding, subtracting and
//! comparing spans, and converting them to exact durations, either with
//! days counted as 24 hours or relative to a civil date or datetime.
use vstd::prelude::*;
use crate::compare::ints;
use crate::date::{RyDate, date_ok};
use crate::datetime::{RyDateTime, parts_ok, parts_view};
use crate::signed_duration::{RySignedDuration, sd_normal};
use crate::span::{RySpan, SpanError, span_ok, compare_result};
use crate::signed_duration::lemma_total_parts;
use crate::timestamp::ts_new_ok;
use crate::timezone::{RyTimeZone, to_jiff_tz};
use crate::zoned::RyZoned;
use crate::round::{RoundOptions, to_jiff_unit, to_jiff_round_mode};
use crate::units::{JiffUnit, JiffRoundMode};

verus! {

/// What span arithmetic is measured against: days of 24 hours, or the
/// calendar from a civil date or datetime.
#[derive(Clone, Copy, Debug, PartialEq, Eq, Structural)]
pub enum SpanRelativeTo {
    DaysAre24Hours,
    Date(RyDate),
    DateTime(RyDateTime),
}

/// `jiff`'s span type.
#[verifier::external_type_specification]
#[verifier::external_body]
pub struct ExJiffSpan(jiff::Span);

/// What `jiff`'s `Span::checked_add` gives for two spans and a reference
/// point, if it succeeds.
pub uninterp spec fn jiff_span_sum(a: Seq<int>, b: Seq<int>, rel: SpanRelativeTo) -> Option<Seq<int>>;

/// What `jiff`'s `Span::checked_sub` gives for two spans and a reference
/// point, if it succeeds.
pub uninterp spec fn jiff_span_difference(a: Seq<int>, b: Seq<int>, rel: SpanRelativeTo) -> Option<Seq<int>>;

/// What `jiff`'s `Span::compare` gives for two spans relative to a civil
/// date or datetime (-1, 0 or 1), if it succeeds.
pub uninterp spec fn jiff_span_compare_relative(a: Seq<int>, b: Seq<int>, rel: SpanRelativeTo) -> Option<int>;

/// What `jiff`'s `Span::to_duration` gives for a span and a reference point,
/// in nanoseconds, if it succeeds.
pub uninterp spec fn jiff_span_duration(a: Seq<int>, rel: SpanRelativeTo) -> Option<int>;

/// What `jiff`'s `Span::checked_add` gives for a span and a signed duration
/// (in nanoseconds) and a reference point, if it succeeds.
pub uninterp spec fn jiff_span_sum_duration(a: Seq<int>, d: int, rel: SpanRelativeTo) -> Option<Seq<int>>;

/// What `jiff`'s `Span::checked_sub` gives for a span and a signed duration
/// (in nanoseconds) and a reference point, if it succeeds.
pub uninterp spec fn jiff_span_difference_duration(a: Seq<int>, d: int, rel: SpanRelativeTo) -> Option<Seq<int>>;

/// What `jiff`'s `Span::checked_add` gives for two spans relative to a
/// zoned datetime (an instant in nanoseconds in a zone), if it succeeds;
/// stated only for zones that are not database zones.
pub uninterp spec fn jiff_span_sum_zoned(a: Seq<int>, b: Seq<int>, t: int, tz: RyTimeZone) -> Option<Seq<int>>;

/// What `jiff`'s `Span::checked_sub` gives for two spans relative to a
/// zoned datetime, if it succeeds; stated only for zones that are not
/// database zones.
pub uninterp spec fn jiff_span_difference_zoned(a: Seq<int>, b: Seq<int>, t: int, tz: RyTimeZone) -> Option<Seq<int>>;

/// What `jiff`'s `Span::checked_add` gives for a span and a signed duration
/// (in nanoseconds) relative to a zoned datetime, if it succeeds; stated
/// only for zones that are not database zones.
pub uninterp spec fn jiff_span_sum_duration_zoned(a: Seq<int>, d: int, t: int, tz: RyTimeZone) -> Option<Seq<int>>;

/// What `jiff`'s `Span::checked_sub` gives for a span and a signed duration
/// (in nanoseconds) relative to a zoned datetime, if it succeeds; stated
/// only for zones that are not database zones.
pub uninterp spec fn jiff_span_difference_duration_zoned(a: Seq<int>, d: int, t: int, tz: RyTimeZone) -> Option<Seq<int>>;

/// What `jiff`'s `Span::round` gives for a span with a smallest unit, mode
/// and increment, a largest unit if one is given, and a reference point:
/// none, days of 24 hours, or a civil date or datetime; if it succeeds.
pub uninterp spec fn jiff_span_round(a: Seq<int>, o: RoundOptions, largest: Option<JiffUnit>, rel: Option<SpanRelativeTo>) -> Option<Seq<int>>;

/// What `jiff`'s `Span::round` gives for a span with these options relative
/// to a zoned datetime (an instant in nanoseconds in a zone), if it
/// succeeds; stated only for zones that are not database zones.
pub uninterp spec fn jiff_span_round_zoned(a: Seq<int>, o: RoundOptions, largest: Option<JiffUnit>, t: int, tz: RyTimeZone) -> Option<Seq<int>>;

/// What `jiff`'s `Span::compare` gives for two spans relative to a zoned
/// datetime (-1, 0 or 1), if it succeeds; stated only for zones that are
/// not database zones.
pub uninterp spec fn jiff_span_compare_zoned(a: Seq<int>, b: Seq<int>, t: int, tz: RyTimeZone) -> Option<int>;

/// What `jiff`'s `Span::to_duration` gives for a span relative to a zoned
/// datetime, in nanoseconds, if it succeeds; stated only for zones that
/// are not database zones.
pub uninterp spec fn jiff_span_duration_zoned(a: Seq<int>, t: int, tz: RyTimeZone) -> Option<int>;

/// Whether `jiff`'s `Span::checked_add` of two spans, relative to instant `t` in zone `tz`, can
/// answer as given last. With a database zone the database decides which
/// answer comes; this records the request that an answer is to.
pub uninterp spec fn jiff_span_sum_zoned_answer(a: Seq<int>, b: Seq<int>, t: int, tz: RyTimeZone, s: Seq<int>) -> bool;

/// Whether `jiff`'s `Span::checked_sub` of two spans, relative to instant `t` in zone `tz`, can
/// answer as given last. With a database zone the database decides which
/// answer comes; this records the request that an answer is to.
pub uninterp spec fn jiff_span_difference_zoned_answer(a: Seq<int>, b: Seq<int>, t: int, tz: RyTimeZone, s: Seq<int>) -> bool;

/// Whether `jiff`'s `Span::checked_add` of a span and a signed duration (in nanoseconds), relative to instant `t` in zone `tz`, can
/// answer as given last. With a database zone the database decides which
/// answer comes; this records the request that an answer is to.
pub uninterp spec fn jiff_span_sum_duration_zoned_answer(a: Seq<int>, d: int, t: int, tz: RyTimeZone, s: Seq<int>) -> bool;

/// Whether `jiff`'s `Span::checked_sub` of a span and a signed duration (in nanoseconds), relative to instant `t` in zone `tz`, can
/// answer as given last. With a database zone the database decides which
/// answer comes; this records the request that an answer is to.
pub uninterp spec fn jiff_span_difference_duration_zoned_answer(a: Seq<int>, d: int, t: int, tz: RyTimeZone, s: Seq<int>) -> bool;

/// Whether `jiff`'s `Span::round` of a span with these options, relative to instant `t` in zone `tz`, can
/// answer as given last. With a database zone the database decides which
/// answer comes; this records the request that an answer is to.
pub uninterp spec fn jiff_span_round_zoned_answer(a: Seq<int>, o: RoundOptions, largest: Option<JiffUnit>, t: int, tz: RyTimeZone, s: Seq<int>) -> bool;

/// Whether `jiff`'s `Span::compare` (-1, 0 or 1) of two spans, relative to instant `t` in zone `tz`, can
/// answer as given last. With a database zone the database decides which
/// answer comes; this records the request that an answer is to.
pub uninterp spec fn jiff_span_compare_zoned_answer(a: Seq<int>, b: Seq<int>, t: int, tz: RyTimeZone, c: int) -> bool;

/// Whether `jiff`'s `Span::to_duration` (in nanoseconds) of a span, relative to instant `t` in zone `tz`, can
/// answer as given last. With a database zone the database decides which
/// answer comes; this records the request that an answer is to.
pub uninterp spec fn jiff_span_duration_zoned_answer(a: Seq<int>, t: int, tz: RyTimeZone, d: int) -> bool;

/// The `jiff` span of ten in-range fields of one sign.
#[verifier::external_body]
pub(crate) fn to_jiff_span(f: [i64; 10]) -> jiff::Span
    requires
        span_ok(ints(f@)),
{
    jiff::Span::new().years(f[0]).months(f[1]).weeks(f[2]).days(f[3]).hours(f[4]).minutes(f[5])
        .seconds(f[6]).milliseconds(f[7]).microseconds(f[8]).nanoseconds(f[9])
}

/// The ten signed fields of a `jiff` span. Every `jiff` span keeps each
/// unit within its documented range and all units of one sign.
#[verifier::external_body]
pub(crate) fn from_jiff_span(s: jiff::Span) -> (r: [i64; 10])
    ensures
        span_ok(ints(r@)),
{
    [s.get_years() as i64, s.get_months() as i64, s.get_weeks() as i64, s.get_days() as i64,
        s.get_hours() as i64, s.get_minutes(), s.get_seconds(), s.get_milliseconds(),
        s.get_microseconds(), s.get_nanoseconds()]
}

/// `a + b` with `jiff`'s `Span::checked_add`, days counted as 24 hours.
#[verifier::external_body]
fn jiff_span_add_24h(a: [i64; 10], b: [i64; 10]) -> (r: Option<[i64; 10]>)
    requires
        span_ok(ints(a@)),
        span_ok(ints(b@)),
    ensures
        r is None <==> jiff_span_sum(ints(a@), ints(b@), SpanRelativeTo::DaysAre24Hours) is None,
        r matches Some(v) ==> jiff_span_sum(ints(a@), ints(b@), SpanRelativeTo::DaysAre24Hours) == Some(ints(v@))
            && span_ok(ints(v@)),
{
    let arith = jiff::SpanArithmetic::from(to_jiff_span(b)).days_are_24_hours();
    Some(from_jiff_span(to_jiff_span(a).checked_add(arith).ok()?))
}

/// `a + b` with `jiff`'s `Span::checked_add`, relative to a civil date.
#[verifier::external_body]
fn jiff_span_add_date(a: [i64; 10], b: [i64; 10], p: (i16, i8, i8), d: RyDate) -> (r: Option<[i64; 10]>)
    requires
        span_ok(ints(a@)),
        span_ok(ints(b@)),
        date_ok(p.0 as int, p.1 as int, p.2 as int),
        (p.0 as int, p.1 as int, p.2 as int) == d@,
    ensures
        r is None <==> jiff_span_sum(ints(a@), ints(b@), SpanRelativeTo::Date(d)) is None,
        r matches Some(v) ==> jiff_span_sum(ints(a@), ints(b@), SpanRelativeTo::Date(d)) == Some(ints(v@))
            && span_ok(ints(v@)),
{
    let date = jiff::civil::date(p.0, p.1, p.2);
    Some(from_jiff_span(to_jiff_span(a).checked_add((to_jiff_span(b), date)).ok()?))
}

/// `a + b` with `jiff`'s `Span::checked_add`, relative to a civil datetime.
#[verifier::external_body]
fn jiff_span_add_datetime(a: [i64; 10], b: [i64; 10], p: ((i16, i8, i8), (i8, i8, i8, i32)), dt: RyDateTime) -> (r: Option<[i64; 10]>)
    requires
        span_ok(ints(a@)),
        span_ok(ints(b@)),
        parts_ok(p),
        parts_view(p) == dt@,
    ensures
        r is None <==> jiff_span_sum(ints(a@), ints(b@), SpanRelativeTo::DateTime(dt)) is None,
        r matches Some(v) ==> jiff_span_sum(ints(a@), ints(b@), SpanRelativeTo::DateTime(dt)) == Some(ints(v@))
            && span_ok(ints(v@)),
{
    let ((y, m, d), (h, mi, s, n)) = p;
    let at = jiff::civil::date(y, m, d).at(h, mi, s, n);
    Some(from_jiff_span(to_jiff_span(a).checked_add((to_jiff_span(b), at)).ok()?))
}

/// `a - b` with `jiff`'s `Span::checked_sub`, days counted as 24 hours.
#[verifier::external_body]
fn jiff_span_sub_24h(a: [i64; 10], b: [i64; 10]) -> (r: Option<[i64; 10]>)
    requires
        span_ok(ints(a@)),
        span_ok(ints(b@)),
    ensures
        r is None <==> jiff_span_difference(ints(a@), ints(b@), SpanRelativeTo::DaysAre24Hours) is None,
        r matches Some(v) ==> jiff_span_difference(ints(a@), ints(b@), SpanRelativeTo::DaysAre24Hours)
            == Some(ints(v@)) && span_ok(ints(v@)),
{
    let arith = jiff::SpanArithmetic::from(to_jiff_span(b)).days_are_24_hours();
    Some(from_jiff_span(to_jiff_span(a).checked_sub(arith).ok()?))
}

/// `a - b` with `jiff`'s `Span::checked_sub`, relative to a civil date.
#[verifier::external_body]
fn jiff_span_sub_date(a: [i64; 10], b: [i64; 10], p: (i16, i8, i8), d: RyDate) -> (r: Option<[i64; 10]>)
    requires
        span_ok(ints(a@)),
        span_ok(ints(b@)),
        date_ok(p.0 as int, p.1 as int, p.2 as int),
        (p.0 as int, p.1 as int, p.2 as int) == d@,
    ensures
        r is None <==> jiff_span_difference(ints(a@), ints(b@), SpanRelativeTo::Date(d)) is None,
        r matches Some(v) ==> jiff_span_difference(ints(a@), ints(b@), SpanRelativeTo::Date(d))
            == Some(ints(v@)) && span_ok(ints(v@)),
{
    let date = jiff::civil::date(p.0, p.1, p.2);
    Some(from_jiff_span(to_jiff_span(a).checked_sub((to_jiff_span(b), date)).ok()?))
}

/// `a - b` with `jiff`'s `Span::checked_sub`, relative to a civil datetime.
#[verifier::external_body]
fn jiff_span_sub_datetime(a: [i64; 10], b: [i64; 10], p: ((i16, i8, i8), (i8, i8, i8, i32)), dt: RyDateTime) -> (r: Option<[i64; 10]>)
    requires
        span_ok(ints(a@)),
        span_ok(ints(b@)),
        parts_ok(p),
        parts_view(p) == dt@,
    ensures
        r is None <==> jiff_span_difference(ints(a@), ints(b@), SpanRelativeTo::DateTime(dt)) is None,
        r matches Some(v) ==> jiff_span_difference(ints(a@), ints(b@), SpanRelativeTo::DateTime(dt))
            == Some(ints(v@)) && span_ok(ints(v@)),
{
    let ((y, m, d), (h, mi, s, n)) = p;
    let at = jiff::civil::date(y, m, d).at(h, mi, s, n);
    Some(from_jiff_span(to_jiff_span(a).checked_sub((to_jiff_span(b), at)).ok()?))
}

/// `jiff`'s `Span::compare` of `a` and `b` relative to a civil date: -1,
/// 0 or 1.
#[verifier::external_body]
fn jiff_span_order_date(a: [i64; 10], b: [i64; 10], p: (i16, i8, i8), d: RyDate) -> (r: Option<i8>)
    requires
        span_ok(ints(a@)),
        span_ok(ints(b@)),
        date_ok(p.0 as int, p.1 as int, p.2 as int),
        (p.0 as int, p.1 as int, p.2 as int) == d@,
    ensures
        r is None <==> jiff_span_compare_relative(ints(a@), ints(b@), SpanRelativeTo::Date(d)) is None,
        r matches Some(c) ==> jiff_span_compare_relative(ints(a@), ints(b@), SpanRelativeTo::Date(d))
            == Some(c as int) && -1 <= c <= 1,
{
    let date = jiff::civil::date(p.0, p.1, p.2);
    let o = to_jiff_span(a).compare((&to_jiff_span(b), date)).ok()?;
    Some(if o.is_lt() { -1 } else if o.is_gt() { 1 } else { 0 })
}

/// `jiff`'s `Span::compare` of `a` and `b` relative to a civil datetime:
/// -1, 0 or 1.
#[verifier::external_body]
fn jiff_span_order_datetime(a: [i64; 10], b: [i64; 10], p: ((i16, i8, i8), (i8, i8, i8, i32)), dt: RyDateTime) -> (r: Option<i8>)
    requires
        span_ok(ints(a@)),
        span_ok(ints(b@)),
        parts_ok(p),
        parts_view(p) == dt@,
    ensures
        r is None <==> jiff_span_compare_relative(ints(a@), ints(b@), SpanRelativeTo::DateTime(dt)) is None,
        r matches Some(c) ==> jiff_span_compare_relative(ints(a@), ints(b@), SpanRelativeTo::DateTime(dt))
            == Some(c as int) && -1 <= c <= 1,
{
    let ((y, m, d), (h, mi, s, n)) = p;
    let at = jiff::civil::date(y, m, d).at(h, mi, s, n);
    let o = to_jiff_span(a).compare((&to_jiff_span(b), at)).ok()?;
    Some(if o.is_lt() { -1 } else if o.is_gt() { 1 } else { 0 })
}

/// `jiff`'s `Span::to_duration` with days counted as 24 hours, as seconds
/// and nanoseconds in a signed duration's normal form.
#[verifier::external_body]
fn jiff_span_to_duration_24h(a: [i64; 10]) -> (r: Option<(i64, i32)>)
    requires
        span_ok(ints(a@)),
    ensures
        r is None <==> jiff_span_duration(ints(a@), SpanRelativeTo::DaysAre24Hours) is None,
        r matches Some(v) ==> jiff_span_duration(ints(a@), SpanRelativeTo::DaysAre24Hours)
            == Some(v.0 * 1_000_000_000 + v.1) && sd_normal(v.0 as int, v.1 as int),
{
    let d = to_jiff_span(a).to_duration(jiff::SpanRelativeTo::days_are_24_hours()).ok()?;
    Some((d.as_secs(), d.subsec_nanos()))
}

/// `jiff`'s `Span::to_duration` relative to a civil date.
#[verifier::external_body]
fn jiff_span_to_duration_date(a: [i64; 10], p: (i16, i8, i8), d: RyDate) -> (r: Option<(i64, i32)>)
    requires
        span_ok(ints(a@)),
        date_ok(p.0 as int, p.1 as int, p.2 as int),
        (p.0 as int, p.1 as int, p.2 as int) == d@,
    ensures
        r is None <==> jiff_span_duration(ints(a@), SpanRelativeTo::Date(d)) is None,
        r matches Some(v) ==> jiff_span_duration(ints(a@), SpanRelativeTo::Date(d))
            == Some(v.0 * 1_000_000_000 + v.1) && sd_normal(v.0 as int, v.1 as int),
{
    let date = jiff::civil::date(p.0, p.1, p.2);
    let x = to_jiff_span(a).to_duration(date).ok()?;
    Some((x.as_secs(), x.subsec_nanos()))
}

/// `jiff`'s `Span::to_duration` relative to a civil datetime.
#[verifier::external_body]
fn jiff_span_to_duration_datetime(a: [i64; 10], p: ((i16, i8, i8), (i8, i8, i8, i32)), dt: RyDateTime) -> (r: Option<(i64, i32)>)
    requires
        span_ok(ints(a@)),
        parts_ok(p),
        parts_view(p) == dt@,
    ensures
        r is None <==> jiff_span_duration(ints(a@), SpanRelativeTo::DateTime(dt)) is None,
        r matches Some(v) ==> jiff_span_duration(ints(a@), SpanRelativeTo::DateTime(dt))
            == Some(v.0 * 1_000_000_000 + v.1) && sd_normal(v.0 as int, v.1 as int),
{
    let ((y, m, d), (h, mi, s, n)) = p;
    let x = to_jiff_span(a).to_duration(jiff::civil::date(y, m, d).at(h, mi, s, n)).ok()?;
    Some((x.as_secs(), x.subsec_nanos()))
}

/// `a + d` for a signed duration `d` with `jiff`'s `Span::checked_add`,
/// days counted as 24 hours.
#[verifier::external_body]
fn jiff_span_add_duration_24h(a: [i64; 10], d: (i64, i32)) -> (r: Option<[i64; 10]>)
    requires
        span_ok(ints(a@)),
        sd_normal(d.0 as int, d.1 as int),
    ensures
        r is None <==> jiff_span_sum_duration(ints(a@), d.0 * 1_000_000_000 + d.1, SpanRelativeTo::DaysAre24Hours) is None,
        r matches Some(v) ==> jiff_span_sum_duration(ints(a@), d.0 * 1_000_000_000 + d.1, SpanRelativeTo::DaysAre24Hours) == Some(ints(v@))
            && span_ok(ints(v@)),
{
    let arith = jiff::SpanArithmetic::from(jiff::SignedDuration::new(d.0, d.1)).days_are_24_hours();
    Some(from_jiff_span(to_jiff_span(a).checked_add(arith).ok()?))
}

/// `a + d` for a signed duration `d` with `jiff`'s `Span::checked_add`,
/// relative to a civil date.
#[verifier::external_body]
fn jiff_span_add_duration_date(a: [i64; 10], d: (i64, i32), p: (i16, i8, i8), x: RyDate) -> (r: Option<[i64; 10]>)
    requires
        span_ok(ints(a@)),
        sd_normal(d.0 as int, d.1 as int),
        date_ok(p.0 as int, p.1 as int, p.2 as int),
        (p.0 as int, p.1 as int, p.2 as int) == x@,
    ensures
        r is None <==> jiff_span_sum_duration(ints(a@), d.0 * 1_000_000_000 + d.1, SpanRelativeTo::Date(x)) is None,
        r matches Some(v) ==> jiff_span_sum_duration(ints(a@), d.0 * 1_000_000_000 + d.1, SpanRelativeTo::Date(x)) == Some(ints(v@))
            && span_ok(ints(v@)),
{
    let date = jiff::civil::date(p.0, p.1, p.2);
    Some(from_jiff_span(to_jiff_span(a).checked_add((jiff::SignedDuration::new(d.0, d.1), date)).ok()?))
}

/// `a + d` for a signed duration `d` with `jiff`'s `Span::checked_add`,
/// relative to a civil datetime.
#[verifier::external_body]
fn jiff_span_add_duration_datetime(a: [i64; 10], d: (i64, i32), p: ((i16, i8, i8), (i8, i8, i8, i32)), x: RyDateTime) -> (r: Option<[i64; 10]>)
    requires
        span_ok(ints(a@)),
        sd_normal(d.0 as int, d.1 as int),
        parts_ok(p),
        parts_view(p) == x@,
    ensures
        r is None <==> jiff_span_sum_duration(ints(a@), d.0 * 1_000_000_000 + d.1, SpanRelativeTo::DateTime(x)) is None,
        r matches Some(v) ==> jiff_span_sum_duration(ints(a@), d.0 * 1_000_000_000 + d.1, SpanRelativeTo::DateTime(x)) == Some(ints(v@))
            && span_ok(ints(v@)),
{
    let ((y, m, dd), (h, mi, sc, n)) = p;
    let at = jiff::civil::date(y, m, dd).at(h, mi, sc, n);
    Some(from_jiff_span(to_jiff_span(a).checked_add((jiff::SignedDuration::new(d.0, d.1), at)).ok()?))
}

/// `a - d` for a signed duration `d` with `jiff`'s `Span::checked_sub`,
/// days counted as 24 hours.
#[verifier::external_body]
fn jiff_span_sub_duration_24h(a: [i64; 10], d: (i64, i32)) -> (r: Option<[i64; 10]>)
    requires
        span_ok(ints(a@)),
        sd_normal(d.0 as int, d.1 as int),
    ensures
        r is None <==> jiff_span_difference_duration(ints(a@), d.0 * 1_000_000_000 + d.1, SpanRelativeTo::DaysAre24Hours) is None,
        r matches Some(v) ==> jiff_span_difference_duration(ints(a@), d.0 * 1_000_000_000 + d.1, SpanRelativeTo::DaysAre24Hours) == Some(ints(v@))
            && span_ok(ints(v@)),
{
    let arith = jiff::SpanArithmetic::from(jiff::SignedDuration::new(d.0, d.1)).days_are_24_hours();
    Some(from_jiff_span(to_jiff_span(a).checked_sub(arith).ok()?))
}

/// `a - d` for a signed duration `d` with `jiff`'s `Span::checked_sub`,
/// relative to a civil date.
#[verifier::external_body]
fn jiff_span_sub_duration_date(a: [i64; 10], d: (i64, i32), p: (i16, i8, i8), x: RyDate) -> (r: Option<[i64; 10]>)
    requires
        span_ok(ints(a@)),
        sd_normal(d.0 as int, d.1 as int),
        date_ok(p.0 as int, p.1 as int, p.2 as int),
        (p.0 as int, p.1 as int, p.2 as int) == x@,
    ensures
        r is None <==> jiff_span_difference_duration(ints(a@), d.0 * 1_000_000_000 + d.1, SpanRelativeTo::Date(x)) is None,
        r matches Some(v) ==> jiff_span_difference_duration(ints(a@), d.0 * 1_000_000_000 + d.1, SpanRelativeTo::Date(x)) == Some(ints(v@))
            && span_ok(ints(v@)),
{
    let date = jiff::civil::date(p.0, p.1, p.2);
    Some(from_jiff_span(to_jiff_span(a).checked_sub((jiff::SignedDuration::new(d.0, d.1), date)).ok()?))
}

/// `a - d` for a signed duration `d` with `jiff`'s `Span::checked_sub`,
/// relative to a civil datetime.
#[verifier::external_body]
fn jiff_span_sub_duration_datetime(a: [i64; 10], d: (i64, i32), p: ((i16, i8, i8), (i8, i8, i8, i32)), x: RyDateTime) -> (r: Option<[i64; 10]>)
    requires
        span_ok(ints(a@)),
        sd_normal(d.0 as int, d.1 as int),
        parts_ok(p),
        parts_view(p) == x@,
    ensures
        r is None <==> jiff_span_difference_duration(ints(a@), d.0 * 1_000_000_000 + d.1, SpanRelativeTo::DateTime(x)) is None,
        r matches Some(v) ==> jiff_span_difference_duration(ints(a@), d.0 * 1_000_000_000 + d.1, SpanRelativeTo::DateTime(x)) == Some(ints(v@))
            && span_ok(ints(v@)),
{
    let ((y, m, dd), (h, mi, sc, n)) = p;
    let at = jiff::civil::date(y, m, dd).at(h, mi, sc, n);
    Some(from_jiff_span(to_jiff_span(a).checked_sub((jiff::SignedDuration::new(d.0, d.1), at)).ok()?))
}

/// `+` of two spans with `jiff`'s `Span::checked_add`, relative to an
/// instant in a zone. For a database zone what the database holds is not
/// known here: only that a span is valid and answers this request;
/// `None` comes only where `jiff` has no answer.
#[verifier::external_body]
fn jiff_span_add_zoned(a: [i64; 10], b: [i64; 10], second: i64, nanosecond: i32, tz: &RyTimeZone) -> (r: Option<[i64; 10]>)
    requires
        span_ok(ints(a@)),
        span_ok(ints(b@)),
        ts_new_ok(second as int, nanosecond as int),
    ensures
        !(*tz is Named) ==> (r is None <==> jiff_span_sum_zoned(ints(a@), ints(b@), second * 1_000_000_000 + nanosecond, *tz)
            is None),
        r matches Some(v) ==> (!(*tz is Named) ==> jiff_span_sum_zoned(ints(a@), ints(b@), second * 1_000_000_000 + nanosecond,
            *tz) == Some(ints(v@))),
        r matches Some(v) ==> span_ok(ints(v@)),
        r matches Some(v) ==> jiff_span_sum_zoned_answer(ints(a@), ints(b@), second * 1_000_000_000 + nanosecond, *tz, ints(v@)),
        r is None ==> forall|w: Seq<int>| !#[trigger] jiff_span_sum_zoned_answer(ints(a@), ints(b@), second * 1_000_000_000 + nanosecond, *tz, w),
{
    let z = jiff::Timestamp::new(second, nanosecond).unwrap().to_zoned(to_jiff_tz(tz)?);
    Some(from_jiff_span(to_jiff_span(a).checked_add((to_jiff_span(b), &z)).ok()?))
}

/// `-` of two spans with `jiff`'s `Span::checked_sub`, relative to an
/// instant in a zone. For a database zone what the database holds is not
/// known here: only that a span is valid and answers this request;
/// `None` comes only where `jiff` has no answer.
#[verifier::external_body]
fn jiff_span_sub_zoned(a: [i64; 10], b: [i64; 10], second: i64, nanosecond: i32, tz: &RyTimeZone) -> (r: Option<[i64; 10]>)
    requires
        span_ok(ints(a@)),
        span_ok(ints(b@)),
        ts_new_ok(second as int, nanosecond as int),
    ensures
        !(*tz is Named) ==> (r is None <==> jiff_span_difference_zoned(ints(a@), ints(b@), second * 1_000_000_000 + nanosecond, *tz)
            is None),
        r matches Some(v) ==> (!(*tz is Named) ==> jiff_span_difference_zoned(ints(a@), ints(b@), second * 1_000_000_000 + nanosecond,
            *tz) == Some(ints(v@))),
        r matches Some(v) ==> span_ok(ints(v@)),
        r matches Some(v) ==> jiff_span_difference_zoned_answer(ints(a@), ints(b@), second * 1_000_000_000 + nanosecond, *tz, ints(v@)),
        r is None ==> forall|w: Seq<int>| !#[trigger] jiff_span_difference_zoned_answer(ints(a@), ints(b@), second * 1_000_000_000 + nanosecond, *tz, w),
{
    let z = jiff::Timestamp::new(second, nanosecond).unwrap().to_zoned(to_jiff_tz(tz)?);
    Some(from_jiff_span(to_jiff_span(a).checked_sub((to_jiff_span(b), &z)).ok()?))
}

/// `+` of a span and a signed duration with `jiff`'s `Span::checked_add`, relative to an
/// instant in a zone. For a database zone what the database holds is not
/// known here: only that a span is valid and answers this request;
/// `None` comes only where `jiff` has no answer.
#[verifier::external_body]
fn jiff_span_add_duration_zoned(a: [i64; 10], d: (i64, i32), second: i64, nanosecond: i32, tz: &RyTimeZone) -> (r: Option<[i64; 10]>)
    requires
        span_ok(ints(a@)),
        sd_normal(d.0 as int, d.1 as int),
        ts_new_ok(second as int, nanosecond as int),
    ensures
        !(*tz is Named) ==> (r is None <==> jiff_span_sum_duration_zoned(ints(a@), d.0 * 1_000_000_000 + d.1, second * 1_000_000_000 + nanosecond, *tz)
            is None),
        r matches Some(v) ==> (!(*tz is Named) ==> jiff_span_sum_duration_zoned(ints(a@), d.0 * 1_000_000_000 + d.1, second * 1_000_000_000 + nanosecond,
            *tz) == Some(ints(v@))),
        r matches Some(v) ==> span_ok(ints(v@)),
        r matches Some(v) ==> jiff_span_sum_duration_zoned_answer(ints(a@), d.0 * 1_000_000_000 + d.1, second * 1_000_000_000 + nanosecond, *tz, ints(v@)),
        r is None ==> forall|w: Seq<int>| !#[trigger] jiff_span_sum_duration_zoned_answer(ints(a@), d.0 * 1_000_000_000 + d.1, second * 1_000_000_000 + nanosecond, *tz, w),
{
    let z = jiff::Timestamp::new(second, nanosecond).unwrap().to_zoned(to_jiff_tz(tz)?);
    Some(from_jiff_span(to_jiff_span(a).checked_add((jiff::SignedDuration::new(d.0, d.1), &z)).ok()?))
}

/// `-` of a span and a signed duration with `jiff`'s `Span::checked_sub`, relative to an
/// instant in a zone. For a database zone what the database holds is not
/// known here: only that a span is valid and answers this request;
/// `None` comes only where `jiff` has no answer.
#[verifier::external_body]
fn jiff_span_sub_duration_zoned(a: [i64; 10], d: (i64, i32), second: i64, nanosecond: i32, tz: &RyTimeZone) -> (r: Option<[i64; 10]>)
    requires
        span_ok(ints(a@)),
        sd_normal(d.0 as int, d.1 as int),
        ts_new_ok(second as int, nanosecond as int),
    ensures
        !(*tz is Named) ==> (r is None <==> jiff_span_difference_duration_zoned(ints(a@), d.0 * 1_000_000_000 + d.1, second * 1_000_000_000 + nanosecond, *tz)
            is None),
        r matches Some(v) ==> (!(*tz is Named) ==> jiff_span_difference_duration_zoned(ints(a@), d.0 * 1_000_000_000 + d.1, second * 1_000_000_000 + nanosecond,
            *tz) == Some(ints(v@))),
        r matches Some(v) ==> span_ok(ints(v@)),
        r matches Some(v) ==> jiff_span_difference_duration_zoned_answer(ints(a@), d.0 * 1_000_000_000 + d.1, second * 1_000_000_000 + nanosecond, *tz, ints(v@)),
        r is None ==> forall|w: Seq<int>| !#[trigger] jiff_span_difference_duration_zoned_answer(ints(a@), d.0 * 1_000_000_000 + d.1, second * 1_000_000_000 + nanosecond, *tz, w),
{
    let z = jiff::Timestamp::new(second, nanosecond).unwrap().to_zoned(to_jiff_tz(tz)?);
    Some(from_jiff_span(to_jiff_span(a).checked_sub((jiff::SignedDuration::new(d.0, d.1), &z)).ok()?))
}

/// A span rounded with `jiff`'s `Span::round` and a `SpanRound`, with no reference point.
#[verifier::external_body]
fn jiff_span_round_none(a: [i64; 10], o: RoundOptions, largest: Option<JiffUnit>) -> (r: Option<[i64; 10]>)
    requires
        span_ok(ints(a@)),
    ensures
        r is None <==> jiff_span_round(ints(a@), o, largest, None::<SpanRelativeTo>) is None,
        r matches Some(v) ==> jiff_span_round(ints(a@), o, largest, None::<SpanRelativeTo>) == Some(ints(v@)) && span_ok(ints(v@)),
{
    let round = jiff::SpanRound::new().smallest(to_jiff_unit(o.smallest)).mode(to_jiff_round_mode(o.mode))
        .increment(o.increment);
    let round = match largest { Some(u) => round.largest(to_jiff_unit(u)), None => round };
    let r = round;
    Some(from_jiff_span(to_jiff_span(a).round(r).ok()?))
}

/// A span rounded with `jiff`'s `Span::round` and a `SpanRound`, days counted as 24 hours.
#[verifier::external_body]
fn jiff_span_round_24h(a: [i64; 10], o: RoundOptions, largest: Option<JiffUnit>) -> (r: Option<[i64; 10]>)
    requires
        span_ok(ints(a@)),
    ensures
        r is None <==> jiff_span_round(ints(a@), o, largest, Some(SpanRelativeTo::DaysAre24Hours)) is None,
        r matches Some(v) ==> jiff_span_round(ints(a@), o, largest, Some(SpanRelativeTo::DaysAre24Hours)) == Some(ints(v@)) && span_ok(ints(v@)),
{
    let round = jiff::SpanRound::new().smallest(to_jiff_unit(o.smallest)).mode(to_jiff_round_mode(o.mode))
        .increment(o.increment);
    let round = match largest { Some(u) => round.largest(to_jiff_unit(u)), None => round };
    let r = round.relative(jiff::SpanRelativeTo::days_are_24_hours());
    Some(from_jiff_span(to_jiff_span(a).round(r).ok()?))
}

/// A span rounded with `jiff`'s `Span::round` and a `SpanRound`, relative to a civil date.
#[verifier::external_body]
fn jiff_span_round_date(a: [i64; 10], o: RoundOptions, largest: Option<JiffUnit>, p: (i16, i8, i8), x: RyDate) -> (r: Option<[i64; 10]>)
    requires
        span_ok(ints(a@)),
        date_ok(p.0 as int, p.1 as int, p.2 as int),
        (p.0 as int, p.1 as int, p.2 as int) == x@,
    ensures
        r is None <==> jiff_span_round(ints(a@), o, largest, Some(SpanRelativeTo::Date(x))) is None,
        r matches Some(v) ==> jiff_span_round(ints(a@), o, largest, Some(SpanRelativeTo::Date(x))) == Some(ints(v@)) && span_ok(ints(v@)),
{
    let round = jiff::SpanRound::new().smallest(to_jiff_unit(o.smallest)).mode(to_jiff_round_mode(o.mode))
        .increment(o.increment);
    let round = match largest { Some(u) => round.largest(to_jiff_unit(u)), None => round };
    let r = round.relative(jiff::civil::date(p.0, p.1, p.2));
    Some(from_jiff_span(to_jiff_span(a).round(r).ok()?))
}

/// A span rounded with `jiff`'s `Span::round` and a `SpanRound`, relative to a civil datetime.
#[verifier::external_body]
fn jiff_span_round_datetime(a: [i64; 10], o: RoundOptions, largest: Option<JiffUnit>, p: ((i16, i8, i8), (i8, i8, i8, i32)), x: RyDateTime) -> (r: Option<[i64; 10]>)
    requires
        span_ok(ints(a@)),
        parts_ok(p),
        parts_view(p) == x@,
    ensures
        r is None <==> jiff_span_round(ints(a@), o, largest, Some(SpanRelativeTo::DateTime(x))) is None,
        r matches Some(v) ==> jiff_span_round(ints(a@), o, largest, Some(SpanRelativeTo::DateTime(x))) == Some(ints(v@)) && span_ok(ints(v@)),
{
    let round = jiff::SpanRound::new().smallest(to_jiff_unit(o.smallest)).mode(to_jiff_round_mode(o.mode))
        .increment(o.increment);
    let round = match largest { Some(u) => round.largest(to_jiff_unit(u)), None => round };
    let ((y, m, d), (h, mi, sc, n)) = p;
    let r = round.relative(jiff::civil::date(y, m, d).at(h, mi, sc, n));
    Some(from_jiff_span(to_jiff_span(a).round(r).ok()?))
}

/// A span rounded with `jiff`'s `Span::round` and a `SpanRound` relative
/// to an instant in a zone. For a database zone what the database holds is
/// not known here: only that a span is valid and answers this request;
/// `None` comes only where `jiff` has no answer.
#[verifier::external_body]
fn jiff_span_round_zoned_span(a: [i64; 10], o: RoundOptions, largest: Option<JiffUnit>, second: i64, nanosecond: i32,
    tz: &RyTimeZone) -> (r: Option<[i64; 10]>)
    requires
        span_ok(ints(a@)),
        ts_new_ok(second as int, nanosecond as int),
    ensures
        !(*tz is Named) ==> (r is None <==> jiff_span_round_zoned(ints(a@), o, largest, second * 1_000_000_000
            + nanosecond, *tz) is None),
        r matches Some(v) ==> (!(*tz is Named) ==> jiff_span_round_zoned(ints(a@), o, largest, second * 1_000_000_000
            + nanosecond, *tz) == Some(ints(v@))),
        r matches Some(v) ==> span_ok(ints(v@)),
        r matches Some(v) ==> jiff_span_round_zoned_answer(ints(a@), o, largest, second * 1_000_000_000 + nanosecond, *tz, ints(v@)),
        r is None ==> forall|w: Seq<int>| !#[trigger] jiff_span_round_zoned_answer(ints(a@), o, largest, second * 1_000_000_000 + nanosecond, *tz, w),
{
    let z = jiff::Timestamp::new(second, nanosecond).unwrap().to_zoned(to_jiff_tz(tz)?);
    let round = jiff::SpanRound::new().smallest(to_jiff_unit(o.smallest)).mode(to_jiff_round_mode(o.mode))
        .increment(o.increment).relative(&z);
    let round = match largest { Some(u) => round.largest(to_jiff_unit(u)), None => round };
    Some(from_jiff_span(to_jiff_span(a).round(round).ok()?))
}

/// `jiff`'s `Span::compare` of `a` and `b` relative to an instant in a
/// zone: -1, 0 or 1. For a database zone what the database holds is not
/// known here: only that the result is one of those and answers this
/// request; `None` comes only where `jiff` has no answer.
#[verifier::external_body]
fn jiff_span_order_zoned(a: [i64; 10], b: [i64; 10], second: i64, nanosecond: i32, tz: &RyTimeZone) -> (r: Option<i8>)
    requires
        span_ok(ints(a@)),
        span_ok(ints(b@)),
        ts_new_ok(second as int, nanosecond as int),
    ensures
        !(*tz is Named) ==> (r is None <==> jiff_span_compare_zoned(ints(a@), ints(b@), second * 1_000_000_000
            + nanosecond, *tz) is None),
        r matches Some(c) ==> (!(*tz is Named) ==> jiff_span_compare_zoned(ints(a@), ints(b@), second * 1_000_000_000
            + nanosecond, *tz) == Some(c as int)),
        r matches Some(c) ==> -1 <= c <= 1,
        r matches Some(v) ==> jiff_span_compare_zoned_answer(ints(a@), ints(b@), second * 1_000_000_000 + nanosecond, *tz, v as int),
        r is None ==> forall|w: int| !#[trigger] jiff_span_compare_zoned_answer(ints(a@), ints(b@), second * 1_000_000_000 + nanosecond, *tz, w),
{
    let z = jiff::Timestamp::new(second, nanosecond).unwrap().to_zoned(to_jiff_tz(tz)?);
    let o = to_jiff_span(a).compare((to_jiff_span(b), &z)).ok()?;
    Some(if o.is_lt() { -1 } else if o.is_gt() { 1 } else { 0 })
}

/// `jiff`'s `Span::to_duration` relative to an instant in a zone. For a
/// database zone what the database holds is not known here: only that the
/// parts are in a signed duration's normal form and answer this request;
/// `None` comes only where `jiff` has no answer.
#[verifier::external_body]
fn jiff_span_to_duration_zoned(a: [i64; 10], second: i64, nanosecond: i32, tz: &RyTimeZone) -> (r: Option<(i64, i32)>)
    requires
        span_ok(ints(a@)),
        ts_new_ok(second as int, nanosecond as int),
    ensures
        !(*tz is Named) ==> (r is None <==> jiff_span_duration_zoned(ints(a@), second * 1_000_000_000 + nanosecond,
            *tz) is None),
        r matches Some(v) ==> (!(*tz is Named) ==> jiff_span_duration_zoned(ints(a@), second * 1_000_000_000
            + nanosecond, *tz) == Some(v.0 * 1_000_000_000 + v.1)),
        r matches Some(v) ==> sd_normal(v.0 as int, v.1 as int),
        r matches Some(v) ==> jiff_span_duration_zoned_answer(ints(a@), second * 1_000_000_000 + nanosecond, *tz, v.0 * 1_000_000_000 + v.1),
        r is None ==> forall|w: int| !#[trigger] jiff_span_duration_zoned_answer(ints(a@), second * 1_000_000_000 + nanosecond, *tz, w),
{
    let z = jiff::Timestamp::new(second, nanosecond).unwrap().to_zoned(to_jiff_tz(tz)?);
    let d = to_jiff_span(a).to_duration(&z).ok()?;
    Some((d.as_secs(), d.subsec_nanos()))
}

/// The parts of a date as plain values.
fn date_parts(d: &RyDate) -> (r: (i16, i8, i8))
    ensures
        (r.0 as int, r.1 as int, r.2 as int) == d@,
        date_ok(r.0 as int, r.1 as int, r.2 as int),
{
    let y = d.year();
    (y, d.month(), d.day())
}

impl RySpan {
    /// `self + other` (`add`, `+`): days counted as 24 hours when no date
    /// is given, else measured on the calendar from the date or datetime;
    /// fails where `jiff` does (Python's `OverflowError`).
    pub fn checked_add(&self, other: &RySpan, rel: SpanRelativeTo) -> (r: Result<RySpan, SpanError>)
        ensures
            r is Err <==> jiff_span_sum(self@, other@, rel) is None,
            r matches Ok(s) ==> jiff_span_sum(self@, other@, rel) == Some(s@),
            r matches Err(e) ==> e == SpanError::Overflow,
    {
        let a = self.fields();
        let b = other.fields();
        let out = match rel {
            SpanRelativeTo::DaysAre24Hours => jiff_span_add_24h(a, b),
            SpanRelativeTo::Date(d) => jiff_span_add_date(a, b, date_parts(&d), d),
            SpanRelativeTo::DateTime(dt) => jiff_span_add_datetime(a, b, dt.parts(), dt),
        };
        match out {
            Some(f) => Ok(RySpan::from_checked_fields(f)),
            None => Err(SpanError::Overflow),
        }
    }

    /// `self - other` (`sub`, `-`), measured as `checked_add` is.
    pub fn checked_sub(&self, other: &RySpan, rel: SpanRelativeTo) -> (r: Result<RySpan, SpanError>)
        ensures
            r is Err <==> jiff_span_difference(self@, other@, rel) is None,
            r matches Ok(s) ==> jiff_span_difference(self@, other@, rel) == Some(s@),
            r matches Err(e) ==> e == SpanError::Overflow,
    {
        let a = self.fields();
        let b = other.fields();
        let out = match rel {
            SpanRelativeTo::DaysAre24Hours => jiff_span_sub_24h(a, b),
            SpanRelativeTo::Date(d) => jiff_span_sub_date(a, b, date_parts(&d), d),
            SpanRelativeTo::DateTime(dt) => jiff_span_sub_datetime(a, b, dt.parts(), dt),
        };
        match out {
            Some(f) => Ok(RySpan::from_checked_fields(f)),
            None => Err(SpanError::Overflow),
        }
    }

    /// `compare(other, relative=None, days_are_24_hours=False)`: a relative
    /// date together with `days_are_24_hours` is refused; without a
    /// relative date the spans are compared by their fixed lengths;
    /// with one, on the calendar from it (Python's `ValueError` where
    /// `jiff` refuses).
    pub fn compare_with(&self, other: &RySpan, relative: Option<SpanRelativeTo>, days_are_24_hours: bool) -> (r: Result<i8, SpanError>)
        ensures
            relative is Some && days_are_24_hours ==> r == Err::<i8, SpanError>(SpanError::RelativeWithDays24),
            relative is None ==> (r matches Ok(c) ==> compare_result(self@, other@, days_are_24_hours)
                == Ok::<int, SpanError>(c as int)),
            relative is None ==> (r matches Err(e) ==> compare_result(self@, other@, days_are_24_hours)
                == Err::<int, SpanError>(e)),
            relative is Some && !days_are_24_hours && relative.unwrap() != SpanRelativeTo::DaysAre24Hours
                ==> (r is Ok <==> jiff_span_compare_relative(self@, other@, relative.unwrap()) is Some),
            relative is Some && !days_are_24_hours && relative.unwrap() != SpanRelativeTo::DaysAre24Hours
                ==> (r matches Ok(c) ==> jiff_span_compare_relative(self@, other@, relative.unwrap())
                == Some(c as int)),
            relative == Some(SpanRelativeTo::DaysAre24Hours) && !days_are_24_hours ==> (r matches Ok(c)
                ==> compare_result(self@, other@, true) == Ok::<int, SpanError>(c as int)),
            relative == Some(SpanRelativeTo::DaysAre24Hours) && !days_are_24_hours ==> (r matches Err(e)
                ==> compare_result(self@, other@, true) == Err::<int, SpanError>(e)),
            r matches Err(e) ==> e != SpanError::Overflow,
    {
        if relative.is_some() && days_are_24_hours {
            return Err(SpanError::RelativeWithDays24);
        }
        match relative {
            None => self.compare(other, days_are_24_hours),
            Some(SpanRelativeTo::DaysAre24Hours) => self.compare(other, true),
            Some(SpanRelativeTo::Date(d)) => {
                match jiff_span_order_date(self.fields(), other.fields(), date_parts(&d), d) {
                    Some(c) => Ok(c),
                    None => Err(SpanError::NeedsRelative),
                }
            },
            Some(SpanRelativeTo::DateTime(dt)) => {
                match jiff_span_order_datetime(self.fields(), other.fields(), dt.parts(), dt) {
                    Some(c) => Ok(c),
                    None => Err(SpanError::NeedsRelative),
                }
            },
        }
    }

    /// The exact duration of the span (`to_signed_duration`): days counted
    /// as 24 hours, or measured from a civil date or datetime; fails where
    /// `jiff` does (Python's `ValueError`).
    pub fn to_signed_duration(&self, rel: SpanRelativeTo) -> (r: Result<RySignedDuration, SpanError>)
        ensures
            r is Err <==> jiff_span_duration(self@, rel) is None,
            r matches Ok(d) ==> jiff_span_duration(self@, rel) == Some(d@),
            r matches Err(e) ==> e == SpanError::NeedsRelative,
    {
        let a = self.fields();
        let out = match rel {
            SpanRelativeTo::DaysAre24Hours => jiff_span_to_duration_24h(a),
            SpanRelativeTo::Date(d) => jiff_span_to_duration_date(a, date_parts(&d), d),
            SpanRelativeTo::DateTime(dt) => jiff_span_to_duration_datetime(a, dt.parts(), dt),
        };
        match out {
            Some((s, n)) => Ok(RySignedDuration::from_normal_parts(s, n)),
            None => Err(SpanError::NeedsRelative),
        }
    }
}

impl RySpan {
    /// `self + d` for a signed duration (`add` with a `SignedDuration`,
    /// `datetime.timedelta` or `Duration`): days counted as 24 hours when no
    /// date is given, else measured on the calendar from the date or
    /// datetime; fails where `jiff` does (Python's `OverflowError`).
    pub fn checked_add_duration(&self, d: &RySignedDuration, rel: SpanRelativeTo) -> (r: Result<RySpan, SpanError>)
        ensures
            r is Err <==> jiff_span_sum_duration(self@, d@, rel) is None,
            r matches Ok(s) ==> jiff_span_sum_duration(self@, d@, rel) == Some(s@),
            r matches Err(e) ==> e == SpanError::Overflow,
    {
        let a = self.fields();
        let p = d.parts();
        proof {
            lemma_total_parts(d@);
        }
        let out = match rel {
            SpanRelativeTo::DaysAre24Hours => jiff_span_add_duration_24h(a, p),
            SpanRelativeTo::Date(x) => jiff_span_add_duration_date(a, p, date_parts(&x), x),
            SpanRelativeTo::DateTime(x) => jiff_span_add_duration_datetime(a, p, x.parts(), x),
        };
        match out {
            Some(f) => Ok(RySpan::from_checked_fields(f)),
            None => Err(SpanError::Overflow),
        }
    }

    /// `self - d` for a signed duration (`sub`), measured as
    /// `checked_add_duration` is.
    pub fn checked_sub_duration(&self, d: &RySignedDuration, rel: SpanRelativeTo) -> (r: Result<RySpan, SpanError>)
        ensures
            r is Err <==> jiff_span_difference_duration(self@, d@, rel) is None,
            r matches Ok(s) ==> jiff_span_difference_duration(self@, d@, rel) == Some(s@),
            r matches Err(e) ==> e == SpanError::Overflow,
    {
        let a = self.fields();
        let p = d.parts();
        proof {
            lemma_total_parts(d@);
        }
        let out = match rel {
            SpanRelativeTo::DaysAre24Hours => jiff_span_sub_duration_24h(a, p),
            SpanRelativeTo::Date(x) => jiff_span_sub_duration_date(a, p, date_parts(&x), x),
            SpanRelativeTo::DateTime(x) => jiff_span_sub_duration_datetime(a, p, x.parts(), x),
        };
        match out {
            Some(f) => Ok(RySpan::from_checked_fields(f)),
            None => Err(SpanError::Overflow),
        }
    }

    /// `self + other` measured on the calendar and in the time zone of a
    /// zoned datetime (`add` relative to a `ZonedDateTime`); fails where
    /// `jiff` does. With a database zone the span is whatever `jiff` finds.
    pub fn checked_add_zoned(&self, other: &RySpan, z: &RyZoned) -> (r: Result<RySpan, SpanError>)
        ensures
            !(z.time_zone() is Named) ==> (r is Err <==> jiff_span_sum_zoned(self@, other@, z@.0, z.time_zone())
                is None),
            r matches Ok(s) ==> (!(z.time_zone() is Named) ==> jiff_span_sum_zoned(self@, other@, z@.0,
                z.time_zone()) == Some(s@)),
            r matches Err(e) ==> e == SpanError::Overflow,
            r matches Ok(x) ==> jiff_span_sum_zoned_answer(self@, other@, z@.0, z.time_zone(), x@),
            (exists|w: Seq<int>| #[trigger] jiff_span_sum_zoned_answer(self@, other@, z@.0, z.time_zone(), w)) ==> r is Ok,
    {
        let (sec, ns) = z.timestamp().parts();
        let tz = z.time_zone();
        match jiff_span_add_zoned(self.fields(), other.fields(), sec, ns, &tz) {
            Some(f) => Ok(RySpan::from_checked_fields(f)),
            None => Err(SpanError::Overflow),
        }
    }

    /// `self - other` measured as `checked_add_zoned` is.
    pub fn checked_sub_zoned(&self, other: &RySpan, z: &RyZoned) -> (r: Result<RySpan, SpanError>)
        ensures
            !(z.time_zone() is Named) ==> (r is Err <==> jiff_span_difference_zoned(self@, other@, z@.0,
                z.time_zone()) is None),
            r matches Ok(s) ==> (!(z.time_zone() is Named) ==> jiff_span_difference_zoned(self@, other@, z@.0,
                z.time_zone()) == Some(s@)),
            r matches Err(e) ==> e == SpanError::Overflow,
            r matches Ok(x) ==> jiff_span_difference_zoned_answer(self@, other@, z@.0, z.time_zone(), x@),
            (exists|w: Seq<int>| #[trigger] jiff_span_difference_zoned_answer(self@, other@, z@.0, z.time_zone(), w)) ==> r is Ok,
    {
        let (sec, ns) = z.timestamp().parts();
        let tz = z.time_zone();
        match jiff_span_sub_zoned(self.fields(), other.fields(), sec, ns, &tz) {
            Some(f) => Ok(RySpan::from_checked_fields(f)),
            None => Err(SpanError::Overflow),
        }
    }

    /// `self + d` for a signed duration, measured as `checked_add_zoned` is.
    pub fn checked_add_duration_zoned(&self, d: &RySignedDuration, z: &RyZoned) -> (r: Result<RySpan, SpanError>)
        ensures
            !(z.time_zone() is Named) ==> (r is Err <==> jiff_span_sum_duration_zoned(self@, d@, z@.0,
                z.time_zone()) is None),
            r matches Ok(s) ==> (!(z.time_zone() is Named) ==> jiff_span_sum_duration_zoned(self@, d@, z@.0,
                z.time_zone()) == Some(s@)),
            r matches Err(e) ==> e == SpanError::Overflow,
            r matches Ok(x) ==> jiff_span_sum_duration_zoned_answer(self@, d@, z@.0, z.time_zone(), x@),
            (exists|w: Seq<int>| #[trigger] jiff_span_sum_duration_zoned_answer(self@, d@, z@.0, z.time_zone(), w)) ==> r is Ok,
    {
        let (sec, ns) = z.timestamp().parts();
        let tz = z.time_zone();
        let p = d.parts();
        proof {
            lemma_total_parts(d@);
        }
        match jiff_span_add_duration_zoned(self.fields(), p, sec, ns, &tz) {
            Some(f) => Ok(RySpan::from_checked_fields(f)),
            None => Err(SpanError::Overflow),
        }
    }

    /// `self - d` for a signed duration, measured as `checked_add_zoned` is.
    pub fn checked_sub_duration_zoned(&self, d: &RySignedDuration, z: &RyZoned) -> (r: Result<RySpan, SpanError>)
        ensures
            !(z.time_zone() is Named) ==> (r is Err <==> jiff_span_difference_duration_zoned(self@, d@, z@.0,
                z.time_zone()) is None),
            r matches Ok(s) ==> (!(z.time_zone() is Named) ==> jiff_span_difference_duration_zoned(self@, d@, z@.0,
                z.time_zone()) == Some(s@)),
            r matches Err(e) ==> e == SpanError::Overflow,
            r matches Ok(x) ==> jiff_span_difference_duration_zoned_answer(self@, d@, z@.0, z.time_zone(), x@),
            (exists|w: Seq<int>| #[trigger] jiff_span_difference_duration_zoned_answer(self@, d@, z@.0, z.time_zone(), w)) ==> r is Ok,
    {
        let (sec, ns) = z.timestamp().parts();
        let tz = z.time_zone();
        let p = d.parts();
        proof {
            lemma_total_parts(d@);
        }
        match jiff_span_sub_duration_zoned(self.fields(), p, sec, ns, &tz) {
            Some(f) => Ok(RySpan::from_checked_fields(f)),
            None => Err(SpanError::Overflow),
        }
    }
}

impl RySpan {
    /// Rounds the span (`round(smallest="nanosecond", increment=1, *,
    /// relative=None, largest=None, mode="half-expand",
    /// days_are_24_hours=False)`): a relative date together with
    /// `days_are_24_hours` is refused; otherwise `jiff` rounds with no
    /// reference point, with days of 24 hours, or relative to the date or
    /// datetime (Python's `ValueError` where `jiff` refuses).
    pub fn round(
        &self,
        smallest: JiffUnit,
        increment: i64,
        relative: Option<SpanRelativeTo>,
        largest: Option<JiffUnit>,
        mode: JiffRoundMode,
        days_are_24_hours: bool,
    ) -> (r: Result<RySpan, SpanError>)
        ensures
            relative is Some && days_are_24_hours ==> r == Err::<RySpan, SpanError>(SpanError::RelativeWithDays24),
            ({
                let o = RoundOptions { smallest, mode, increment };
                let rel = if days_are_24_hours { Some(SpanRelativeTo::DaysAre24Hours) } else { relative };
                !(relative is Some && days_are_24_hours) ==> {
                    &&& (r is Ok <==> jiff_span_round(self@, o, largest, rel) is Some)
                    &&& (r matches Ok(s) ==> jiff_span_round(self@, o, largest, rel) == Some(s@))
                    &&& (r matches Err(e) ==> e == SpanError::NeedsRelative)
                }
            }),
    {
        if relative.is_some() && days_are_24_hours {
            return Err(SpanError::RelativeWithDays24);
        }
        let o = RoundOptions { smallest, mode, increment };
        let a = self.fields();
        let out = if days_are_24_hours {
            jiff_span_round_24h(a, o, largest)
        } else {
            match relative {
                None => jiff_span_round_none(a, o, largest),
                Some(SpanRelativeTo::DaysAre24Hours) => jiff_span_round_24h(a, o, largest),
                Some(SpanRelativeTo::Date(x)) => jiff_span_round_date(a, o, largest, date_parts(&x), x),
                Some(SpanRelativeTo::DateTime(x)) => jiff_span_round_datetime(a, o, largest, x.parts(), x),
            }
        };
        match out {
            Some(f) => Ok(RySpan::from_checked_fields(f)),
            None => Err(SpanError::NeedsRelative),
        }
    }
}

impl RySpan {
    /// Rounds the span relative to a zoned datetime (`round` with a
    /// `ZonedDateTime` as `relative`): days follow the zone's calendar; a
    /// zoned datetime together with `days_are_24_hours` is refused. With a
    /// database zone the result is whatever `jiff` finds.
    pub fn round_zoned(
        &self,
        smallest: JiffUnit,
        increment: i64,
        z: &RyZoned,
        largest: Option<JiffUnit>,
        mode: JiffRoundMode,
        days_are_24_hours: bool,
    ) -> (r: Result<RySpan, SpanError>)
        ensures
            days_are_24_hours ==> r == Err::<RySpan, SpanError>(SpanError::RelativeWithDays24),
            !days_are_24_hours && !(z.time_zone() is Named) ==> (r is Ok <==> jiff_span_round_zoned(self@,
                RoundOptions { smallest, mode, increment }, largest, z@.0, z.time_zone()) is Some),
            r matches Ok(s) ==> (!(z.time_zone() is Named) ==> jiff_span_round_zoned(self@, RoundOptions { smallest,
                mode, increment }, largest, z@.0, z.time_zone()) == Some(s@)),
            r matches Err(e) ==> (e == SpanError::RelativeWithDays24 || e == SpanError::NeedsRelative),
            r matches Ok(x) ==> jiff_span_round_zoned_answer(self@, RoundOptions { smallest, mode, increment }, largest, z@.0, z.time_zone(), x@),
            !days_are_24_hours && (exists|w: Seq<int>| #[trigger] jiff_span_round_zoned_answer(self@, (RoundOptions { smallest, mode, increment }), largest, z@.0, z.time_zone(), w)) ==> r is Ok,
    {
        if days_are_24_hours {
            return Err(SpanError::RelativeWithDays24);
        }
        let (sec, ns) = z.timestamp().parts();
        let tz = z.time_zone();
        match jiff_span_round_zoned_span(self.fields(), RoundOptions { smallest, mode, increment }, largest, sec, ns, &tz) {
            Some(f) => Ok(RySpan::from_checked_fields(f)),
            None => Err(SpanError::NeedsRelative),
        }
    }

    /// Compares two spans relative to a zoned datetime (`compare` with a
    /// `ZonedDateTime` as `relative`): -1, 0 or 1; a zoned datetime together
    /// with `days_are_24_hours` is refused. With a database zone the order
    /// is whatever `jiff` finds.
    pub fn compare_zoned(&self, other: &RySpan, z: &RyZoned, days_are_24_hours: bool) -> (r: Result<i8, SpanError>)
        ensures
            days_are_24_hours ==> r == Err::<i8, SpanError>(SpanError::RelativeWithDays24),
            !days_are_24_hours && !(z.time_zone() is Named) ==> (r is Ok <==> jiff_span_compare_zoned(self@, other@,
                z@.0, z.time_zone()) is Some),
            r matches Ok(c) ==> (!(z.time_zone() is Named) ==> jiff_span_compare_zoned(self@, other@, z@.0,
                z.time_zone()) == Some(c as int)),
            r matches Ok(c) ==> -1 <= c <= 1,
            r matches Err(e) ==> (e == SpanError::RelativeWithDays24 || e == SpanError::NeedsRelative),
            r matches Ok(x) ==> jiff_span_compare_zoned_answer(self@, other@, z@.0, z.time_zone(), x as int),
            !days_are_24_hours && (exists|w: int| #[trigger] jiff_span_compare_zoned_answer(self@, other@, z@.0, z.time_zone(), w)) ==> r is Ok,
    {
        if days_are_24_hours {
            return Err(SpanError::RelativeWithDays24);
        }
        let (sec, ns) = z.timestamp().parts();
        let tz = z.time_zone();
        match jiff_span_order_zoned(self.fields(), other.fields(), sec, ns, &tz) {
            Some(c) => Ok(c),
            None => Err(SpanError::NeedsRelative),
        }
    }

    /// The exact duration of the span measured from a zoned datetime
    /// (`to_signed_duration` with a `ZonedDateTime`). With a database zone
    /// the duration is whatever `jiff` finds.
    pub fn to_signed_duration_zoned(&self, z: &RyZoned) -> (r: Result<RySignedDuration, SpanError>)
        ensures
            !(z.time_zone() is Named) ==> (r is Ok <==> jiff_span_duration_zoned(self@, z@.0, z.time_zone()) is Some),
            r matches Ok(d) ==> (!(z.time_zone() is Named) ==> jiff_span_duration_zoned(self@, z@.0, z.time_zone())
                == Some(d@)),
            r matches Err(e) ==> e == SpanError::NeedsRelative,
            r matches Ok(x) ==> jiff_span_duration_zoned_answer(self@, z@.0, z.time_zone(), x@),
            (exists|w: int| #[trigger] jiff_span_duration_zoned_answer(self@, z@.0, z.time_zone(), w)) ==> r is Ok,
    {
        let (sec, ns) = z.timestamp().parts();
        let tz = z.time_zone();
        match jiff_span_to_duration_zoned(self.fields(), sec, ns, &tz) {
            Some((a, b)) => Ok(RySignedDuration::from_normal_parts(a, b)),
            None => Err(SpanError::NeedsRelative),
        }
    }
}

} // verus!
