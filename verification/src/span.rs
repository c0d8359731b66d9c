//! Spans of calendar and clock units: the ten signed unit fields, how
//! setting one field re-signs the whole span, building a span from keyword
//! arguments, multiplication, negation, and the reprs.
use vstd::prelude::*;
use crate::units::{JiffUnit, unit_from_number, unit_number, unit_name};
use crate::text::{int_text, push_char, push_i64, push_str};
use crate::offset::abs;
use crate::compare::ints;

verus! {

/// The largest magnitude allowed for the unit field with number `i`
/// (0 = years .. 9 = nanoseconds).
pub open spec fn span_unit_max(i: int) -> int {
    if i == 0 { 19_998 }
    else if i == 1 { 239_976 }
    else if i == 2 { 1_043_497 }
    else if i == 3 { 7_304_484 }
    else if i == 4 { 175_307_616 }
    else if i == 5 { 10_518_456_960 }
    else if i == 6 { 631_107_417_600 }
    else if i == 7 { 631_107_417_600_000 }
    else if i == 8 { 631_107_417_600_000_000 }
    else { 9_223_372_036_854_775_807 }
}

/// Whether every field of `f` lies within its unit's range.
pub open spec fn span_in_range(f: Seq<int>) -> bool {
    forall|i: int| 0 <= i < 10 ==> abs(#[trigger] f[i]) <= span_unit_max(i)
}

/// Whether no two fields of `f` have opposite signs.
pub open spec fn no_mixed_signs(f: Seq<int>) -> bool {
    forall|i: int, j: int| 0 <= i < 10 && 0 <= j < 10 ==> !(#[trigger] f[i] > 0 && #[trigger] f[j] < 0)
}

/// Whether `f` holds the ten fields of a span: all in range, one sign.
pub open spec fn span_ok(f: Seq<int>) -> bool {
    f.len() == 10 && span_in_range(f) && no_mixed_signs(f)
}

/// The calendar units of a span (years, months, weeks, days), the others
/// zero.
pub open spec fn calendar_part(f: Seq<int>) -> Seq<int> {
    seq![f[0], f[1], f[2], f[3], 0, 0, 0, 0, 0, 0]
}

/// The time units of a span (hours down to nanoseconds), the others zero.
pub open spec fn time_part(f: Seq<int>) -> Seq<int> {
    seq![0, 0, 0, 0, f[4], f[5], f[6], f[7], f[8], f[9]]
}

/// Whether the first `k` entries of `x` are zero.
pub open spec fn zero_below(x: Seq<int>, k: int) -> bool {
    forall|i: int| 0 <= i < k ==> #[trigger] x[i] == 0
}

/// Whether some of the first `k` entries of `x` is negative.
pub open spec fn some_negative_below(x: Seq<int>, k: int) -> bool {
    exists|i: int| 0 <= i < k && #[trigger] x[i] < 0
}

/// Whether every field of `f` is zero.
pub open spec fn all_zero(f: Seq<int>) -> bool {
    zero_below(f, 10)
}

/// Whether some field of `f` is negative.
pub open spec fn any_negative(f: Seq<int>) -> bool {
    some_negative_below(f, 10)
}

proof fn lemma_zero_below_step(x: Seq<int>, k: int)
    requires
        0 <= k,
    ensures
        zero_below(x, k + 1) == (zero_below(x, k) && x[k] == 0),
{
    if zero_below(x, k + 1) {
        assert(x[k] == 0);
    }
}

proof fn lemma_negative_below_step(x: Seq<int>, k: int)
    requires
        0 <= k,
    ensures
        some_negative_below(x, k + 1) == (some_negative_below(x, k) || x[k] < 0),
{
    if some_negative_below(x, k + 1) {
        let w = choose|i: int| 0 <= i < k + 1 && #[trigger] x[i] < 0;
        if w < k {
            assert(some_negative_below(x, k));
        }
    }
    if some_negative_below(x, k) {
        let w = choose|i: int| 0 <= i < k && #[trigger] x[i] < 0;
        assert(0 <= w < k + 1 && x[w] < 0);
    }
    if x[k] < 0 {
        assert(0 <= k < k + 1 && x[k] < 0);
    }
}

/// The sign of a span: -1, 0 or 1.
pub open spec fn span_sign(f: Seq<int>) -> int {
    if any_negative(f) { -1 } else if all_zero(f) { 0 } else { 1 }
}

/// The zero span.
pub open spec fn zero_fields() -> Seq<int> {
    Seq::new(10, |i: int| 0)
}

/// The magnitudes of span `f` after field `i` is set to `v`.
pub open spec fn set_mags(f: Seq<int>, i: int, v: int) -> Seq<int> {
    Seq::new(10, |j: int| if j == i { abs(v) } else { abs(f[j]) })
}

/// The sign of span `f` after field `i` is set to `v`, as `jiff` decides it:
/// a negative `v` makes the whole span negative, a span that becomes all
/// zero has no sign, a zero span that gains a positive field becomes
/// positive, and otherwise the sign is kept.
pub open spec fn set_sign(f: Seq<int>, i: int, v: int) -> int {
    if v < 0 {
        -1
    } else if all_zero(set_mags(f, i, v)) {
        0
    } else if all_zero(f) {
        1
    } else {
        span_sign(f)
    }
}

/// Ten magnitudes carrying the sign `s`.
pub open spec fn signed_fields(mags: Seq<int>, s: int) -> Seq<int> {
    Seq::new(10, |j: int| if s < 0 { -mags[j] } else if s == 0 { 0 } else { mags[j] })
}

/// Setting field `i` of span `f` to `v`, as `jiff`'s `Span::try_*` setters
/// do: the field's magnitude becomes `|v|` and the span takes `set_sign`.
pub open spec fn span_set(f: Seq<int>, i: int, v: int) -> Seq<int> {
    signed_fields(set_mags(f, i, v), set_sign(f, i, v))
}

/// The span made by setting, in unit order, each non-zero value of the first
/// `k` entries of `x` on the zero span.
pub open spec fn span_build(x: Seq<int>, k: nat) -> Seq<int>
    decreases k,
{
    if k == 0 {
        zero_fields()
    } else {
        let prev = span_build(x, (k - 1) as nat);
        if x[k - 1] == 0 {
            prev
        } else {
            span_set(prev, k - 1, x[k - 1])
        }
    }
}

/// The closed form of `span_build`: if any value is negative every field is
/// minus the magnitude of its value, else every field is its value.
pub open spec fn span_build_closed(x: Seq<int>, k: int) -> Seq<int> {
    Seq::new(
        10,
        |i: int|
            if i >= k { 0 } else if some_negative_below(x, k) { -abs(x[i]) } else { x[i] },
    )
}

/// The number of the first value of `x` outside its unit's range, if any.
pub open spec fn first_out_of_range(x: Seq<int>) -> Option<int> {
    if exists|i: int| 0 <= i < 10 && abs(#[trigger] x[i]) > span_unit_max(i) {
        Some(choose|i: int| 0 <= i < 10 && abs(x[i]) > span_unit_max(i)
            && forall|j: int| 0 <= j < i ==> abs(#[trigger] x[j]) <= span_unit_max(j))
    } else {
        None
    }
}

/// Every field of `f` negated.
pub open spec fn negated(f: Seq<int>) -> Seq<int> {
    Seq::new(10, |i: int| -f[i])
}

/// The magnitude of every field of `f`.
pub open spec fn magnitudes(f: Seq<int>) -> Seq<int> {
    Seq::new(10, |i: int| abs(f[i]))
}

/// Every field of `f` multiplied by `k`.
pub open spec fn scaled(f: Seq<int>, k: int) -> Seq<int> {
    Seq::new(10, |i: int| f[i] * k)
}

/// Whether `jiff`'s `Span::checked_mul` succeeds: the factor is not
/// `i64::MIN` and every product stays within its unit's range.
pub open spec fn mul_ok(f: Seq<int>, k: int) -> bool {
    k != i64::MIN as int && span_in_range(scaled(f, k))
}

/// Nanoseconds in one of the unit with number `i`, taking a week as seven
/// days of 24 hours; years and months have no fixed length (0 here).
pub open spec fn unit_nanos(i: int) -> int {
    if i == 2 { 604_800_000_000_000 }
    else if i == 3 { 86_400_000_000_000 }
    else if i == 4 { 3_600_000_000_000 }
    else if i == 5 { 60_000_000_000 }
    else if i == 6 { 1_000_000_000 }
    else if i == 7 { 1_000_000 }
    else if i == 8 { 1_000 }
    else if i == 9 { 1 }
    else { 0 }
}

/// The length in nanoseconds of the first `k` fields, weeks and days taken
/// as fixed lengths.
pub open spec fn fixed_nanos_below(f: Seq<int>, k: nat) -> int
    decreases k,
{
    if k == 0 { 0 } else { fixed_nanos_below(f, (k - 1) as nat) + f[k - 1] * unit_nanos(k - 1) }
}

/// The length of a span in nanoseconds, weeks and days taken as 7 and 1
/// days of 24 hours, years and months left out (`jiff`'s invariant
/// duration).
pub open spec fn fixed_nanos(f: Seq<int>) -> int {
    fixed_nanos_below(f, 10)
}

/// What `jiff`'s `Span::compare` gives for two spans without a relative
/// date: an error when either has a unit that needs one (years, months,
/// weeks or days; only years and months when days count as 24 hours), else
/// the sign of the difference of their lengths.
pub open spec fn compare_result(a: Seq<int>, b: Seq<int>, days_are_24_hours: bool) -> Result<int, SpanError> {
    let k = if days_are_24_hours { 2 } else { 4 };
    if !zero_below(a, k) || !zero_below(b, k) {
        Err(SpanError::NeedsRelative)
    } else {
        let d = fixed_nanos(a) - fixed_nanos(b);
        Ok(if d < 0 { -1 } else if d == 0 { 0 } else { 1 })
    }
}

/// The keyword of the field with number `i` in the reprs (`years` ..
/// `nanoseconds`).
pub open spec fn field_name(i: int) -> Seq<char> {
    unit_name(unit_from_number(i)->0).push('s')
}

/// `name=value` for field `i` of `f`.
pub open spec fn field_item(f: Seq<int>, i: int) -> Seq<char> {
    field_name(i) + seq!['='] + int_text(f[i])
}

/// The `name=value` items of the non-zero fields among the first `k`,
/// joined by `, `.
pub open spec fn nonzero_items(f: Seq<int>, k: nat) -> Seq<char>
    decreases k,
{
    if k == 0 {
        Seq::empty()
    } else {
        let prev = nonzero_items(f, (k - 1) as nat);
        if f[k - 1] == 0 {
            prev
        } else if prev.len() == 0 {
            field_item(f, k - 1)
        } else {
            prev + seq![',', ' '] + field_item(f, k - 1)
        }
    }
}

/// The `name=value` items of all of the first `k` fields, joined by `, `.
pub open spec fn all_items(f: Seq<int>, k: nat) -> Seq<char>
    decreases k,
{
    if k == 0 {
        Seq::empty()
    } else if k == 1 {
        field_item(f, 0)
    } else {
        all_items(f, (k - 1) as nat) + seq![',', ' '] + field_item(f, k - 1)
    }
}

/// The short repr: `TimeSpan(` then the non-zero fields, then `)`.
pub open spec fn span_repr_text(f: Seq<int>) -> Seq<char> {
    seq!['T', 'i', 'm', 'e', 'S', 'p', 'a', 'n', '('] + nonzero_items(f, 10) + seq![')']
}

/// The full repr: `TimeSpan(` then every field, then `)`.
pub open spec fn span_repr_full_text(f: Seq<int>) -> Seq<char> {
    seq!['T', 'i', 'm', 'e', 'S', 'p', 'a', 'n', '('] + all_items(f, 10) + seq![')']
}

/// The values given to `replace`: each given value, else the span's own.
pub open spec fn replaced(f: Seq<int>, x: Seq<Option<i64>>) -> Seq<int> {
    Seq::new(10, |i: int| match x[i] { Some(v) => v as int, None => f[i] })
}

/// What `jiff` prints for a span (ISO 8601 duration, `P1Y2DT3H`).
pub uninterp spec fn jiff_span_text(f: Seq<int>) -> Seq<char>;

/// What `jiff`'s alternate ("friendly") format prints for a span.
pub uninterp spec fn jiff_span_friendly_text(f: Seq<int>) -> Seq<char>;

/// The span `jiff` parses from text (ISO 8601 or friendly), if any.
pub uninterp spec fn jiff_span_parse(s: Seq<char>) -> Option<Seq<int>>;

/// Why a span could not be made.
#[derive(Clone, Copy, Debug, PartialEq, Eq, Structural)]
pub enum SpanError {
    /// The value for this unit is outside the unit's range (Python's
    /// `OverflowError`).
    OutOfRange(JiffUnit),
    /// A product or sum left some unit's range (Python's `OverflowError`).
    Overflow,
    /// Years, months, weeks or days need a relative date, or years and months
    /// were given with days counted as 24 hours (Python's `ValueError`).
    NeedsRelative,
    /// Both a relative date and `days_are_24_hours` were given (Python's
    /// `ValueError`).
    RelativeWithDays24,
}

/// A span of time in calendar and clock units, each field signed, all
/// non-zero fields sharing one sign.
#[derive(Clone, Copy, Debug, PartialEq, Eq)]
pub struct RySpan {
    fields: [i64; 10],
}

impl View for RySpan {
    type V = Seq<int>;

    /// The ten signed fields, from years to nanoseconds.
    closed spec fn view(&self) -> Seq<int> {
        ints(self.fields@)
    }
}

/// `span_build` agrees with its closed form.
proof fn lemma_build_closed(x: Seq<int>, k: nat)
    requires
        x.len() == 10,
        k <= 10,
    ensures
        span_build(x, k) =~= span_build_closed(x, k as int),
    decreases k,
{
    if k == 0 {
        assert(span_build(x, 0) =~= span_build_closed(x, 0));
    } else {
        let kk = (k - 1) as int;
        lemma_build_closed(x, (k - 1) as nat);
        let prev = span_build(x, (k - 1) as nat);
        let v = x[kk];
        let closed = span_build_closed(x, k as int);
        let neg_before = some_negative_below(x, kk);
        let neg_k = some_negative_below(x, k as int);
        lemma_negative_below_step(x, kk);
        if v == 0 {
            assert forall|j: int| 0 <= j < 10 implies prev[j] == #[trigger] closed[j] by {
            }
            assert(span_build(x, k) =~= closed);
        } else {
            let res = span_set(prev, kk, v);
            let mags = set_mags(prev, kk, v);
            assert forall|j: int| 0 <= j < 10 implies #[trigger] mags[j] == (if j <= kk {
                abs(x[j])
            } else {
                0
            }) by {
            }
            assert(!all_zero(mags)) by {
                assert(mags[kk] != 0);
            }
            if v < 0 {
                assert(set_sign(prev, kk, v) == -1);
            } else if neg_before {
                let w = choose|i: int| 0 <= i < kk && #[trigger] x[i] < 0;
                assert(prev[w] < 0);
                assert(any_negative(prev));
                assert(!all_zero(prev));
                assert(set_sign(prev, kk, v) == -1);
            } else {
                assert(!any_negative(prev)) by {
                    if any_negative(prev) {
                        let w = choose|i: int| 0 <= i < 10 && #[trigger] prev[i] < 0;
                        assert(x[w] < 0);
                    }
                }
                assert(set_sign(prev, kk, v) == 1);
                assert forall|j: int| 0 <= j < kk implies #[trigger] x[j] >= 0 by {
                    if x[j] < 0 {
                        assert(neg_before);
                    }
                }
            }
            assert forall|j: int| 0 <= j < 10 implies #[trigger] res[j] == closed[j] by {
                if j < kk && !neg_k {
                    assert(x[j] >= 0);
                }
            }
            assert(span_build(x, k) == res);
            assert(res =~= closed);
        }
    }
}

proof fn lemma_product_bound(a: int, k: int)
    by (nonlinear_arith)
    requires
        -0x8000_0000_0000_0000 <= a <= 0x8000_0000_0000_0000,
        -0x8000_0000_0000_0000 <= k <= 0x8000_0000_0000_0000,
    ensures
        -0x4000_0000_0000_0000_0000_0000_0000_0000 <= a * k <= 0x4000_0000_0000_0000_0000_0000_0000_0000,
{
}

proof fn lemma_product_sign(a: int, k: int)
    by (nonlinear_arith)
    ensures
        a * k > 0 ==> (a > 0 && k > 0) || (a < 0 && k < 0),
        a * k < 0 ==> (a > 0 && k < 0) || (a < 0 && k > 0),
{
}

/// The ten values given to a span constructor, in unit order.
pub open spec fn parts_seq(
    years: i64,
    months: i64,
    weeks: i64,
    days: i64,
    hours: i64,
    minutes: i64,
    seconds: i64,
    milliseconds: i64,
    microseconds: i64,
    nanoseconds: i64,
) -> Seq<int> {
    seq![
        years as int,
        months as int,
        weeks as int,
        days as int,
        hours as int,
        minutes as int,
        seconds as int,
        milliseconds as int,
        microseconds as int,
        nanoseconds as int,
    ]
}

fn unit_max(i: usize) -> (r: i64)
    requires
        i < 10,
    ensures
        r as int == span_unit_max(i as int),
{
    match i {
        0 => 19_998,
        1 => 239_976,
        2 => 1_043_497,
        3 => 7_304_484,
        4 => 175_307_616,
        5 => 10_518_456_960,
        6 => 631_107_417_600,
        7 => 631_107_417_600_000,
        8 => 631_107_417_600_000_000,
        _ => 9_223_372_036_854_775_807,
    }
}

fn unit_at(i: usize) -> (u: JiffUnit)
    requires
        i < 10,
    ensures
        unit_from_number(i as int) == Some(u),
{
    match i {
        0 => JiffUnit::Year,
        1 => JiffUnit::Month,
        2 => JiffUnit::Week,
        3 => JiffUnit::Day,
        4 => JiffUnit::Hour,
        5 => JiffUnit::Minute,
        6 => JiffUnit::Second,
        7 => JiffUnit::Millisecond,
        8 => JiffUnit::Microsecond,
        _ => JiffUnit::Nanosecond,
    }
}

fn index_of(u: JiffUnit) -> (i: usize)
    ensures
        i as int == unit_number(u),
        i < 10,
{
    match u {
        JiffUnit::Year => 0,
        JiffUnit::Month => 1,
        JiffUnit::Week => 2,
        JiffUnit::Day => 3,
        JiffUnit::Hour => 4,
        JiffUnit::Minute => 5,
        JiffUnit::Second => 6,
        JiffUnit::Millisecond => 7,
        JiffUnit::Microsecond => 8,
        JiffUnit::Nanosecond => 9,
    }
}

/// Appends `name=value` for field `i`.
fn push_field_item(out: &mut String, f: &[i64; 10], i: usize)
    requires
        i < 10,
    ensures
        final(out)@ == old(out)@ + field_item(ints(f@), i as int),
{
    push_str(out, unit_at(i).static_str());
    push_char(out, 's');
    push_char(out, '=');
    push_i64(out, f[i]);
    proof {
        assert(ints(f@)[i as int] == f@[i as int] as int);
    }
    assert(out@ =~= old(out)@ + field_item(ints(f@), i as int));
}

/// Appends the separator `, `.
fn push_sep(out: &mut String)
    ensures
        final(out)@ == old(out)@ + seq![',', ' '],
{
    push_char(out, ',');
    push_char(out, ' ');
    assert(out@ =~= old(out)@ + seq![',', ' ']);
}

/// Appends `TimeSpan(`.
fn push_head(out: &mut String)
    ensures
        final(out)@ == old(out)@ + seq!['T', 'i', 'm', 'e', 'S', 'p', 'a', 'n', '('],
{
    proof {
        reveal_strlit("TimeSpan(");
    }
    push_str(out, "TimeSpan(");
    assert(out@ =~= old(out)@ + seq!['T', 'i', 'm', 'e', 'S', 'p', 'a', 'n', '(']);
}

/// Prints a span as `jiff`'s `Display` for `jiff::Span` does (ISO 8601).
#[verifier::external_body]
fn jiff_span_to_string(s: &RySpan) -> (r: String)
    ensures
        r@ == jiff_span_text(s@),
{
    let f = s.fields;
    let sp = jiff::Span::new().years(f[0]).months(f[1]).weeks(f[2]).days(f[3]).hours(f[4])
        .minutes(f[5]).seconds(f[6]).milliseconds(f[7]).microseconds(f[8]).nanoseconds(f[9]);
    format!("{}", sp)
}

/// Prints a span as `jiff`'s alternate `Display` for `jiff::Span` does
/// (the friendly format).
#[verifier::external_body]
fn jiff_span_to_friendly(s: &RySpan) -> (r: String)
    ensures
        r@ == jiff_span_friendly_text(s@),
{
    let f = s.fields;
    let sp = jiff::Span::new().years(f[0]).months(f[1]).weeks(f[2]).days(f[3]).hours(f[4])
        .minutes(f[5]).seconds(f[6]).milliseconds(f[7]).microseconds(f[8]).nanoseconds(f[9]);
    format!("{:#}", sp)
}

/// Parses a span with `jiff` (std's `FromStr` on `jiff::Span`).
#[verifier::external_body]
fn jiff_span_from_str(t: &str) -> (r: Option<RySpan>)
    ensures
        r is None <==> jiff_span_parse(t@) is None,
        r matches Some(s) ==> jiff_span_parse(t@) == Some(s@),
{
    let sp = t.parse::<jiff::Span>().ok()?;
    Some(RySpan { fields: [sp.get_years() as i64, sp.get_months() as i64, sp.get_weeks() as i64,
        sp.get_days() as i64, sp.get_hours() as i64, sp.get_minutes(), sp.get_seconds(),
        sp.get_milliseconds(), sp.get_microseconds(), sp.get_nanoseconds()] })
}

/// The fixed length in nanoseconds of ten in-range fields.
fn fixed_nanos_of(f: &[i64; 10]) -> (r: i128)
    requires
        span_in_range(ints(f@)),
    ensures
        r as int == fixed_nanos(ints(f@)),
{
    let ghost fs = ints(f@);
    let mut acc: i128 = 0;
    let mut i: usize = 0;
    while i < 10
        invariant
            i <= 10,
            fs == ints(f@),
            span_in_range(fs),
            acc as int == fixed_nanos_below(fs, i as nat),
            -(i as int) * 0x1_0000_0000_0000_0000_0000 <= acc <= (i as int) * 0x1_0000_0000_0000_0000_0000,
        decreases 10 - i,
    {
        proof {
            assert(fs[i as int] == f@[i as int] as int);
            assert(abs(fs[i as int]) <= span_unit_max(i as int));
        }
        let u: i128 = match i {
            2 => 604_800_000_000_000,
            3 => 86_400_000_000_000,
            4 => 3_600_000_000_000,
            5 => 60_000_000_000,
            6 => 1_000_000_000,
            7 => 1_000_000,
            8 => 1_000,
            9 => 1,
            _ => 0,
        };
        proof {
            lemma_fixed_term_bound(fs[i as int], i as int);
        }
        acc = acc + f[i] as i128 * u;
        i = i + 1;
    }
    acc
}

proof fn lemma_fixed_term_bound(v: int, i: int)
    requires
        0 <= i < 10,
        abs(v) <= span_unit_max(i),
    ensures
        -0x1_0000_0000_0000_0000_0000 <= v * unit_nanos(i) <= 0x1_0000_0000_0000_0000_0000,
{
    if i == 2 {
        assert(-0x1_0000_0000_0000_0000_0000 <= v * 604_800_000_000_000 <= 0x1_0000_0000_0000_0000_0000) by (nonlinear_arith)
            requires -1_043_497 <= v <= 1_043_497;
    } else if i == 3 {
        assert(-0x1_0000_0000_0000_0000_0000 <= v * 86_400_000_000_000 <= 0x1_0000_0000_0000_0000_0000) by (nonlinear_arith)
            requires -7_304_484 <= v <= 7_304_484;
    } else if i == 4 {
        assert(-0x1_0000_0000_0000_0000_0000 <= v * 3_600_000_000_000 <= 0x1_0000_0000_0000_0000_0000) by (nonlinear_arith)
            requires -175_307_616 <= v <= 175_307_616;
    } else if i == 5 {
        assert(-0x1_0000_0000_0000_0000_0000 <= v * 60_000_000_000 <= 0x1_0000_0000_0000_0000_0000) by (nonlinear_arith)
            requires -10_518_456_960 <= v <= 10_518_456_960;
    } else if i == 6 {
        assert(-0x1_0000_0000_0000_0000_0000 <= v * 1_000_000_000 <= 0x1_0000_0000_0000_0000_0000) by (nonlinear_arith)
            requires -631_107_417_600 <= v <= 631_107_417_600;
    } else if i == 7 {
        assert(-0x1_0000_0000_0000_0000_0000 <= v * 1_000_000 <= 0x1_0000_0000_0000_0000_0000) by (nonlinear_arith)
            requires -631_107_417_600_000 <= v <= 631_107_417_600_000;
    } else if i == 8 {
        assert(-0x1_0000_0000_0000_0000_0000 <= v * 1_000 <= 0x1_0000_0000_0000_0000_0000) by (nonlinear_arith)
            requires -631_107_417_600_000_000 <= v <= 631_107_417_600_000_000;
    }
}

/// Whether a relative date and `days_are_24_hours` may be given together
/// to `compare` and `total`: they may not.
pub fn check_relative_options(has_relative: bool, days_are_24_hours: bool) -> (r: Result<(), SpanError>)
    ensures
        r is Err <==> (has_relative && days_are_24_hours),
        r matches Err(e) ==> e == SpanError::RelativeWithDays24,
{
    if has_relative && days_are_24_hours {
        Err(SpanError::RelativeWithDays24)
    } else {
        Ok(())
    }
}

/// Builds a span from ten values in unit order: each non-zero value is set,
/// in order, as `jiff`'s `try_*` setters do; fails on the first value outside
/// its unit's range.
pub fn span_from_parts(x: [i64; 10]) -> (r: Result<RySpan, SpanError>)
    ensures
        r is Ok <==> span_in_range(ints(x@)),
        r matches Ok(s) ==> s@ == span_build(ints(x@), 10),
        r matches Err(SpanError::OutOfRange(u)) ==> first_out_of_range(
            ints(x@),
        ) matches Some(i) && unit_from_number(i) == Some(u),
        r matches Err(e) ==> e is OutOfRange,
{
    let ghost xs = ints(x@);
    let mut i: usize = 0;
    while i < 10
        invariant
            i <= 10,
            xs == ints(x@),
            forall|j: int| 0 <= j < i ==> abs(#[trigger] xs[j]) <= span_unit_max(j),
        decreases 10 - i,
    {
        let m = unit_max(i);
        if x[i] < -m || x[i] > m {
            proof {
                let w = i as int;
                assert(abs(xs[w]) > span_unit_max(w));
                let c = choose|c: int| 0 <= c < 10 && abs(xs[c]) > span_unit_max(c)
                    && forall|j: int| 0 <= j < c ==> abs(#[trigger] xs[j]) <= span_unit_max(j);
                assert(c == w) by {
                    if c < w {
                        assert(abs(xs[c]) <= span_unit_max(c));
                    }
                    if c > w {
                        assert(abs(xs[w]) <= span_unit_max(w));
                    }
                }
            }
            return Err(SpanError::OutOfRange(unit_at(i)));
        }
        i = i + 1;
    }
    let mut neg = false;
    let mut k: usize = 0;
    while k < 10
        invariant
            k <= 10,
            xs == ints(x@),
            neg == some_negative_below(xs, k as int),
        decreases 10 - k,
    {
        proof {
            assert(xs[k as int] == x@[k as int] as int);
            lemma_negative_below_step(xs, k as int);
        }
        if x[k] < 0 {
            neg = true;
        }
        k = k + 1;
    }
    let mut f: [i64; 10] = [0i64; 10];
    let mut j: usize = 0;
    while j < 10
        invariant
            j <= 10,
            xs == ints(x@),
            neg == some_negative_below(xs, 10),
            span_in_range(xs),
            f@.len() == 10,
            forall|t: int| 0 <= t < j ==> f@[t] as int == span_build_closed(xs, 10)[t],
            forall|t: int| j <= t < 10 ==> f@[t] == 0,
        decreases 10 - j,
    {
        let v = x[j];
        proof {
            assert(abs(xs[j as int]) <= span_unit_max(j as int));
        }
        let a = if v < 0 { -v } else { v };
        f[j] = if neg { -a } else { v };
        j = j + 1;
    }
    proof {
        lemma_build_closed(xs, 10);
    }
    let s = RySpan { fields: f };
    assert(s@ =~= span_build(xs, 10));
    proof {
        assert(span_ok(s@)) by {
            assert forall|p: int, q: int| 0 <= p < 10 && 0 <= q < 10 implies !(#[trigger] s@[p] > 0
                && #[trigger] s@[q] < 0) by {
                if neg {
                } else {
                    assert(!some_negative_below(xs, 10));
                    if s@[q] < 0 {
                        assert(xs[q] < 0);
                    }
                }
            }
        }
    }
    Ok(s)
}

impl RySpan {
    #[verifier::type_invariant]
    spec fn inv(self) -> bool {
        span_ok(ints(self.fields@))
    }

    /// The span of ten fields known to be in range and of one sign.
    pub(crate) fn from_checked_fields(f: [i64; 10]) -> (r: RySpan)
        requires
            span_ok(ints(f@)),
        ensures
            r@ == ints(f@),
    {
        RySpan { fields: f }
    }

    /// The zero span.
    pub fn new() -> (r: RySpan)
        ensures
            r@ == zero_fields(),
    {
        let s = RySpan { fields: [0i64; 10] };
        assert(s@ =~= zero_fields());
        s
    }

    /// The span split into its calendar units and its time units.
    pub fn split_calendar(&self) -> (r: (RySpan, RySpan))
        ensures
            r.0@ == calendar_part(self@),
            r.1@ == time_part(self@),
    {
        let f = self.fields();
        let c: [i64; 10] = [f[0], f[1], f[2], f[3], 0, 0, 0, 0, 0, 0];
        let t: [i64; 10] = [0, 0, 0, 0, f[4], f[5], f[6], f[7], f[8], f[9]];
        assert(ints(c@) =~= calendar_part(self@));
        assert(ints(t@) =~= time_part(self@));
        assert(span_ok(ints(c@))) by {
            assert forall|i: int| 0 <= i < 10 implies abs(#[trigger] ints(c@)[i]) <= span_unit_max(i) by {
                assert(self@[i] == ints(f@)[i]);
            }
            assert forall|i: int, j: int| 0 <= i < 10 && 0 <= j < 10 implies !(#[trigger] ints(c@)[i] > 0
                && #[trigger] ints(c@)[j] < 0) by {
                assert(self@[i] == ints(f@)[i] && self@[j] == ints(f@)[j]);
            }
        }
        assert(span_ok(ints(t@))) by {
            assert forall|i: int| 0 <= i < 10 implies abs(#[trigger] ints(t@)[i]) <= span_unit_max(i) by {
                assert(self@[i] == ints(f@)[i]);
            }
            assert forall|i: int, j: int| 0 <= i < 10 && 0 <= j < 10 implies !(#[trigger] ints(t@)[i] > 0
                && #[trigger] ints(t@)[j] < 0) by {
                assert(self@[i] == ints(f@)[i] && self@[j] == ints(f@)[j]);
            }
        }
        (RySpan { fields: c }, RySpan { fields: t })
    }

    /// Every span holds ten in-range fields of one sign.
    pub fn fields(&self) -> (r: [i64; 10])
        ensures
            ints(r@) == self@,
            span_ok(self@),
    {
        proof {
            use_type_invariant(self);
        }
        self.fields
    }

    /// The signed value of one unit field.
    pub fn get(&self, u: JiffUnit) -> (r: i64)
        ensures
            r as int == self@[unit_number(u)],
    {
        let f = self.fields();
        let i = index_of(u);
        f[i]
    }

    /// The span of the given unit values (the Python constructor
    /// `TimeSpan(years=.., .., nanoseconds=..)` and `timespan(..)`): each
    /// non-zero value is set in unit order; fails on the first value outside
    /// its unit's range.
    pub fn py_new(
        years: i64,
        months: i64,
        weeks: i64,
        days: i64,
        hours: i64,
        minutes: i64,
        seconds: i64,
        milliseconds: i64,
        microseconds: i64,
        nanoseconds: i64,
    ) -> (r: Result<RySpan, SpanError>)
        ensures
            r is Ok <==> span_in_range(
                parts_seq(years, months, weeks, days, hours, minutes, seconds, milliseconds,
                    microseconds, nanoseconds),
            ),
            r matches Ok(s) ==> s@ == span_build(
                parts_seq(years, months, weeks, days, hours, minutes, seconds, milliseconds,
                    microseconds, nanoseconds),
                10,
            ),
            r matches Err(SpanError::OutOfRange(u)) ==> first_out_of_range(
                parts_seq(years, months, weeks, days, hours, minutes, seconds, milliseconds,
                    microseconds, nanoseconds),
            ) matches Some(i) && unit_from_number(i) == Some(u),
            r matches Err(e) ==> e is OutOfRange,
    {
        let x: [i64; 10] = [
            years,
            months,
            weeks,
            days,
            hours,
            minutes,
            seconds,
            milliseconds,
            microseconds,
            nanoseconds,
        ];
        assert(ints(x@) =~= parts_seq(years, months, weeks, days, hours,
            minutes, seconds, milliseconds, microseconds, nanoseconds));
        span_from_parts(x)
    }

    /// The span with every field negated (`negate`, `-span`, `~span`).
    pub fn negate(&self) -> (r: RySpan)
        ensures
            r@ == negated(self@),
    {
        let f = self.fields();
        let mut out: [i64; 10] = [0i64; 10];
        let mut i: usize = 0;
        while i < 10
            invariant
                i <= 10,
                span_ok(ints(f@)),
                out@.len() == 10,
                forall|t: int| 0 <= t < i ==> out@[t] as int == -(f@[t] as int),
                forall|t: int| i <= t < 10 ==> out@[t] == 0,
            decreases 10 - i,
        {
            proof {
                let fs = ints(f@);
                assert(fs[i as int] == f@[i as int] as int);
                assert(abs(fs[i as int]) <= span_unit_max(i as int));
            }
            out[i] = -f[i];
            i = i + 1;
        }
        proof {
            let fs = ints(f@);
            let rs = ints(out@);
            assert forall|t: int| 0 <= t < 10 implies #[trigger] rs[t] == -fs[t] by {}
            assert forall|t: int| 0 <= t < 10 implies abs(#[trigger] rs[t]) <= span_unit_max(t) by {
                assert(abs(fs[t]) <= span_unit_max(t));
            }
            assert forall|p: int, q: int| 0 <= p < 10 && 0 <= q < 10 implies !(#[trigger] rs[p] > 0
                && #[trigger] rs[q] < 0) by {
                assert(!(fs[q] > 0 && fs[p] < 0));
            }
        }
        let r = RySpan { fields: out };
        assert(r@ =~= negated(self@));
        r
    }

    /// The span with every field replaced by its magnitude (`abs`).
    pub fn abs(&self) -> (r: RySpan)
        ensures
            r@ == magnitudes(self@),
    {
        let f = self.fields();
        let mut out: [i64; 10] = [0i64; 10];
        let mut i: usize = 0;
        while i < 10
            invariant
                i <= 10,
                span_ok(ints(f@)),
                out@.len() == 10,
                forall|t: int| 0 <= t < i ==> out@[t] as int == abs(f@[t] as int),
                forall|t: int| i <= t < 10 ==> out@[t] == 0,
            decreases 10 - i,
        {
            proof {
                let fs = ints(f@);
                assert(fs[i as int] == f@[i as int] as int);
                assert(abs(fs[i as int]) <= span_unit_max(i as int));
            }
            out[i] = if f[i] < 0 { -f[i] } else { f[i] };
            i = i + 1;
        }
        proof {
            let fs = ints(f@);
            let rs = ints(out@);
            assert forall|t: int| 0 <= t < 10 implies #[trigger] rs[t] == abs(fs[t]) by {}
            assert forall|t: int| 0 <= t < 10 implies abs(#[trigger] rs[t]) <= span_unit_max(t) by {
                assert(abs(fs[t]) <= span_unit_max(t));
            }
        }
        let r = RySpan { fields: out };
        assert(r@ =~= magnitudes(self@));
        r
    }

    /// -1, 0 or 1: the sign of the span.
    pub fn signum(&self) -> (r: i8)
        ensures
            r as int == span_sign(self@),
    {
        let f = self.fields();
        let ghost fs = self@;
        let mut zero = true;
        let mut neg = false;
        let mut i: usize = 0;
        while i < 10
            invariant
                i <= 10,
                fs == ints(f@),
                zero == zero_below(fs, i as int),
                neg == some_negative_below(fs, i as int),
            decreases 10 - i,
        {
            proof {
                assert(fs[i as int] == f@[i as int] as int);
                lemma_zero_below_step(fs, i as int);
                lemma_negative_below_step(fs, i as int);
            }
            if f[i] != 0 {
                zero = false;
            }
            if f[i] < 0 {
                neg = true;
            }
            i = i + 1;
        }
        if neg { -1 } else if zero { 0 } else { 1 }
    }

    /// Whether every field is zero.
    pub fn is_zero(&self) -> (r: bool)
        ensures
            r == all_zero(self@),
    {
        self.signum() == 0
    }

    /// Whether the span is negative.
    pub fn is_negative(&self) -> (r: bool)
        ensures
            r == any_negative(self@),
    {
        self.signum() < 0
    }

    /// Whether the span is positive: not zero and not negative.
    pub fn is_positive(&self) -> (r: bool)
        ensures
            r == (!all_zero(self@) && !any_negative(self@)),
    {
        self.signum() > 0
    }

    /// Field-by-field equality (`==` on spans, `jiff`'s `fieldwise`).
    pub fn eq_fields(&self, other: &RySpan) -> (r: bool)
        ensures
            r == (self@ == other@),
    {
        let a = self.fields();
        let b = other.fields();
        let mut i: usize = 0;
        while i < 10
            invariant
                i <= 10,
                a@.len() == 10,
                b@.len() == 10,
                ints(a@) == self@,
                ints(b@) == other@,
                forall|t: int| 0 <= t < i ==> a@[t] == b@[t],
            decreases 10 - i,
        {
            if a[i] != b[i] {
                proof {
                    let x = ints(a@);
                    let y = ints(b@);
                    assert(x[i as int] != y[i as int]);
                    assert(self@[i as int] != other@[i as int]);
                }
                return false;
            }
            i = i + 1;
        }
        assert(a@ =~= b@);
        true
    }

    /// The span multiplied by `k`, as `jiff`'s `Span::checked_mul` does
    /// (`span * k`, `mul`); fails when a product leaves its unit's range or
    /// `k` is `i64::MIN`.
    pub fn mul(&self, k: i64) -> (r: Result<RySpan, SpanError>)
        ensures
            r is Ok <==> mul_ok(self@, k as int),
            r matches Ok(s) ==> s@ == scaled(self@, k as int),
            r matches Err(e) ==> e == SpanError::Overflow,
    {
        let f = self.fields();
        let ghost fs = self@;
        if k == i64::MIN {
            return Err(SpanError::Overflow);
        }
        let mut out: [i64; 10] = [0i64; 10];
        let mut i: usize = 0;
        while i < 10
            invariant
                i <= 10,
                k != i64::MIN,
                fs == ints(f@),
                fs == self@,
                span_ok(fs),
                out@.len() == 10,
                forall|t: int| 0 <= t < i ==> out@[t] as int == #[trigger] scaled(fs, k as int)[t],
                forall|t: int| 0 <= t < i ==> abs(#[trigger] scaled(fs, k as int)[t]) <= span_unit_max(t),
            decreases 10 - i,
        {
            let m = unit_max(i);
            proof {
                assert(fs[i as int] == f@[i as int] as int);
                assert(abs(fs[i as int]) <= span_unit_max(i as int));
                lemma_product_bound(f[i as int] as int, k as int);
            }
            let p: i128 = f[i] as i128 * k as i128;
            if p < -(m as i128) || p > m as i128 {
                proof {
                    assert(scaled(fs, k as int)[i as int] == p as int);
                    assert(abs(scaled(fs, k as int)[i as int]) > span_unit_max(i as int));
                    assert(!span_in_range(scaled(fs, k as int)));
                }
                return Err(SpanError::Overflow);
            }
            out[i] = p as i64;
            i = i + 1;
        }
        proof {
            let rs = ints(out@);
            let sc = scaled(fs, k as int);
            assert forall|t: int| 0 <= t < 10 implies #[trigger] rs[t] == sc[t] by {
                assert(out@[t] as int == sc[t]);
            }
            assert(rs =~= sc);
            assert forall|p: int, q: int| 0 <= p < 10 && 0 <= q < 10 implies !(#[trigger] rs[p] > 0
                && #[trigger] rs[q] < 0) by {
                assert(rs[p] == fs[p] * k);
                assert(rs[q] == fs[q] * k);
                assert(!(fs[p] > 0 && fs[q] < 0));
                assert(!(fs[q] > 0 && fs[p] < 0));
                lemma_product_sign(fs[p], k as int);
                lemma_product_sign(fs[q], k as int);
            }
        }
        let r = RySpan { fields: out };
        Ok(r)
    }

    /// The short repr, `TimeSpan(years=1, days=2)`: the non-zero fields in
    /// unit order (`repr(span)`).
    pub fn repr(&self) -> (r: String)
        ensures
            r@ == span_repr_text(self@),
    {
        let f = self.fields();
        let mut out = String::new();
        push_head(&mut out);
        let ghost head = out@;
        let mut any = false;
        let mut i: usize = 0;
        while i < 10
            invariant
                i <= 10,
                ints(f@) == self@,
                head == seq!['T', 'i', 'm', 'e', 'S', 'p', 'a', 'n', '('],
                out@ == head + nonzero_items(self@, i as nat),
                any == (nonzero_items(self@, i as nat).len() != 0),
            decreases 10 - i,
        {
            proof {
                assert(self@[i as int] == f@[i as int] as int);
            }
            if f[i] != 0 {
                if any {
                    push_sep(&mut out);
                }
                push_field_item(&mut out, &f, i);
                any = true;
            }
            i = i + 1;
            proof {
                assert(out@ =~= head + nonzero_items(self@, i as nat));
            }
        }
        push_char(&mut out, ')');
        assert(out@ =~= span_repr_text(self@));
        out
    }

    /// The full repr, every field in unit order (`repr_full`).
    pub fn repr_full(&self) -> (r: String)
        ensures
            r@ == span_repr_full_text(self@),
    {
        let f = self.fields();
        let mut out = String::new();
        push_head(&mut out);
        let ghost head = out@;
        let mut i: usize = 0;
        while i < 10
            invariant
                i <= 10,
                ints(f@) == self@,
                head == seq!['T', 'i', 'm', 'e', 'S', 'p', 'a', 'n', '('],
                out@ == head + all_items(self@, i as nat),
            decreases 10 - i,
        {
            if i > 0 {
                push_sep(&mut out);
            }
            push_field_item(&mut out, &f, i);
            i = i + 1;
            proof {
                assert(out@ =~= head + all_items(self@, i as nat));
            }
        }
        push_char(&mut out, ')');
        assert(out@ =~= span_repr_full_text(self@));
        out
    }

    /// The span printed by `jiff`: ISO 8601 (`to_string`, `isoformat`,
    /// `str(span)`), or its friendly format (`to_string(friendly=True)`,
    /// `friendly`).
    pub fn to_string(&self, friendly: bool) -> (r: String)
        ensures
            !friendly ==> r@ == jiff_span_text(self@),
            friendly ==> r@ == jiff_span_friendly_text(self@),
    {
        if friendly {
            jiff_span_to_friendly(self)
        } else {
            jiff_span_to_string(self)
        }
    }

    /// Parses a span as `jiff` does (`from_str`, `parse`); `None` where
    /// `jiff` refuses the text (Python's `ValueError`).
    pub fn from_str(t: &str) -> (r: Option<RySpan>)
        ensures
            r is None <==> jiff_span_parse(t@) is None,
            r matches Some(s) ==> jiff_span_parse(t@) == Some(s@),
    {
        jiff_span_from_str(t)
    }

    /// Replaces the given fields and rebuilds the span from all ten values
    /// as the constructor does (`replace`).
    pub fn replace(
        &self,
        years: Option<i64>,
        months: Option<i64>,
        weeks: Option<i64>,
        days: Option<i64>,
        hours: Option<i64>,
        minutes: Option<i64>,
        seconds: Option<i64>,
        milliseconds: Option<i64>,
        microseconds: Option<i64>,
        nanoseconds: Option<i64>,
    ) -> (r: Result<RySpan, SpanError>)
        ensures
            ({
                let x = replaced(
                    self@,
                    seq![years, months, weeks, days, hours, minutes, seconds, milliseconds,
                        microseconds, nanoseconds],
                );
                &&& (r is Ok <==> span_in_range(x))
                &&& (r matches Ok(s) ==> s@ == span_build(x, 10))
                &&& (r matches Err(SpanError::OutOfRange(u)) ==> first_out_of_range(x) matches Some(i)
                    && unit_from_number(i) == Some(u))
            }),
    {
        let f = self.fields();
        let x: [i64; 10] = [
            match years { Some(v) => v, None => f[0] },
            match months { Some(v) => v, None => f[1] },
            match weeks { Some(v) => v, None => f[2] },
            match days { Some(v) => v, None => f[3] },
            match hours { Some(v) => v, None => f[4] },
            match minutes { Some(v) => v, None => f[5] },
            match seconds { Some(v) => v, None => f[6] },
            match milliseconds { Some(v) => v, None => f[7] },
            match microseconds { Some(v) => v, None => f[8] },
            match nanoseconds { Some(v) => v, None => f[9] },
        ];
        proof {
            let xs = replaced(
                self@,
                seq![years, months, weeks, days, hours, minutes, seconds, milliseconds,
                    microseconds, nanoseconds],
            );
            assert forall|t: int| 0 <= t < 10 implies #[trigger] ints(x@)[t] == xs[t] by {
                assert(self@[t] == f@[t] as int);
            }
            assert(ints(x@) =~= xs);
        }
        span_from_parts(x)
    }

    /// Compares two spans without a relative date, as `jiff`'s
    /// `Span::compare` does (`compare(other)`,
    /// `compare(other, days_are_24_hours=True)`): -1, 0 or 1 by their fixed
    /// lengths; fails when a unit needs a relative date.
    pub fn compare(&self, other: &RySpan, days_are_24_hours: bool) -> (r: Result<i8, SpanError>)
        ensures
            r matches Ok(c) ==> compare_result(self@, other@, days_are_24_hours) == Ok::<int, SpanError>(c as int),
            r matches Err(e) ==> compare_result(self@, other@, days_are_24_hours) == Err::<int, SpanError>(e),
    {
        let k: usize = if days_are_24_hours { 2 } else { 4 };
        let a = self.fields();
        let b = other.fields();
        let mut i: usize = 0;
        while i < k
            invariant
                i <= k,
                k == (if days_are_24_hours { 2usize } else { 4usize }),
                ints(a@) == self@,
                ints(b@) == other@,
                zero_below(self@, i as int),
                zero_below(other@, i as int),
            decreases k - i,
        {
            proof {
                assert(self@[i as int] == a@[i as int] as int);
                assert(other@[i as int] == b@[i as int] as int);
                lemma_zero_below_step(self@, i as int);
                lemma_zero_below_step(other@, i as int);
            }
            if a[i] != 0 || b[i] != 0 {
                proof {
                    if a[i as int] != 0 {
                        assert(!zero_below(self@, k as int));
                    } else {
                        assert(!zero_below(other@, k as int));
                    }
                }
                return Err(SpanError::NeedsRelative);
            }
            i = i + 1;
        }
        let x = fixed_nanos_of(&a);
        let y = fixed_nanos_of(&b);
        if x < y { Ok(-1) } else if x == y { Ok(0) } else { Ok(1) }
    }

    /// Sets one unit field as `jiff`'s `try_*` setters do (the `_years` ..
    /// `_nanoseconds` methods); fails when the value is outside the unit's
    /// range.
    pub fn try_set(&self, u: JiffUnit, v: i64) -> (r: Result<RySpan, SpanError>)
        ensures
            r is Ok <==> abs(v as int) <= span_unit_max(unit_number(u)),
            r matches Ok(s) ==> s@ == span_set(self@, unit_number(u), v as int),
            r matches Err(e) ==> e == SpanError::OutOfRange(u),
    {
        let f = self.fields();
        let i = index_of(u);
        let m = unit_max(i);
        if v < -m || v > m {
            return Err(SpanError::OutOfRange(u));
        }
        let ghost fs = self@;
        let ghost ii = i as int;
        let ghost ms = set_mags(fs, ii, v as int);
        let a = if v < 0 { -v } else { v };
        let mut mags: [i64; 10] = [0i64; 10];
        let mut zero_new = true;
        let mut zero_old = true;
        let mut neg_old = false;
        let mut j: usize = 0;
        while j < 10
            invariant
                j <= 10,
                i < 10,
                fs == ints(f@),
                span_ok(fs),
                ms == set_mags(fs, ii, v as int),
                a as int == abs(v as int),
                a as int <= span_unit_max(ii),
                ii == i as int,
                mags@.len() == 10,
                forall|t: int| 0 <= t < j ==> mags@[t] as int == #[trigger] ms[t],
                forall|t: int| 0 <= t < j ==> 0 <= #[trigger] mags@[t],
                zero_new == zero_below(ms, j as int),
                zero_old == zero_below(fs, j as int),
                neg_old == some_negative_below(fs, j as int),
            decreases 10 - j,
        {
            let x = f[j];
            proof {
                assert(fs[j as int] == f@[j as int] as int);
                assert(abs(fs[j as int]) <= span_unit_max(j as int));
                lemma_zero_below_step(ms, j as int);
                lemma_zero_below_step(fs, j as int);
                lemma_negative_below_step(fs, j as int);
            }
            let mg = if j == i { a } else if x < 0 { -x } else { x };
            mags[j] = mg;
            if mg != 0 {
                zero_new = false;
            }
            if x != 0 {
                zero_old = false;
            }
            if x < 0 {
                neg_old = true;
            }
            j = j + 1;
        }
        let sg: i64 = if v < 0 {
            -1
        } else if zero_new {
            0
        } else if zero_old {
            1
        } else if neg_old {
            -1
        } else {
            1
        };
        assert(sg as int == set_sign(fs, ii, v as int));
        let mut out: [i64; 10] = [0i64; 10];
        let mut k: usize = 0;
        while k < 10
            invariant
                k <= 10,
                -1 <= sg <= 1,
                mags@.len() == 10,
                out@.len() == 10,
                forall|t: int| 0 <= t < 10 ==> mags@[t] as int == #[trigger] ms[t],
                forall|t: int| 0 <= t < 10 ==> 0 <= #[trigger] mags@[t],
                forall|t: int| 0 <= t < k ==> out@[t] as int == #[trigger] signed_fields(ms, sg as int)[t],
            decreases 10 - k,
        {
            let mg = mags[k];
            proof {
                assert(ms[k as int] == mags@[k as int]);
            }
            out[k] = if sg < 0 { -mg } else if sg == 0 { 0 } else { mg };
            k = k + 1;
        }
        proof {
            let rs = ints(out@);
            assert forall|t: int| 0 <= t < 10 implies #[trigger] rs[t] == span_set(fs, ii, v as int)[t] by {
                assert(out@[t] as int == signed_fields(ms, sg as int)[t]);
            }
            assert(rs =~= span_set(fs, ii, v as int));
            assert forall|t: int| 0 <= t < 10 implies abs(#[trigger] rs[t]) <= span_unit_max(t) by {
                assert(out@[t] as int == signed_fields(ms, sg as int)[t]);
                if t != ii {
                    assert(abs(fs[t]) <= span_unit_max(t));
                }
            }
            assert forall|p: int, q: int| 0 <= p < 10 && 0 <= q < 10 implies !(#[trigger] rs[p] > 0
                && #[trigger] rs[q] < 0) by {
                assert(out@[p] as int == signed_fields(ms, sg as int)[p]);
                assert(out@[q] as int == signed_fields(ms, sg as int)[q]);
                assert(ms[p] >= 0 && ms[q] >= 0);
            }
        }
        let res = RySpan { fields: out };
        assert(res@ =~= span_set(fs, ii, v as int));
        Ok(res)
    }
}

/// Negating a span twice gives it back.
pub proof fn lemma_negate_involutive(f: Seq<int>)
    requires
        f.len() == 10,
    ensures
        negated(negated(f)) == f,
{
    assert(negated(negated(f)) =~= f);
}

/// Multiplying a span by 1 gives it back, by 0 gives the zero span, and by
/// -1 gives its negation; all three succeed.
pub proof fn lemma_mul_identities(f: Seq<int>)
    requires
        span_ok(f),
    ensures
        mul_ok(f, 1) && scaled(f, 1) == f,
        mul_ok(f, 0) && scaled(f, 0) == zero_fields(),
        mul_ok(f, -1) && scaled(f, -1) == negated(f),
{
    assert(scaled(f, 1) =~= f);
    assert(scaled(f, 0) =~= zero_fields());
    assert(scaled(f, -1) =~= negated(f));
    assert forall|i: int| 0 <= i < 10 implies abs(#[trigger] scaled(f, -1)[i]) <= span_unit_max(i) by {
        assert(abs(f[i]) <= span_unit_max(i));
    }
    assert forall|i: int| 0 <= i < 10 implies abs(#[trigger] scaled(f, 0)[i]) <= span_unit_max(i) by {}
    assert forall|i: int| 0 <= i < 10 implies abs(#[trigger] scaled(f, 1)[i]) <= span_unit_max(i) by {
        assert(abs(f[i]) <= span_unit_max(i));
    }
}

/// Building a span from the fields of a span gives that span back: the
/// constructor on a span's own fields, and `replace` with nothing given,
/// return the span unchanged.
pub proof fn lemma_build_own_fields(f: Seq<int>)
    requires
        span_ok(f),
    ensures
        span_in_range(f),
        span_build(f, 10) == f,
        replaced(f, seq![None::<i64>, None, None, None, None, None, None, None, None, None]) == f,
{
    lemma_build_closed(f, 10);
    let c = span_build_closed(f, 10);
    assert forall|i: int| 0 <= i < 10 implies #[trigger] c[i] == f[i] by {
        if some_negative_below(f, 10) {
            let w = choose|j: int| 0 <= j < 10 && #[trigger] f[j] < 0;
            assert(!(f[i] > 0 && f[w] < 0));
        }
    }
    assert(c =~= f);
    let n = seq![None::<i64>, None, None, None, None, None, None, None, None, None];
    assert(replaced(f, n) =~= f);
}

/// Comparing two spans one way round gives the opposite of comparing them
/// the other way round, and a span compares equal to itself when it can be
/// compared at all.
pub proof fn lemma_compare_antisymmetric(a: Seq<int>, b: Seq<int>, days_are_24_hours: bool)
    ensures
        compare_result(a, b, days_are_24_hours) matches Ok(c) ==> compare_result(b, a, days_are_24_hours) == Ok::<int, SpanError>(-c),
        compare_result(a, b, days_are_24_hours) is Err <==> compare_result(b, a, days_are_24_hours) is Err,
        compare_result(a, a, days_are_24_hours) is Ok ==> compare_result(a, a, days_are_24_hours) == Ok::<int, SpanError>(0),
{
}

/// The sign of a negated span is the opposite sign, and its magnitudes are
/// the same.
pub proof fn lemma_negate_sign(f: Seq<int>)
    requires
        span_ok(f),
    ensures
        span_sign(negated(f)) == -span_sign(f),
        magnitudes(negated(f)) == magnitudes(f),
{
    let g = negated(f);
    assert(magnitudes(g) =~= magnitudes(f));
    if any_negative(f) {
        let w = choose|j: int| 0 <= j < 10 && #[trigger] f[j] < 0;
        assert(g[w] > 0);
        assert(!any_negative(g)) by {
            if any_negative(g) {
                let v = choose|j: int| 0 <= j < 10 && #[trigger] g[j] < 0;
                assert(f[v] > 0 && f[w] < 0);
            }
        }
        assert(!all_zero(g)) by {
            assert(g[w] != 0);
        }
    } else if all_zero(f) {
        assert(all_zero(g)) by {
            assert forall|i: int| 0 <= i < 10 implies #[trigger] g[i] == 0 by {
                assert(f[i] == 0);
            }
        }
        assert(!any_negative(g)) by {
            if any_negative(g) {
                let v = choose|j: int| 0 <= j < 10 && #[trigger] g[j] < 0;
                assert(f[v] == 0);
            }
        }
    } else {
        let w = choose|j: int| 0 <= j < 10 && !(#[trigger] f[j] == 0);
        assert(f[w] > 0) by {
            if f[w] < 0 {
                assert(any_negative(f));
            }
        }
        assert(g[w] < 0);
        assert(any_negative(g));
    }
}

/// Setting one unit field of a valid span to `v` (`_years` .. `_nanoseconds`,
/// `replace`) gives the span with that field set and every other field
/// keeping its signed value, with the one sign a span carries: zero leaves
/// the rest of the span as it was (so a span that stays non-zero keeps its
/// sign), a positive value on a negative span is taken as negative, and a
/// negative value makes the whole span negative.
pub proof fn lemma_span_set_fields(f: Seq<int>, i: int, v: int)
    requires
        span_ok(f),
        0 <= i < 10,
    ensures
        v == 0 ==> span_set(f, i, v) == f.update(i, 0),
        v == 0 && !all_zero(span_set(f, i, v)) ==> span_sign(span_set(f, i, v)) == span_sign(f),
        v > 0 && span_sign(f) >= 0 ==> span_set(f, i, v) == f.update(i, v),
        v > 0 && span_sign(f) < 0 ==> span_set(f, i, v) == f.update(i, -v),
        v < 0 && span_sign(f) <= 0 ==> span_set(f, i, v) == f.update(i, v),
        v < 0 && span_sign(f) > 0 ==> span_set(f, i, v) == negated(f).update(i, v),
{
    let r = span_set(f, i, v);
    let ms = set_mags(f, i, v);
    if any_negative(f) {
        let w = choose|k: int| 0 <= k < 10 && #[trigger] f[k] < 0;
        assert forall|j: int| 0 <= j < 10 implies #[trigger] f[j] <= 0 by {
            if f[j] > 0 {
                assert(!(f[j] > 0 && f[w] < 0));
            }
        }
        assert(!all_zero(f)) by {
            assert(f[w] != 0);
        }
    } else {
        assert forall|j: int| 0 <= j < 10 implies #[trigger] f[j] >= 0 by {
            if f[j] < 0 {
                assert(some_negative_below(f, 10));
            }
        }
    }
    if v == 0 {
        if all_zero(ms) {
            assert forall|j: int| 0 <= j < 10 && j != i implies #[trigger] f[j] == 0 by {
                assert(ms[j] == 0);
            }
        } else if all_zero(f) {
            let w = choose|k: int| 0 <= k < 10 && !(#[trigger] ms[k] == 0);
            assert(f[w] == 0);
        }
        assert(r =~= f.update(i, 0));
        if !all_zero(r) {
            if any_negative(f) {
                let w = choose|k: int| 0 <= k < 10 && !(#[trigger] r[k] == 0);
                assert(r[w] < 0);
                assert(some_negative_below(r, 10));
            } else {
                assert forall|j: int| 0 <= j < 10 implies !(#[trigger] r[j] < 0) by {}
                assert(!some_negative_below(r, 10));
            }
        }
    } else {
        assert(!all_zero(ms)) by {
            assert(ms[i] != 0);
        }
        if v > 0 && span_sign(f) >= 0 {
            assert(r =~= f.update(i, v));
        } else if v > 0 {
            assert(r =~= f.update(i, -v));
        } else if span_sign(f) <= 0 {
            assert(r =~= f.update(i, v));
        } else {
            assert(r =~= negated(f).update(i, v));
        }
    }
}

} // verus!
