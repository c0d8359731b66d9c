//! Signed durations of seconds and nanoseconds: construction (also from the
//! parts of a Python `timedelta`), checked arithmetic, the derived getters
//! and the repr.
use vstd::prelude::*;
use crate::compare::{CompareOp, apply_op, op_holds, int_sign_of_diff};
use crate::text::{int_text, push_char, push_i64, push_str};

verus! {

/// Nanoseconds per second.
pub const NANOS_PER_SEC: i64 = 1_000_000_000;

/// Division truncated toward zero (Rust's `/` on signed integers).
pub open spec fn tdiv(a: int, d: int) -> int {
    if (a >= 0) == (d > 0) || a == 0 {
        if a >= 0 && d > 0 { a / d }
        else if a <= 0 && d < 0 { (-a) / (-d) }
        else { 0 }
    } else if a < 0 {
        -((-a) / d)
    } else {
        -(a / (-d))
    }
}

/// Remainder of truncated division (Rust's `%` on signed integers).
pub open spec fn trem(a: int, d: int) -> int {
    a - tdiv(a, d) * d
}

/// The smallest total, in nanoseconds, that a signed duration can hold.
pub open spec fn sd_min() -> int {
    (i64::MIN as int) * 1_000_000_000 - 999_999_999
}

/// The largest total, in nanoseconds, that a signed duration can hold.
pub open spec fn sd_max() -> int {
    (i64::MAX as int) * 1_000_000_000 + 999_999_999
}

/// Whether a total of `t` nanoseconds fits a signed duration.
pub open spec fn sd_range(t: int) -> bool {
    sd_min() <= t <= sd_max()
}

/// Whether `(secs, nanos)` is in the normal form of a signed duration:
/// `|nanos|` below one second and the two parts never of opposite signs.
pub open spec fn sd_normal(secs: int, nanos: int) -> bool {
    &&& -1_000_000_000 < nanos < 1_000_000_000
    &&& (secs == 0 || nanos == 0 || (secs > 0) == (nanos > 0))
}

/// Why a signed duration could not be made or computed.
#[derive(Clone, Copy, Debug, PartialEq, Eq, Structural)]
pub enum DurationError {
    /// The result does not fit a signed duration (Python's `OverflowError`).
    Overflow,
    /// Division by zero (Python's `ZeroDivisionError`).
    DivideByZero,
    /// The negation does not exist (Python's `ValueError`).
    NoNegation,
}

/// A signed span of exact time: whole seconds plus nanoseconds.
#[derive(Clone, Copy, Debug, PartialEq, Eq, Structural, Hash)]
pub struct RySignedDuration {
    secs: i64,
    nanos: i32,
}

impl View for RySignedDuration {
    type V = int;

    /// The total number of nanoseconds.
    closed spec fn view(&self) -> int {
        self.secs as int * 1_000_000_000 + self.nanos as int
    }
}

/// The whole seconds of a total of `t` nanoseconds (truncated toward zero).
pub open spec fn sd_secs(t: int) -> int {
    tdiv(t, 1_000_000_000)
}

/// The nanoseconds of a total of `t` left after its whole seconds.
pub open spec fn sd_nanos(t: int) -> int {
    trem(t, 1_000_000_000)
}

/// The repr text `SignedDuration(secs=S, nanos=N)`.
pub open spec fn sd_repr_text(t: int) -> Seq<char> {
    seq!['S', 'i', 'g', 'n', 'e', 'd', 'D', 'u', 'r', 'a', 't', 'i', 'o', 'n', '(', 's', 'e',
        'c', 's', '='] + int_text(sd_secs(t)) + seq![',', ' ', 'n', 'a', 'n', 'o', 's', '=']
        + int_text(sd_nanos(t)) + seq![')']
}

/// The text that `jiff` prints for a signed duration of `t` nanoseconds.
pub uninterp spec fn jiff_duration_text(t: int) -> Seq<char>;

/// The normal form of a total determines the parts: the whole seconds are the
/// truncated quotient and the nanoseconds the remainder.
pub(crate) proof fn lemma_normal_parts(secs: int, nanos: int)
    requires
        sd_normal(secs, nanos),
    ensures
        sd_secs(secs * 1_000_000_000 + nanos) == secs,
        sd_nanos(secs * 1_000_000_000 + nanos) == nanos,
{
    let t = secs * 1_000_000_000 + nanos;
    if secs > 0 || (secs == 0 && nanos >= 0) {
        assert(t >= 0);
        assert(t / 1_000_000_000 == secs);
    } else {
        assert(t <= 0);
        assert((-t) / 1_000_000_000 == -secs);
    }
}

/// Each total in range has exactly one normal form, holding `i64`/`i32` parts.
pub(crate) proof fn lemma_normal_of_total(t: int)
    requires
        sd_range(t),
    ensures
        sd_normal(sd_secs(t), sd_nanos(t)),
        sd_secs(t) * 1_000_000_000 + sd_nanos(t) == t,
        i64::MIN <= sd_secs(t) <= i64::MAX,
{
    if t >= 0 {
        assert(sd_secs(t) == t / 1_000_000_000);
    } else {
        assert(sd_secs(t) == -((-t) / 1_000_000_000));
    }
}

/// Builds a duration with `jiff::SignedDuration::new`, which carries
/// nanoseconds beyond a second into the seconds and balances the signs of the
/// two parts, keeping the total; it panics only when that carry overflows the
/// seconds, which `requires` leaves out.
#[verifier::external_body]
fn jiff_sd_new(secs: i64, nanos: i32) -> (r: RySignedDuration)
    requires
        i64::MIN <= secs + tdiv(nanos as int, 1_000_000_000) <= i64::MAX,
    ensures
        r@ == secs * 1_000_000_000 + nanos,
{
    let d = jiff::SignedDuration::new(secs, nanos);
    RySignedDuration { secs: d.as_secs(), nanos: d.subsec_nanos() }
}

/// Whether a total in nanoseconds fits a signed duration, checked on an
/// `i128`.
fn fits(t: i128) -> (r: bool)
    ensures
        r == sd_range(t as int),
{
    -9_223_372_036_854_775_808_999_999_999i128 <= t && t <= 9_223_372_036_854_775_807_999_999_999i128
}

/// The sum of the totals, or `None` when it does not fit, as
/// `jiff::SignedDuration::checked_add` gives it.
fn sd_checked_add(a: RySignedDuration, b: RySignedDuration) -> (r: Option<RySignedDuration>)
    ensures
        r is Some <==> sd_range(a@ + b@),
        r matches Some(d) ==> d@ == a@ + b@,
{
    let t = a.as_nanos() + b.as_nanos();
    if fits(t) { Some(RySignedDuration::from_total(t)) } else { None }
}

/// The negated total, or `None` when it does not fit, as
/// `jiff::SignedDuration::checked_neg` gives it.
fn sd_checked_neg(a: RySignedDuration) -> (r: Option<RySignedDuration>)
    ensures
        r is Some <==> sd_range(-a@),
        r matches Some(d) ==> d@ == -a@,
{
    let t = -a.as_nanos();
    if fits(t) { Some(RySignedDuration::from_total(t)) } else { None }
}

/// The difference of the totals, as `jiff::SignedDuration::checked_sub`
/// gives it: it negates the right side first, so `None` when that
/// negation or the difference does not fit.
fn sd_checked_sub(a: RySignedDuration, b: RySignedDuration) -> (r: Option<RySignedDuration>)
    ensures
        r is Some <==> (sd_range(-b@) && sd_range(a@ - b@)),
        r matches Some(d) ==> d@ == a@ - b@,
{
    let nb = -b.as_nanos();
    let t = a.as_nanos() + nb;
    if fits(nb) && fits(t) { Some(RySignedDuration::from_total(t)) } else { None }
}

/// The total times `k`, or `None` when it does not fit, as
/// `jiff::SignedDuration::checked_mul` gives it.
fn sd_checked_mul(a: RySignedDuration, k: i32) -> (r: Option<RySignedDuration>)
    ensures
        r is Some <==> sd_range(a@ * k),
        r matches Some(d) ==> d@ == a@ * k,
{
    let x = a.as_nanos();
    assert(-20_000_000_000_000_000_000_000_000_000_000_000_000 <= x * k <= 20_000_000_000_000_000_000_000_000_000_000_000_000)
        by (nonlinear_arith)
        requires
            -9_223_372_036_854_775_808_999_999_999 <= x <= 9_223_372_036_854_775_807_999_999_999,
            -2_147_483_648 <= k <= 2_147_483_647,
    ;
    let t = x * (k as i128);
    if fits(t) { Some(RySignedDuration::from_total(t)) } else { None }
}

/// The total divided by `k`, truncated toward zero, or `None` when `k` is
/// zero or the quotient does not fit, as `jiff::SignedDuration::checked_div`
/// gives it.
fn sd_checked_div(a: RySignedDuration, k: i32) -> (r: Option<RySignedDuration>)
    ensures
        r is Some <==> (k != 0 && sd_range(tdiv(a@, k as int))),
        r matches Some(d) ==> d@ == tdiv(a@, k as int),
{
    if k == 0 {
        return None;
    }
    let x = a.as_nanos();
    let kk = k as i128;
    let ax: i128 = if x < 0 { -x } else { x };
    let ak: i128 = if kk < 0 { -kk } else { kk };
    let q = ax / ak;
    let t = if (x < 0) != (kk < 0) { -q } else { q };
    if fits(t) { Some(RySignedDuration::from_total(t)) } else { None }
}

/// The text of `jiff::SignedDuration`'s `Display`; its result is named, a
/// function of the duration alone.
#[verifier::external_body]
fn jiff_sd_to_string(a: RySignedDuration) -> (r: String)
    ensures
        r@ == jiff_duration_text(a@),
{
    jiff::SignedDuration::new(a.secs, a.nanos).to_string()
}

impl RySignedDuration {
    #[verifier::type_invariant]
    spec fn inv(self) -> bool {
        sd_normal(self.secs as int, self.nanos as int)
    }

    /// Every duration holds a total in range, and its parts are the
    /// truncated quotient and remainder of that total by one second.
    pub fn parts(&self) -> (r: (i64, i32))
        ensures
            sd_range(self@),
            r.0 as int == sd_secs(self@),
            r.1 as int == sd_nanos(self@),
            sd_normal(r.0 as int, r.1 as int),
    {
        proof {
            use_type_invariant(self);
            lemma_normal_parts(self.secs as int, self.nanos as int);
        }
        (self.secs, self.nanos)
    }

    /// The duration of a total in range, given in nanoseconds.
    pub(crate) fn from_total(t: i128) -> (r: RySignedDuration)
        requires
            sd_range(t as int),
        ensures
            r@ == t as int,
    {
        proof {
            lemma_normal_of_total(t as int);
        }
        let secs = (t / 1_000_000_000) as i64;
        let nanos = (t % 1_000_000_000) as i32;
        RySignedDuration { secs, nanos }
    }

    /// The duration of parts already in normal form.
    pub(crate) fn from_normal_parts(secs: i64, nanos: i32) -> (r: RySignedDuration)
        requires
            sd_normal(secs as int, nanos as int),
        ensures
            r@ == secs * 1_000_000_000 + nanos,
    {
        RySignedDuration { secs, nanos }
    }

    /// The duration of `secs` seconds plus `nanos` nanoseconds, nanoseconds
    /// beyond a second carried into the seconds; fails with `Overflow` when
    /// that carry overflows the seconds.
    pub fn py_new(secs: i64, nanos: i32) -> (r: Result<RySignedDuration, DurationError>)
        ensures
            r is Ok <==> i64::MIN <= secs + tdiv(nanos as int, 1_000_000_000) <= i64::MAX,
            r matches Ok(d) ==> d@ == secs * 1_000_000_000 + nanos,
            r matches Err(e) ==> e == DurationError::Overflow,
    {
        if !(-1_000_000_000i32 < nanos && nanos < 1_000_000_000i32) {
            let addsecs = nanos / 1_000_000_000i32;
            if addsecs > 0 && secs > i64::MAX - (addsecs as i64) {
                return Err(DurationError::Overflow);
            }
            if addsecs < 0 && secs < i64::MIN - (addsecs as i64) {
                return Err(DurationError::Overflow);
            }
        }
        Ok(jiff_sd_new(secs, nanos))
    }

    /// The zero duration.
    #[allow(non_snake_case)]
    pub fn ZERO() -> (r: RySignedDuration)
        ensures
            r@ == 0,
    {
        RySignedDuration { secs: 0, nanos: 0 }
    }

    /// The largest duration.
    #[allow(non_snake_case)]
    pub fn MAX() -> (r: RySignedDuration)
        ensures
            r@ == sd_max(),
    {
        RySignedDuration { secs: i64::MAX, nanos: 999_999_999 }
    }

    /// The smallest duration.
    #[allow(non_snake_case)]
    pub fn MIN() -> (r: RySignedDuration)
        ensures
            r@ == sd_min(),
    {
        RySignedDuration { secs: i64::MIN, nanos: -999_999_999 }
    }

    /// The duration of `secs` whole seconds.
    pub fn from_secs(secs: i64) -> (r: RySignedDuration)
        ensures
            r@ == secs * 1_000_000_000,
    {
        RySignedDuration { secs, nanos: 0 }
    }

    /// The duration of `millis` milliseconds.
    pub fn from_millis(millis: i64) -> (r: RySignedDuration)
        ensures
            r@ == millis * 1_000_000,
    {
        let secs = millis / 1000;
        let nanos = ((millis % 1000) * 1_000_000) as i32;
        proof {
            lemma_normal_parts(secs as int, nanos as int);
        }
        RySignedDuration { secs, nanos }
    }

    /// The duration of `micros` microseconds.
    pub fn from_micros(micros: i64) -> (r: RySignedDuration)
        ensures
            r@ == micros * 1_000,
    {
        let secs = micros / 1_000_000;
        let nanos = ((micros % 1_000_000) * 1_000) as i32;
        RySignedDuration { secs, nanos }
    }

    /// The duration of `nanos` nanoseconds.
    pub fn from_nanos(nanos: i64) -> (r: RySignedDuration)
        ensures
            r@ == nanos as int,
    {
        let secs = nanos / 1_000_000_000;
        let n = (nanos % 1_000_000_000) as i32;
        RySignedDuration { secs, nanos: n }
    }

    /// The duration of `hours` hours; fails with `Overflow` outside
    /// `i64::MIN / 3600 ..= i64::MAX / 3600`.
    pub fn from_hours(hours: i64) -> (r: Result<RySignedDuration, DurationError>)
        ensures
            r is Ok <==> tdiv(i64::MIN as int, 3600) <= hours <= tdiv(i64::MAX as int, 3600),
            r matches Ok(d) ==> d@ == hours * 3600 * 1_000_000_000,
            r matches Err(e) ==> e == DurationError::Overflow,
    {
        let lo: i64 = i64::MIN / 3600;
        let hi: i64 = i64::MAX / 3600;
        if lo <= hours && hours <= hi {
            Ok(RySignedDuration { secs: hours * 3600, nanos: 0 })
        } else {
            Err(DurationError::Overflow)
        }
    }

    /// The duration of `mins` minutes; fails with `Overflow` outside
    /// `i64::MIN / 60 ..= i64::MAX / 60`.
    pub fn from_mins(mins: i64) -> (r: Result<RySignedDuration, DurationError>)
        ensures
            r is Ok <==> tdiv(i64::MIN as int, 60) <= mins <= tdiv(i64::MAX as int, 60),
            r matches Ok(d) ==> d@ == mins * 60 * 1_000_000_000,
            r matches Err(e) ==> e == DurationError::Overflow,
    {
        let lo: i64 = i64::MIN / 60;
        let hi: i64 = i64::MAX / 60;
        if lo <= mins && mins <= hi {
            Ok(RySignedDuration { secs: mins * 60, nanos: 0 })
        } else {
            Err(DurationError::Overflow)
        }
    }

    /// The duration of a Python `timedelta` given by its normalized parts:
    /// `days * 86400 + seconds` seconds plus `microseconds * 1000`
    /// nanoseconds; fails with `Overflow` when either product or the sum
    /// overflows.
    pub fn from_timedelta_parts(days: i64, seconds: i64, microseconds: i32) -> (r: Result<
        RySignedDuration,
        DurationError,
    >)
        requires
            0 <= seconds < 86400,
            0 <= microseconds < 1_000_000,
        ensures
            r is Ok <==> i64::MIN <= days * 86400 <= i64::MAX && i64::MIN <= days * 86400
                + seconds <= i64::MAX,
            r matches Ok(d) ==> d@ == (days * 86400 + seconds) * 1_000_000_000 + microseconds
                * 1000,
            r matches Err(e) ==> e == DurationError::Overflow,
    {
        let total = match days.checked_mul(86400) {
            Some(d) => match d.checked_add(seconds) {
                Some(t) => t,
                None => return Err(DurationError::Overflow),
            },
            None => return Err(DurationError::Overflow),
        };
        let nanos = microseconds * 1000;
        Ok(jiff_sd_new(total, nanos))
    }

    /// The whole seconds, truncated toward zero.
    pub fn secs(&self) -> (r: i64)
        ensures
            r as int == sd_secs(self@),
    {
        self.parts().0
    }

    /// The nanoseconds left after the whole seconds.
    pub fn nanos(&self) -> (r: i32)
        ensures
            r as int == sd_nanos(self@),
    {
        self.parts().1
    }

    /// The microseconds left after the whole seconds, truncated toward zero.
    pub fn subsec_micros(&self) -> (r: i32)
        ensures
            r as int == tdiv(sd_nanos(self@), 1000),
    {
        self.nanos() / 1000
    }

    /// The milliseconds left after the whole seconds, truncated toward zero.
    pub fn subsec_millis(&self) -> (r: i32)
        ensures
            r as int == tdiv(sd_nanos(self@), 1_000_000),
    {
        self.nanos() / 1_000_000
    }

    /// Whole hours, truncated toward zero.
    pub fn as_hours(&self) -> (r: i64)
        ensures
            r as int == tdiv(sd_secs(self@), 3600),
    {
        self.secs() / 3600
    }

    /// Whole minutes, truncated toward zero.
    pub fn as_mins(&self) -> (r: i64)
        ensures
            r as int == tdiv(sd_secs(self@), 60),
    {
        self.secs() / 60
    }

    /// The total number of nanoseconds.
    pub fn as_nanos(&self) -> (r: i128)
        ensures
            r as int == self@,
            sd_range(r as int),
    {
        let (s, n) = self.parts();
        (s as i128) * 1_000_000_000 + (n as i128)
    }

    /// The days of the equivalent `timedelta`-like split: whole seconds
    /// divided by 86400, truncated toward zero.
    pub fn days(&self) -> (r: i64)
        ensures
            r as int == tdiv(sd_secs(self@), 86400),
    {
        self.secs() / 86400
    }

    /// The seconds left after the whole days (sign of the duration).
    pub fn seconds(&self) -> (r: i64)
        ensures
            r as int == trem(sd_secs(self@), 86400),
    {
        self.secs() % 86400
    }

    /// Whether the duration is above zero.
    pub fn is_positive(&self) -> (r: bool)
        ensures
            r == (self@ > 0),
    {
        let (s, n) = self.parts();
        s > 0 || n > 0
    }

    /// Whether the duration is below zero.
    pub fn is_negative(&self) -> (r: bool)
        ensures
            r == (self@ < 0),
    {
        let (s, n) = self.parts();
        s < 0 || n < 0
    }

    /// Whether the duration is zero.
    pub fn is_zero(&self) -> (r: bool)
        ensures
            r == (self@ == 0),
    {
        let (s, n) = self.parts();
        s == 0 && n == 0
    }

    /// `-1`, `0` or `1` by the sign of the duration.
    pub fn signum(&self) -> (r: i8)
        ensures
            r as int == int_sign_of_diff(self@, 0),
    {
        if self.is_negative() {
            -1
        } else if self.is_zero() {
            0
        } else {
            1
        }
    }

    /// The sum; fails with `Overflow` when it does not fit.
    pub fn add(&self, other: &RySignedDuration) -> (r: Result<RySignedDuration, DurationError>)
        ensures
            r is Ok <==> sd_range(self@ + other@),
            r matches Ok(d) ==> d@ == self@ + other@,
            r matches Err(e) ==> e == DurationError::Overflow,
    {
        match sd_checked_add(*self, *other) {
            Some(d) => Ok(d),
            None => Err(DurationError::Overflow),
        }
    }

    /// The difference; fails with `Overflow` when it, or the negation of
    /// `other`, does not fit.
    pub fn sub(&self, other: &RySignedDuration) -> (r: Result<RySignedDuration, DurationError>)
        ensures
            r is Ok <==> sd_range(-other@) && sd_range(self@ - other@),
            r matches Ok(d) ==> d@ == self@ - other@,
            r matches Err(e) ==> e == DurationError::Overflow,
    {
        match sd_checked_sub(*self, *other) {
            Some(d) => Ok(d),
            None => Err(DurationError::Overflow),
        }
    }

    /// The negation; fails with `NoNegation` for durations whose whole
    /// seconds are `i64::MIN`.
    pub fn neg(&self) -> (r: Result<RySignedDuration, DurationError>)
        ensures
            r is Ok <==> sd_range(-self@),
            r matches Ok(d) ==> d@ == -self@,
            r matches Err(e) ==> e == DurationError::NoNegation,
    {
        match sd_checked_neg(*self) {
            Some(d) => Ok(d),
            None => Err(DurationError::NoNegation),
        }
    }

    /// The product by an integer; fails with `Overflow` when it does not fit.
    pub fn mul(&self, k: i32) -> (r: Result<RySignedDuration, DurationError>)
        ensures
            r is Ok <==> sd_range(self@ * k),
            r matches Ok(d) ==> d@ == self@ * k,
            r matches Err(e) ==> e == DurationError::Overflow,
    {
        match sd_checked_mul(*self, k) {
            Some(d) => Ok(d),
            None => Err(DurationError::Overflow),
        }
    }

    /// The quotient by an integer, truncated toward zero; fails with
    /// `DivideByZero` for zero and `Overflow` when the quotient does not fit.
    pub fn div(&self, k: i32) -> (r: Result<RySignedDuration, DurationError>)
        ensures
            k == 0 ==> r == Err::<RySignedDuration, DurationError>(DurationError::DivideByZero),
            k != 0 ==> (r is Ok <==> sd_range(tdiv(self@, k as int))),
            r matches Ok(d) ==> d@ == tdiv(self@, k as int),
            k != 0 && r is Err ==> r == Err::<RySignedDuration, DurationError>(
                DurationError::Overflow,
            ),
    {
        if k == 0 {
            return Err(DurationError::DivideByZero);
        }
        match sd_checked_div(*self, k) {
            Some(d) => Ok(d),
            None => Err(DurationError::Overflow),
        }
    }

    /// The sum, clamped to the range of durations: the smallest duration
    /// when a negative `other` overflows, the largest otherwise.
    pub fn saturating_add(&self, other: &RySignedDuration) -> (r: RySignedDuration)
        ensures
            r@ == (if sd_range(self@ + other@) {
                self@ + other@
            } else if other@ < 0 {
                sd_min()
            } else {
                sd_max()
            }),
    {
        match self.add(other) {
            Ok(d) => d,
            Err(_) => if other.is_negative() { RySignedDuration::MIN() } else { RySignedDuration::MAX() },
        }
    }

    /// The difference, clamped to the range of durations: the smallest
    /// duration when a positive `other` overflows, the largest otherwise.
    pub fn saturating_sub(&self, other: &RySignedDuration) -> (r: RySignedDuration)
        ensures
            r@ == (if sd_range(-other@) && sd_range(self@ - other@) {
                self@ - other@
            } else if other@ > 0 {
                sd_min()
            } else {
                sd_max()
            }),
    {
        match self.sub(other) {
            Ok(d) => d,
            Err(_) => if other.is_positive() { RySignedDuration::MIN() } else { RySignedDuration::MAX() },
        }
    }

    /// The product by an integer, clamped to the range of durations by the
    /// sign of the product.
    pub fn saturating_mul(&self, k: i32) -> (r: RySignedDuration)
        ensures
            r@ == (if sd_range(self@ * k) {
                self@ * k
            } else if (self@ < 0) != (k < 0) {
                sd_min()
            } else {
                sd_max()
            }),
    {
        match self.mul(k) {
            Ok(d) => d,
            Err(_) => {
                let neg = self.is_negative() != (k < 0);
                if neg { RySignedDuration::MIN() } else { RySignedDuration::MAX() }
            },
        }
    }

    /// The absolute value; the duration must not have `i64::MIN` whole seconds.
    pub fn abs(&self) -> (r: RySignedDuration)
        requires
            sd_range(-self@),
        ensures
            r@ == (if self@ < 0 { -self@ } else { self@ }),
    {
        proof {
            use_type_invariant(self);
        }
        if self.secs < 0 || self.nanos < 0 {
            RySignedDuration { secs: -self.secs, nanos: -self.nanos }
        } else {
            *self
        }
    }

    /// Python's rich comparison, by total length.
    pub fn rich_compare(&self, other: &RySignedDuration, op: CompareOp) -> (r: bool)
        ensures
            r == op_holds(op, int_sign_of_diff(self@, other@)),
    {
        let a = self.as_nanos();
        let b = other.as_nanos();
        let sign: i8 = if a < b {
            -1
        } else if a == b {
            0
        } else {
            1
        };
        apply_op(op, sign)
    }

    /// The repr: `SignedDuration(secs=S, nanos=N)`.
    pub fn repr(&self) -> (r: String)
        ensures
            r@ == sd_repr_text(self@),
    {
        let (s, n) = self.parts();
        let mut out = String::new();
        proof { reveal_strlit("SignedDuration(secs="); reveal_strlit(", nanos="); }
        push_str(&mut out, "SignedDuration(secs=");
        push_i64(&mut out, s);
        push_str(&mut out, ", nanos=");
        push_i64(&mut out, n as i64);
        push_char(&mut out, ')');
        assert(out@ =~= sd_repr_text(self@));
        out
    }

    /// The text `jiff` prints for the duration.
    pub fn to_string(&self) -> (r: String)
        ensures
            r@ == jiff_duration_text(self@),
    {
        jiff_sd_to_string(*self)
    }
}

/// Every total in range is held by some duration, whose parts are its
/// truncated quotient and remainder by one second.
pub proof fn lemma_total_parts(t: int)
    requires
        sd_range(t),
    ensures
        sd_normal(sd_secs(t), sd_nanos(t)),
        sd_secs(t) * 1_000_000_000 + sd_nanos(t) == t,
{
    lemma_normal_of_total(t);
}

/// Adding a duration and then subtracting it again gives back the start,
/// when the sum and the negation fit.
pub proof fn lemma_add_sub_roundtrip(a: int, b: int)
    requires
        sd_range(a),
        sd_range(b),
        sd_range(a + b),
        sd_range(-b),
    ensures
        sd_range((a + b) - b),
        (a + b) - b == a,
{
}

/// Negating twice gives back the duration, when the negation fits.
pub proof fn lemma_neg_involutive(a: int)
    requires
        sd_range(a),
        sd_range(-a),
    ensures
        sd_range(-(-a)),
        -(-a) == a,
{
}

/// How Python normalises a `timedelta` of `t` nanoseconds (a whole number
/// of microseconds): whole days (rounded down), the seconds left in the day
/// and the microseconds left in the second.
pub open spec fn timedelta_split(t: int) -> (int, int, int) {
    (t / 86_400_000_000_000, (t % 86_400_000_000_000) / 1_000_000_000, (t % 1_000_000_000) / 1000)
}

/// A whole number of microseconds within Python's `timedelta` range splits
/// into normalised `timedelta` parts that `from_timedelta_parts` accepts
/// and turns back into the same total.
pub proof fn lemma_timedelta_parts_roundtrip(t: int)
    requires
        t % 1000 == 0,
        -999_999_999 <= timedelta_split(t).0 <= 999_999_999,
    ensures
        ({
            let (d, s, u) = timedelta_split(t);
            &&& 0 <= s < 86400
            &&& 0 <= u < 1_000_000
            &&& i64::MIN <= d * 86400 <= i64::MAX
            &&& i64::MIN <= d * 86400 + s <= i64::MAX
            &&& (d * 86400 + s) * 1_000_000_000 + u * 1000 == t
        }),
{
    let day: int = 86_400_000_000_000;
    let sec: int = 1_000_000_000;
    let q = t / day;
    let r = t % day;
    let s = r / sec;
    let r2 = r % sec;
    assert(t == q * day + r && 0 <= r < day) by (nonlinear_arith)
        requires
            day > 0,
            q == t / day,
            r == t % day,
    ;
    assert(r == s * sec + r2 && 0 <= r2 < sec && 0 <= s < 86400) by (nonlinear_arith)
        requires
            sec > 0,
            s == r / sec,
            r2 == r % sec,
            0 <= r < day,
            day == 86400 * sec,
    ;
    assert(t == (q * 86400 + s) * sec + r2) by (nonlinear_arith)
        requires
            t == q * day + s * sec + r2,
            day == 86400 * sec,
    ;
    vstd::arithmetic::div_mod::lemma_fundamental_div_mod_converse(t, sec, q * 86400 + s, r2);
    let k = t / 1000;
    assert(t == k * 1000) by (nonlinear_arith)
        requires
            t % 1000 == 0,
            k == t / 1000,
    ;
    assert(r2 == (k - (q * 86400 + s) * 1_000_000) * 1000) by (nonlinear_arith)
        requires
            t == (q * 86400 + s) * sec + r2,
            t == k * 1000,
            sec == 1_000_000_000,
    ;
    vstd::arithmetic::div_mod::lemma_fundamental_div_mod_converse(r2, 1000, k - (q * 86400 + s) * 1_000_000, 0);
    assert((q * 86400 + s) * sec + (r2 / 1000) * 1000 == t) by (nonlinear_arith)
        requires
            t == q * day + s * sec + r2,
            r2 == (r2 / 1000) * 1000,
            day == 86400 * sec,
    ;
}

} // verus!
