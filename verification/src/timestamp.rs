//! Instants: nanoseconds since the Unix epoch within `jiff`'s supported
//! range, built from seconds, milli-, micro- or nanoseconds, with their
//! parts, comparison, exact differences, and the civil datetime in UTC.
use vstd::prelude::*;
use crate::compare::{CompareOp, apply_op, op_holds, int_sign_of_diff};
use crate::datetime::RyDateTime;
use crate::signed_duration::{
    RySignedDuration, sd_normal, sd_range, sd_secs, sd_nanos, tdiv, lemma_normal_parts,
    lemma_normal_of_total,
};
use crate::text::{int_text, push_char, push_i64, push_str};
use crate::shift::{civil_nanos, lemma_civil_of_instant_in_range};

verus! {

/// The earliest second `jiff` supports.
pub open spec fn ts_min_second() -> int {
    -377_705_023_201
}

/// The latest second `jiff` supports.
pub open spec fn ts_max_second() -> int {
    253_402_207_200
}

/// Whether a total of `t` nanoseconds since the epoch is a supported
/// instant.
pub open spec fn ts_range(t: int) -> bool {
    ts_min_second() * 1_000_000_000 <= t <= ts_max_second() * 1_000_000_000 + 999_999_999
}

/// Whether `jiff`'s `Timestamp::new(second, nanosecond)` accepts its
/// arguments: the second in range, the nanoseconds below one second in
/// magnitude, and no negative nanoseconds on the earliest second.
pub open spec fn ts_new_ok(second: int, nanosecond: int) -> bool {
    &&& ts_min_second() <= second <= ts_max_second()
    &&& -999_999_999 <= nanosecond <= 999_999_999
    &&& !(second == ts_min_second() && nanosecond < 0)
}

/// The repr: `Timestamp(second=S, nanosecond=N)`.
pub open spec fn ts_repr_text(t: int) -> Seq<char> {
    seq!['T', 'i', 'm', 'e', 's', 't', 'a', 'm', 'p', '(', 's', 'e', 'c', 'o', 'n', 'd', '=']
        + int_text(sd_secs(t)) + seq![',', ' ', 'n', 'a', 'n', 'o', 's', 'e', 'c', 'o', 'n', 'd',
        '='] + int_text(sd_nanos(t)) + seq![')']
}

/// What `jiff` prints for an instant (RFC 3339 in UTC, `...Z`).
pub uninterp spec fn jiff_timestamp_text(t: int) -> Seq<char>;

/// The instant `jiff` parses from text, in nanoseconds, if any.
pub uninterp spec fn jiff_timestamp_parse(s: Seq<char>) -> Option<int>;

/// What `jiff` prints for an instant under a `strftime` format, if the
/// format is valid and asks only for what an instant has.
pub uninterp spec fn jiff_timestamp_strftime(fmt: Seq<char>, t: int) -> Option<Seq<char>>;

/// The instant, in nanoseconds, `jiff` reads from text under a `strptime`
/// format, if any.
pub uninterp spec fn jiff_timestamp_strptime(fmt: Seq<char>, s: Seq<char>) -> Option<int>;

/// Why an instant could not be made (Python's `ValueError`).
#[derive(Clone, Copy, Debug, PartialEq, Eq, Structural)]
pub enum TimestampError {
    /// The instant is outside the supported range.
    OutOfRange,
}

/// An instant, as nanoseconds since 1970-01-01T00:00:00Z.
#[derive(Clone, Copy, Debug, PartialEq, Eq, Hash, Structural)]
pub struct RyTimestamp {
    second: i64,
    nanosecond: i32,
}

impl View for RyTimestamp {
    type V = int;

    /// The nanoseconds since the epoch.
    closed spec fn view(&self) -> int {
        self.second as int * 1_000_000_000 + self.nanosecond as int
    }
}

/// Checks and normalizes the parts of an instant with `jiff`'s
/// `Timestamp::new`, which accepts exactly the parts of `ts_new_ok` and
/// keeps the total while giving both parts one sign.
#[verifier::external_body]
fn jiff_timestamp_new(second: i64, nanosecond: i32) -> (r: Option<(i64, i32)>)
    ensures
        r is Some <==> ts_new_ok(second as int, nanosecond as int),
        r matches Some(v) ==> v.0 * 1_000_000_000 + v.1 == second * 1_000_000_000 + nanosecond
            && sd_normal(v.0 as int, v.1 as int),
{
    let t = jiff::Timestamp::new(second, nanosecond).ok()?;
    Some((t.as_second(), t.subsec_nanosecond()))
}

/// An instant printed by `jiff`'s `Display` for `jiff::Timestamp`.
#[verifier::external_body]
fn jiff_timestamp_to_string(second: i64, nanosecond: i32) -> (r: String)
    requires
        ts_new_ok(second as int, nanosecond as int),
    ensures
        r@ == jiff_timestamp_text(second * 1_000_000_000 + nanosecond),
{
    jiff::Timestamp::new(second, nanosecond).unwrap().to_string()
}

/// An instant parsed by `jiff`'s `FromStr` for `jiff::Timestamp`.
#[verifier::external_body]
fn jiff_timestamp_from_str(s: &str) -> (r: Option<(i64, i32)>)
    ensures
        r is None <==> jiff_timestamp_parse(s@) is None,
        r matches Some(v) ==> jiff_timestamp_parse(s@) == Some(v.0 * 1_000_000_000 + v.1)
            && sd_normal(v.0 as int, v.1 as int) && ts_range(v.0 * 1_000_000_000 + v.1),
{
    let t = s.parse::<jiff::Timestamp>().ok()?;
    Some((t.as_second(), t.subsec_nanosecond()))
}

/// An instant formatted by `jiff`'s `BrokenDownTime::to_string` (strict:
/// an invalid format, or one asking for what an instant lacks, fails).
#[verifier::external_body]
fn jiff_timestamp_format(fmt: &str, second: i64, nanosecond: i32) -> (r: Option<String>)
    requires
        ts_new_ok(second as int, nanosecond as int),
    ensures
        r is None <==> jiff_timestamp_strftime(fmt@, second * 1_000_000_000 + nanosecond) is None,
        r matches Some(v) ==> jiff_timestamp_strftime(fmt@, second * 1_000_000_000 + nanosecond) == Some(v@),
{
    let bdt = jiff::fmt::strtime::BrokenDownTime::from(jiff::Timestamp::new(second, nanosecond).unwrap());
    bdt.to_string(fmt).ok()
}

/// An instant read by `jiff`'s `Timestamp::strptime`.
#[verifier::external_body]
fn jiff_timestamp_read(fmt: &str, s: &str) -> (r: Option<(i64, i32)>)
    ensures
        r is None <==> jiff_timestamp_strptime(fmt@, s@) is None,
        r matches Some(v) ==> jiff_timestamp_strptime(fmt@, s@) == Some(v.0 * 1_000_000_000 + v.1)
            && sd_normal(v.0 as int, v.1 as int) && ts_range(v.0 * 1_000_000_000 + v.1),
{
    let t = jiff::Timestamp::strptime(fmt, s).ok()?;
    Some((t.as_second(), t.subsec_nanosecond()))
}

proof fn lemma_range_of_new(second: int, nanosecond: int)
    requires
        ts_new_ok(second, nanosecond),
    ensures
        ts_range(second * 1_000_000_000 + nanosecond),
{
}

proof fn lemma_new_of_range(t: int)
    requires
        ts_range(t),
    ensures
        sd_range(t),
        ts_new_ok(sd_secs(t), sd_nanos(t)),
        sd_normal(sd_secs(t), sd_nanos(t)),
        sd_secs(t) * 1_000_000_000 + sd_nanos(t) == t,
{
    assert(sd_range(t)) by {
        assert(crate::signed_duration::sd_min() <= t <= crate::signed_duration::sd_max());
    }
    lemma_normal_of_total(t);
}

impl RyTimestamp {
    #[verifier::type_invariant]
    spec fn inv(self) -> bool {
        sd_normal(self.second as int, self.nanosecond as int) && ts_range(
            self.second as int * 1_000_000_000 + self.nanosecond as int,
        )
    }

    /// The instant of a total in range.
    fn from_total(t: i128) -> (r: RyTimestamp)
        requires
            ts_range(t as int),
        ensures
            r@ == t as int,
    {
        proof {
            lemma_new_of_range(t as int);
        }
        let second = (t / 1_000_000_000) as i64;
        let nanosecond = (t % 1_000_000_000) as i32;
        RyTimestamp { second, nanosecond }
    }

    /// The instant `second` seconds plus `nanosecond` nanoseconds after the
    /// epoch (the Python constructor); fails unless `ts_new_ok`.
    pub fn py_new(second: i64, nanosecond: i32) -> (r: Result<RyTimestamp, TimestampError>)
        ensures
            r is Ok <==> ts_new_ok(second as int, nanosecond as int),
            r matches Ok(v) ==> v@ == second * 1_000_000_000 + nanosecond,
    {
        match jiff_timestamp_new(second, nanosecond) {
            Some((s, n)) => {
                proof {
                    lemma_range_of_new(second as int, nanosecond as int);
                }
                Ok(RyTimestamp { second: s, nanosecond: n })
            },
            None => Err(TimestampError::OutOfRange),
        }
    }

    /// The second and nanosecond parts, as `Timestamp::new` accepts them.
    pub fn parts(&self) -> (r: (i64, i32))
        ensures
            ts_new_ok(r.0 as int, r.1 as int),
            r.0 * 1_000_000_000 + r.1 == self@,
    {
        proof {
            use_type_invariant(self);
            lemma_normal_parts(self.second as int, self.nanosecond as int);
            lemma_new_of_range(self@);
        }
        (self.second, self.nanosecond)
    }

    /// The earliest instant.
    #[allow(non_snake_case)]
    pub fn MIN() -> (r: RyTimestamp)
        ensures
            r@ == ts_min_second() * 1_000_000_000,
    {
        RyTimestamp { second: -377_705_023_201, nanosecond: 0 }
    }

    /// The latest instant.
    #[allow(non_snake_case)]
    pub fn MAX() -> (r: RyTimestamp)
        ensures
            r@ == ts_max_second() * 1_000_000_000 + 999_999_999,
    {
        RyTimestamp { second: 253_402_207_200, nanosecond: 999_999_999 }
    }

    /// The Unix epoch.
    #[allow(non_snake_case)]
    pub fn UNIX_EPOCH() -> (r: RyTimestamp)
        ensures
            r@ == 0,
    {
        RyTimestamp { second: 0, nanosecond: 0 }
    }

    /// The instant `second` seconds after the epoch (`from_second`).
    pub fn from_second(second: i64) -> (r: Result<RyTimestamp, TimestampError>)
        ensures
            r is Ok <==> ts_min_second() <= second <= ts_max_second(),
            r matches Ok(v) ==> v@ == second * 1_000_000_000,
    {
        if -377_705_023_201 <= second && second <= 253_402_207_200 {
            Ok(RyTimestamp { second, nanosecond: 0 })
        } else {
            Err(TimestampError::OutOfRange)
        }
    }

    /// The instant `ms` milliseconds after the epoch (`from_millisecond`);
    /// `jiff` accepts whole-second bounds times 1000.
    pub fn from_millisecond(ms: i64) -> (r: Result<RyTimestamp, TimestampError>)
        ensures
            r is Ok <==> ts_min_second() * 1000 <= ms <= ts_max_second() * 1000,
            r matches Ok(v) ==> v@ == ms * 1_000_000,
    {
        if -377_705_023_201_000 <= ms && ms <= 253_402_207_200_000 {
            Ok(RyTimestamp::from_total(ms as i128 * 1_000_000))
        } else {
            Err(TimestampError::OutOfRange)
        }
    }

    /// The instant `us` microseconds after the epoch (`from_microsecond`);
    /// `jiff` accepts whole-second bounds times 1,000,000.
    pub fn from_microsecond(us: i64) -> (r: Result<RyTimestamp, TimestampError>)
        ensures
            r is Ok <==> ts_min_second() * 1_000_000 <= us <= ts_max_second() * 1_000_000,
            r matches Ok(v) ==> v@ == us * 1000,
    {
        if -377_705_023_201_000_000 <= us && us <= 253_402_207_200_000_000 {
            Ok(RyTimestamp::from_total(us as i128 * 1000))
        } else {
            Err(TimestampError::OutOfRange)
        }
    }

    /// The instant `ns` nanoseconds after the epoch (`from_nanosecond`).
    pub fn from_nanosecond(ns: i128) -> (r: Result<RyTimestamp, TimestampError>)
        ensures
            r is Ok <==> ts_range(ns as int),
            r matches Ok(v) ==> v@ == ns as int,
    {
        if -377_705_023_201_000_000_000 <= ns && ns <= 253_402_207_200_999_999_999 {
            Ok(RyTimestamp::from_total(ns))
        } else {
            Err(TimestampError::OutOfRange)
        }
    }

    /// The whole seconds since the epoch, truncated toward zero
    /// (`as_second`, `second`); every instant is in range.
    pub fn as_second(&self) -> (r: i64)
        ensures
            r as int == sd_secs(self@),
            ts_range(self@),
    {
        proof {
            use_type_invariant(self);
            lemma_normal_parts(self.second as int, self.nanosecond as int);
        }
        self.second
    }

    /// The nanoseconds after the whole seconds, of the instant's sign
    /// (`subsec_nanosecond`).
    pub fn subsec_nanosecond(&self) -> (r: i32)
        ensures
            r as int == sd_nanos(self@),
            -999_999_999 <= r <= 999_999_999,
    {
        proof {
            use_type_invariant(self);
            lemma_normal_parts(self.second as int, self.nanosecond as int);
        }
        self.nanosecond
    }

    /// The whole milliseconds of the sub-second part.
    pub fn subsec_millisecond(&self) -> (r: i32)
        ensures
            r as int == tdiv(sd_nanos(self@), 1_000_000),
    {
        self.subsec_nanosecond() / 1_000_000
    }

    /// The whole microseconds of the sub-second part.
    pub fn subsec_microsecond(&self) -> (r: i32)
        ensures
            r as int == tdiv(sd_nanos(self@), 1000),
    {
        self.subsec_nanosecond() / 1000
    }

    /// The whole milliseconds since the epoch (`as_millisecond`).
    pub fn as_millisecond(&self) -> (r: i64)
        ensures
            r as int == sd_secs(self@) * 1000 + tdiv(sd_nanos(self@), 1_000_000),
    {
        let s = self.as_second();
        s * 1000 + (self.subsec_millisecond() as i64)
    }

    /// The whole microseconds since the epoch (`as_microsecond`).
    pub fn as_microsecond(&self) -> (r: i64)
        ensures
            r as int == sd_secs(self@) * 1_000_000 + tdiv(sd_nanos(self@), 1000),
    {
        let s = self.as_second();
        s * 1_000_000 + (self.subsec_microsecond() as i64)
    }

    /// The nanoseconds since the epoch (`as_nanosecond`).
    pub fn as_nanosecond(&self) -> (r: i128)
        ensures
            r as int == self@,
            ts_range(r as int),
    {
        proof {
            use_type_invariant(self);
            lemma_normal_parts(self.second as int, self.nanosecond as int);
            lemma_new_of_range(self@);
        }
        let s = self.as_second();
        (s as i128) * 1_000_000_000 + (self.subsec_nanosecond() as i128)
    }

    /// -1, 0 or 1 as the instant is before, at or after the epoch.
    pub fn signum(&self) -> (r: i8)
        ensures
            r as int == int_sign_of_diff(self@, 0),
    {
        let t = self.as_nanosecond();
        if t < 0 { -1 } else if t == 0 { 0 } else { 1 }
    }

    /// Whether this is the epoch.
    pub fn is_zero(&self) -> (r: bool)
        ensures
            r == (self@ == 0),
    {
        self.as_nanosecond() == 0
    }

    /// Compares two instants with a Python comparison operator.
    pub fn rich_compare(&self, other: &RyTimestamp, op: CompareOp) -> (r: bool)
        ensures
            r == op_holds(op, int_sign_of_diff(self@, other@)),
    {
        let a = self.as_nanosecond();
        let b = other.as_nanosecond();
        let s: i8 = if a < b { -1 } else if a == b { 0 } else { 1 };
        apply_op(op, s)
    }

    /// The exact duration from `other` to this instant (`duration_since`).
    pub fn duration_since(&self, other: &RyTimestamp) -> (r: RySignedDuration)
        ensures
            r@ == self@ - other@,
    {
        let a = self.as_nanosecond();
        let b = other.as_nanosecond();
        proof {
            use_type_invariant(self);
            use_type_invariant(other);
            assert(sd_range(a - b)) by {
                assert(crate::signed_duration::sd_min() <= a - b <= crate::signed_duration::sd_max());
            }
        }
        RySignedDuration::from_total(a - b)
    }

    /// The exact duration from this instant to `other` (`duration_until`).
    pub fn duration_until(&self, other: &RyTimestamp) -> (r: RySignedDuration)
        ensures
            r@ == other@ - self@,
    {
        other.duration_since(self)
    }

    /// The instant a signed duration later; fails outside the supported
    /// range (Python's `OverflowError`).
    pub fn checked_add(&self, d: &RySignedDuration) -> (r: Result<RyTimestamp, TimestampError>)
        ensures
            r is Ok <==> ts_range(self@ + d@),
            r matches Ok(v) ==> v@ == self@ + d@,
    {
        let a = self.as_nanosecond();
        let b = d.as_nanos();
        let t = a + b;
        if -377_705_023_201_000_000_000 <= t && t <= 253_402_207_200_999_999_999 {
            Ok(RyTimestamp::from_total(t))
        } else {
            Err(TimestampError::OutOfRange)
        }
    }

    /// The instant a signed duration earlier; fails outside the supported
    /// range.
    pub fn checked_sub(&self, d: &RySignedDuration) -> (r: Result<RyTimestamp, TimestampError>)
        ensures
            r is Ok <==> ts_range(self@ - d@),
            r matches Ok(v) ==> v@ == self@ - d@,
    {
        let a = self.as_nanosecond();
        let b = d.as_nanos();
        let t = a - b;
        if -377_705_023_201_000_000_000 <= t && t <= 253_402_207_200_999_999_999 {
            Ok(RyTimestamp::from_total(t))
        } else {
            Err(TimestampError::OutOfRange)
        }
    }

    /// The repr, `Timestamp(second=S, nanosecond=N)`.
    pub fn repr(&self) -> (r: String)
        ensures
            r@ == ts_repr_text(self@),
    {
        let mut out = String::new();
        proof {
            reveal_strlit("Timestamp(second=");
            reveal_strlit(", nanosecond=");
        }
        push_str(&mut out, "Timestamp(second=");
        push_i64(&mut out, self.as_second());
        push_str(&mut out, ", nanosecond=");
        push_i64(&mut out, self.subsec_nanosecond() as i64);
        push_char(&mut out, ')');
        assert(out@ =~= ts_repr_text(self@));
        out
    }

    /// The instant printed by `jiff` (`str`, `to_string`, `isoformat`).
    pub fn to_string(&self) -> (r: String)
        ensures
            r@ == jiff_timestamp_text(self@),
    {
        proof {
            use_type_invariant(self);
            lemma_normal_parts(self.second as int, self.nanosecond as int);
            lemma_new_of_range(self@);
        }
        jiff_timestamp_to_string(self.second, self.nanosecond)
    }

    /// Parses an instant as `jiff` does (`from_str`, `parse`); `None` where
    /// `jiff` refuses the text.
    pub fn from_str(s: &str) -> (r: Option<RyTimestamp>)
        ensures
            r is None <==> jiff_timestamp_parse(s@) is None,
            r matches Some(v) ==> jiff_timestamp_parse(s@) == Some(v@),
    {
        match jiff_timestamp_from_str(s) {
            Some((a, b)) => Some(RyTimestamp { second: a, nanosecond: b }),
            None => None,
        }
    }

    /// The instant formatted under a `strftime` format (`strftime`), as
    /// `jiff` formats it; `None` where `jiff` refuses the format.
    pub fn strftime(&self, fmt: &str) -> (r: Option<String>)
        ensures
            r is None <==> jiff_timestamp_strftime(fmt@, self@) is None,
            r matches Some(v) ==> jiff_timestamp_strftime(fmt@, self@) == Some(v@),
    {
        let (s, n) = self.parts();
        jiff_timestamp_format(fmt, s, n)
    }

    /// `__format__`: the text `jiff` prints for the empty format, else
    /// `strftime`.
    pub fn format(&self, fmt: &str) -> (r: Option<String>)
        ensures
            fmt@.len() == 0 ==> (r matches Some(v) && v@ == jiff_timestamp_text(self@)),
            fmt@.len() != 0 ==> (r is None <==> jiff_timestamp_strftime(fmt@, self@) is None),
            fmt@.len() != 0 ==> (r matches Some(v) ==> jiff_timestamp_strftime(fmt@, self@) == Some(v@)),
    {
        if fmt.unicode_len() == 0 {
            Some(self.to_string())
        } else {
            self.strftime(fmt)
        }
    }

    /// Reads an instant from text under a `strptime` format, as `jiff`
    /// reads it; `None` where `jiff` refuses the text.
    pub fn strptime(s: &str, fmt: &str) -> (r: Option<RyTimestamp>)
        ensures
            r is None <==> jiff_timestamp_strptime(fmt@, s@) is None,
            r matches Some(v) ==> jiff_timestamp_strptime(fmt@, s@) == Some(v@),
    {
        match jiff_timestamp_read(fmt, s) {
            Some((a, b)) => Some(RyTimestamp { second: a, nanosecond: b }),
            None => None,
        }
    }

    /// The civil datetime of the instant in UTC (`datetime`; `date` and
    /// `time` are its parts): the datetime whose civil nanoseconds are the
    /// instant's nanoseconds since the epoch.
    pub fn datetime(&self) -> (r: RyDateTime)
        ensures
            civil_nanos(r@) == self@,
    {
        let t = self.as_nanosecond();
        proof {
            use_type_invariant(self);
            lemma_normal_parts(self.second as int, self.nanosecond as int);
            lemma_new_of_range(self@);
            lemma_civil_of_instant_in_range(t as int, 0);
        }
        RyDateTime::from_civil_nanos(t)
    }
}

/// Adding to an instant `b` the exact duration from `b` to an instant `a`
/// always succeeds and gives `a`.
pub proof fn lemma_since_then_add(a: int, b: int)
    requires
        ts_range(a),
        ts_range(b),
    ensures
        ts_range(b + (a - b)),
        b + (a - b) == a,
{
}

} // verus!
