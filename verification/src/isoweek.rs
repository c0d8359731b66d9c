//! ISO 8601 week dates: the `YYYY-Www-D` text form, read and written, and
//! the week date type with its conversions to and from civil dates.
use vstd::prelude::*;
use vstd::string::StrSliceExecFns;
use vstd::string::StringSliceAdditionalSpecFns;
use crate::compare::{CompareOp, apply_op, op_holds, lex_sign, lex_compare, ints};
use crate::date::{
    RyDate, date_ok, year_ok, epoch_day, iso_week_valid, iso_week_day_number, iso_year_start_exec,
    date_of_epoch_day, lemma_iso_year_of, lemma_iso_week_of_day, lemma_iso_years_at_the_ends,
    lemma_iso_year_start_step, lemma_year_days, lemma_iso_weeks_at_most_53, lemma_epoch_day_injective,
    lemma_iso_week_day_number_injective,
};
use crate::text::{int_text, padded_int_text, push_char, push_i64, push_padded_i64, push_str, digit_char, nat_digits, zeros};
use crate::units::{JiffWeekday, weekday_number, weekday_name};

verus! {

/// Whether byte `b` is an ASCII digit.
pub open spec fn is_digit(b: u8) -> bool {
    48 <= b <= 57
}

/// Whether every byte of `bs` is an ASCII digit.
pub open spec fn all_digits(bs: Seq<u8>) -> bool {
    forall|i: int| 0 <= i < bs.len() ==> is_digit(#[trigger] bs[i])
}

/// The number that the ASCII digits `bs` spell.
pub open spec fn digits_value(bs: Seq<u8>) -> int
    decreases bs.len(),
{
    if bs.len() == 0 {
        0
    } else {
        digits_value(bs.drop_last()) * 10 + (bs.last() - 48)
    }
}

/// What Rust's `FromStr` for a signed integer reads from `bs`, before any
/// range check: an optional `+` or `-`, then one or more ASCII digits.
pub open spec fn parse_int(bs: Seq<u8>) -> Option<int> {
    if bs.len() == 0 {
        None
    } else if bs[0] == 43u8 || bs[0] == 45u8 {
        let rest = bs.drop_first();
        if rest.len() > 0 && all_digits(rest) {
            Some(if bs[0] == 45u8 { -digits_value(rest) } else { digits_value(rest) })
        } else {
            None
        }
    } else if all_digits(bs) {
        Some(digits_value(bs))
    } else {
        None
    }
}

/// Whether byte offset `i` of the UTF-8 text `bs` starts a character (or
/// is its end).
pub open spec fn is_char_boundary(bs: Seq<u8>, i: int) -> bool {
    i == 0 || i == bs.len() || (0 <= i < bs.len() && !(0x80 <= bs[i] <= 0xBF))
}

/// Whether the text's bytes read `-W` at offset 4 and `-` at offset 8.
pub open spec fn has_week_separators(bs: Seq<u8>) -> bool {
    bs[4] == 45u8 && bs[5] == 87u8 && bs[8] == 45u8
}

/// The texts on which the week date reader cannot even look at its
/// separators: ten bytes long, but a separator position falls inside a
/// multi-byte character.
pub open spec fn week_text_unsliceable(bs: Seq<u8>) -> bool {
    bs.len() == 10 && (!is_char_boundary(bs, 4) || !is_char_boundary(bs, 6) || (bs[4] == 45u8
        && bs[5] == 87u8 && (!is_char_boundary(bs, 8) || !is_char_boundary(bs, 9))))
}

/// Why an ISO week date could not be read or made (Python's `ValueError`).
#[derive(Clone, Copy, Debug, PartialEq, Eq, Structural)]
pub enum IsoWeekDateError {
    /// Not ten bytes of the shape `YYYY-Www-D`.
    BadFormat,
    /// The year, week or weekday is not a number.
    BadNumber,
    /// The weekday number is not 1..=7.
    BadWeekday,
    /// The week date does not exist or is out of range.
    OutOfRange,
}

/// What reading `YYYY-Www-D` gives: the format check, the three numbers,
/// the weekday number, then the check that the week date exists.
pub open spec fn week_text_result(bs: Seq<u8>) -> Result<(int, int, int), IsoWeekDateError> {
    if bs.len() != 10 || !has_week_separators(bs) {
        Err(IsoWeekDateError::BadFormat)
    } else {
        let y = parse_int(bs.subrange(0, 4));
        let w = parse_int(bs.subrange(6, 8));
        let d = parse_int(bs.subrange(9, 10));
        if y is None || w is None || d is None {
            Err(IsoWeekDateError::BadNumber)
        } else if !(1 <= d->0 <= 7) {
            Err(IsoWeekDateError::BadWeekday)
        } else if !iso_week_valid(y->0, w->0, d->0) {
            Err(IsoWeekDateError::OutOfRange)
        } else {
            Ok((y->0, w->0, d->0))
        }
    }
}

/// The text form `YYYY-Www-D`: the year zero-padded to four characters
/// (the sign counting), the week to two, then the weekday number.
pub open spec fn week_date_text(y: int, w: int, d: int) -> Seq<char> {
    padded_int_text(y, 4) + seq!['-', 'W'] + padded_int_text(w, 2) + seq!['-'] + int_text(d)
}

/// The repr: `ISOWeekDate(Y, W, 'weekday')`.
pub open spec fn week_date_repr_text(y: int, w: int, wd: JiffWeekday) -> Seq<char> {
    seq!['I', 'S', 'O', 'W', 'e', 'e', 'k', 'D', 'a', 't', 'e', '('] + int_text(y) + seq![',', ' ']
        + int_text(w) + seq![',', ' ', '\''] + weekday_name(wd) + seq!['\'', ')']
}

/// Whether `(y, w, d)` is a supported ISO week date (`jiff`'s
/// `ISOWeekDate::new` accepts exactly these).
fn iso_week_valid_exec(y: i16, w: i8, d: i8) -> (r: bool)
    ensures
        r == iso_week_valid(y as int, w as int, d as int),
{
    if y < -9999 || y > 9999 || w < 1 || d < 1 || d > 7 {
        return false;
    }
    let s0 = iso_year_start_exec(y as i32);
    let s1 = iso_year_start_exec(y as i32 + 1);
    proof {
        lemma_iso_year_start_step(y as int);
    }
    let weeks: i32 = (s1 - s0) / 7;
    if w as i32 > weeks {
        return false;
    }
    let n: i32 = s0 + 7 * (w as i32 - 1) + (d as i32 - 1);
    -4_371_587 <= n && n <= 2_932_896
}

/// The weekday with ISO number `n`.
fn weekday_of_number(n: i8) -> (r: JiffWeekday)
    requires
        1 <= n <= 7,
    ensures
        weekday_number(r) == n as int,
{
    match n {
        1 => JiffWeekday::Monday,
        2 => JiffWeekday::Tuesday,
        3 => JiffWeekday::Wednesday,
        4 => JiffWeekday::Thursday,
        5 => JiffWeekday::Friday,
        6 => JiffWeekday::Saturday,
        _ => JiffWeekday::Sunday,
    }
}

proof fn lemma_digits_step(bs: Seq<u8>, lo: int, i: int)
    requires
        0 <= lo <= i < bs.len(),
    ensures
        bs.subrange(lo, i + 1).drop_last() == bs.subrange(lo, i),
        bs.subrange(lo, i + 1).last() == bs[i],
{
    assert(bs.subrange(lo, i + 1).drop_last() =~= bs.subrange(lo, i));
}

/// Reads the ASCII digits `bs[lo..hi]` as a number; `None` unless all are
/// digits.
fn read_digits(bs: &Vec<u8>, lo: usize, hi: usize) -> (r: Option<i32>)
    requires
        lo <= hi <= bs@.len(),
        hi - lo <= 4,
    ensures
        r is Some <==> all_digits(bs@.subrange(lo as int, hi as int)),
        r matches Some(v) ==> v as int == digits_value(bs@.subrange(lo as int, hi as int)),
        r matches Some(v) ==> 0 <= v < 10000,
{
    let mut acc: i32 = 0;
    let mut i: usize = lo;
    assert(bs@.subrange(lo as int, lo as int) =~= Seq::<u8>::empty());
    while i < hi
        invariant
            lo <= i <= hi,
            hi <= bs@.len(),
            hi - lo <= 4,
            all_digits(bs@.subrange(lo as int, i as int)),
            acc as int == digits_value(bs@.subrange(lo as int, i as int)),
            0 <= acc < 10000,
            acc < pow10(i - lo),
        decreases hi - i,
    {
        let b = bs[i];
        proof {
            lemma_digits_step(bs@, lo as int, i as int);
        }
        if b < 48 || b > 57 {
            proof {
                let s = bs@.subrange(lo as int, hi as int);
                assert(s[i - lo] == b);
            }
            return None;
        }
        proof {
            let s1 = bs@.subrange(lo as int, i as int + 1);
            assert forall|j: int| 0 <= j < s1.len() implies is_digit(#[trigger] s1[j]) by {
                if j < i - lo {
                    assert(s1[j] == bs@.subrange(lo as int, i as int)[j]);
                }
            }
        }
        acc = acc * 10 + (b - 48) as i32;
        i = i + 1;
    }
    Some(acc)
}

/// 10 to the power `k`, for `k` up to 4.
spec fn pow10(k: int) -> int {
    if k <= 0 { 1 } else if k == 1 { 10 } else if k == 2 { 100 } else if k == 3 { 1000 } else { 10000 }
}

/// Reads `bs[lo..hi]` as Rust's `FromStr` for a signed integer does (for at
/// most four bytes no range check can fail).
fn read_int(bs: &Vec<u8>, lo: usize, hi: usize) -> (r: Option<i32>)
    requires
        lo <= hi <= bs@.len(),
        hi - lo <= 4,
    ensures
        r is Some <==> parse_int(bs@.subrange(lo as int, hi as int)) is Some,
        r matches Some(v) ==> parse_int(bs@.subrange(lo as int, hi as int)) == Some(v as int),
{
    let ghost s = bs@.subrange(lo as int, hi as int);
    if lo == hi {
        return None;
    }
    let c = bs[lo];
    assert(s[0] == c);
    if c == 43 || c == 45 {
        assert(s.drop_first() =~= bs@.subrange(lo + 1, hi as int));
        if lo + 1 == hi {
            return None;
        }
        match read_digits(bs, lo + 1, hi) {
            Some(v) => {
                if c == 45 { Some(-v) } else { Some(v) }
            },
            None => None,
        }
    } else {
        read_digits(bs, lo, hi)
    }
}

/// Whether the week date reader can look at the separators of `t`: the
/// condition `parse_iso_week_date` and `from_str` ask of their text.
pub fn week_text_sliceable(t: &str) -> (r: bool)
    ensures
        r == !week_text_unsliceable(t.spec_bytes()),
{
    let bs = t.as_bytes_vec();
    if bs.len() != 10 {
        return true;
    }
    let b4 = !(0x80 <= bs[4] && bs[4] <= 0xBF);
    let b6 = !(0x80 <= bs[6] && bs[6] <= 0xBF);
    let b8 = !(0x80 <= bs[8] && bs[8] <= 0xBF);
    let b9 = !(0x80 <= bs[9] && bs[9] <= 0xBF);
    b4 && b6 && !(bs[4] == 45 && bs[5] == 87 && (!b8 || !b9))
}

/// Reads the text form `YYYY-Www-D` of an ISO week date.
pub fn parse_iso_week_date(t: &str) -> (r: Result<RyISOWeekDate, IsoWeekDateError>)
    requires
        !week_text_unsliceable(t.spec_bytes()),
    ensures
        r matches Ok(v) ==> week_text_result(t.spec_bytes()) == Ok::<(int, int, int), IsoWeekDateError>(
            (v@.0, v@.1, weekday_number(v@.2)),
        ),
        r matches Err(e) ==> week_text_result(t.spec_bytes()) == Err::<(int, int, int), IsoWeekDateError>(e),
{
    let bs = t.as_bytes_vec();
    if bs.len() != 10 || bs[4] != 45 || bs[5] != 87 || bs[8] != 45 {
        return Err(IsoWeekDateError::BadFormat);
    }
    let y = read_int(&bs, 0, 4);
    let w = read_int(&bs, 6, 8);
    let d = read_int(&bs, 9, 10);
    match (y, w, d) {
        (Some(y), Some(w), Some(d)) => {
            if d < 1 || d > 7 {
                return Err(IsoWeekDateError::BadWeekday);
            }
            proof {
                assert(-999 <= y <= 9999) by {
                    assert(y as int == parse_int(bs@.subrange(0, 4))->0);
                    lemma_parse_int_bound(bs@.subrange(0, 4));
                }
                assert(-9 <= w <= 99) by {
                    lemma_parse_int_bound(bs@.subrange(6, 8));
                }
            }
            let wd = weekday_of_number(d as i8);
            if !iso_week_valid_exec(y as i16, w as i8, d as i8) {
                return Err(IsoWeekDateError::OutOfRange);
            }
            Ok(RyISOWeekDate { year: y as i16, week: w as i8, weekday: wd })
        },
        _ => Err(IsoWeekDateError::BadNumber),
    }
}

proof fn lemma_digits_bound(bs: Seq<u8>)
    requires
        all_digits(bs),
        bs.len() <= 4,
    ensures
        0 <= digits_value(bs) < pow10(bs.len() as int),
    decreases bs.len(),
{
    if bs.len() > 0 {
        let p = bs.drop_last();
        assert(all_digits(p)) by {
            assert forall|i: int| 0 <= i < p.len() implies is_digit(#[trigger] p[i]) by {
                assert(p[i] == bs[i]);
            }
        }
        lemma_digits_bound(p);
        assert(is_digit(bs[bs.len() - 1]));
        assert(pow10(bs.len() as int) == pow10(bs.len() - 1) * 10);
    }
}

proof fn lemma_parse_int_bound(bs: Seq<u8>)
    requires
        bs.len() <= 4,
    ensures
        parse_int(bs) matches Some(v) ==> -pow10(bs.len() - 1) < v < pow10(bs.len() as int),
{
    if bs.len() > 0 {
        if bs[0] == 43u8 || bs[0] == 45u8 {
            if bs.drop_first().len() > 0 && all_digits(bs.drop_first()) {
                lemma_digits_bound(bs.drop_first());
            }
        } else if all_digits(bs) {
            lemma_digits_bound(bs);
        }
    }
}

/// A week of an ISO week-numbering year, and a day of that week.
#[derive(Clone, Copy, Debug, PartialEq, Eq, Hash, Structural)]
pub struct RyISOWeekDate {
    year: i16,
    week: i8,
    weekday: JiffWeekday,
}

impl View for RyISOWeekDate {
    type V = (int, int, JiffWeekday);

    /// The ISO year, the week and the weekday.
    closed spec fn view(&self) -> (int, int, JiffWeekday) {
        (self.year as int, self.week as int, self.weekday)
    }
}

impl RyISOWeekDate {
    #[verifier::type_invariant]
    spec fn inv(self) -> bool {
        iso_week_valid(self.year as int, self.week as int, weekday_number(self.weekday))
    }

    /// The week date `(year, week, weekday)` (the Python constructor);
    /// fails unless the year is supported, has that week, and the day is a
    /// supported date.
    pub fn py_new(year: i16, week: i8, weekday: JiffWeekday) -> (r: Result<RyISOWeekDate, IsoWeekDateError>)
        ensures
            r is Ok <==> iso_week_valid(year as int, week as int, weekday_number(weekday)),
            r matches Ok(v) ==> v@ == (year as int, week as int, weekday),
            r matches Err(e) ==> e == IsoWeekDateError::OutOfRange,
    {
        if iso_week_valid_exec(year, week, weekday_number_of(weekday)) {
            Ok(RyISOWeekDate { year, week, weekday })
        } else {
            Err(IsoWeekDateError::OutOfRange)
        }
    }

    /// The earliest week date, -9999 week 1 Monday.
    #[allow(non_snake_case)]
    pub fn MIN() -> (r: RyISOWeekDate)
        ensures
            r@ == (-9999int, 1int, JiffWeekday::Monday),
    {
        RyISOWeekDate { year: -9999, week: 1, weekday: JiffWeekday::Monday }
    }

    /// The latest week date, 9999 week 52 Friday.
    #[allow(non_snake_case)]
    pub fn MAX() -> (r: RyISOWeekDate)
        ensures
            r@ == (9999int, 52int, JiffWeekday::Friday),
    {
        RyISOWeekDate { year: 9999, week: 52, weekday: JiffWeekday::Friday }
    }

    /// Year 0, week 1, Monday.
    #[allow(non_snake_case)]
    pub fn ZERO() -> (r: RyISOWeekDate)
        ensures
            r@ == (0int, 1int, JiffWeekday::Monday),
    {
        RyISOWeekDate { year: 0, week: 1, weekday: JiffWeekday::Monday }
    }

    /// The ISO year.
    pub fn year(&self) -> (r: i16)
        ensures
            r as int == self@.0,
            year_ok(r as int),
            iso_week_valid(self@.0, self@.1, weekday_number(self@.2)),
    {
        proof {
            use_type_invariant(self);
        }
        self.year
    }

    /// The week, 1..=53.
    pub fn week(&self) -> (r: i8)
        ensures
            r as int == self@.1,
            1 <= r <= 53,
    {
        proof {
            use_type_invariant(self);
            lemma_iso_weeks_at_most_53(self@.0);
        }
        proof {
            use_type_invariant(self);
        }
        self.week
    }

    /// The weekday.
    pub fn weekday(&self) -> (r: JiffWeekday)
        ensures
            r == self@.2,
            iso_week_valid(self@.0, self@.1, weekday_number(r)),
    {
        proof {
            use_type_invariant(self);
        }
        self.weekday
    }

    /// The ISO week date of a civil date (`from_date`,
    /// `Date.iso_week_date`): the week date with the same day number.
    pub fn from_date(d: &RyDate) -> (r: RyISOWeekDate)
        ensures
            iso_week_day_number(r@.0, r@.1, weekday_number(r@.2)) == epoch_day(d@.0, d@.1, d@.2),
    {
        let n = d.epoch_day_number();
        let y = d.year() as i32;
        let wd = d.weekday();
        let s0 = iso_year_start_exec(y);
        let s1 = iso_year_start_exec(y + 1);
        proof {
            lemma_year_days(d@.0, d@.1, d@.2);
            lemma_iso_year_of(y as int, n as int);
            lemma_iso_years_at_the_ends();
        }
        let (iy, base) = if n >= s1 {
            (y + 1, s1)
        } else if n < s0 {
            (y - 1, iso_year_start_exec(y - 1))
        } else {
            (y, s0)
        };
        proof {
            lemma_iso_week_of_day(iy as int, n as int);
        }
        let w = (n - base) / 7 + 1;
        RyISOWeekDate { year: iy as i16, week: w as i8, weekday: weekday_of_number(wd) }
    }

    /// The civil date of this week date (`date`): the date with the same
    /// day number.
    pub fn date(&self) -> (r: RyDate)
        ensures
            epoch_day(r@.0, r@.1, r@.2) == iso_week_day_number(self@.0, self@.1, weekday_number(self@.2)),
    {
        proof {
            use_type_invariant(self);
        }
        let s0 = iso_year_start_exec(self.year() as i32);
        let n: i32 = s0 + 7 * (self.week() as i32 - 1) + (weekday_number_of(self.weekday()) as i32 - 1);
        date_of_epoch_day(n)
    }

    /// Compares two week dates chronologically with a Python comparison
    /// operator.
    pub fn rich_compare(&self, other: &RyISOWeekDate, op: CompareOp) -> (r: bool)
        ensures
            r == op_holds(op, lex_sign(seq![self@.0, self@.1, weekday_number(self@.2)],
                seq![other@.0, other@.1, weekday_number(other@.2)])),
    {
        let a = [self.year() as i64, self.week() as i64, weekday_number_of(self.weekday()) as i64];
        let b = [other.year() as i64, other.week() as i64, weekday_number_of(other.weekday()) as i64];
        let s = lex_compare(&a, &b);
        assert(ints(a@) =~= seq![self@.0, self@.1, weekday_number(self@.2)]);
        assert(ints(b@) =~= seq![other@.0, other@.1, weekday_number(other@.2)]);
        apply_op(op, s)
    }

    /// The text form `YYYY-Www-D` (`str`, `to_string`, `isoformat`).
    pub fn to_string(&self) -> (r: String)
        ensures
            r@ == week_date_text(self@.0, self@.1, weekday_number(self@.2)),
    {
        let mut out = String::new();
        push_padded_i64(&mut out, self.year() as i64, 4);
        push_char(&mut out, '-');
        push_char(&mut out, 'W');
        push_padded_i64(&mut out, self.week() as i64, 2);
        push_char(&mut out, '-');
        push_i64(&mut out, weekday_number_of(self.weekday()) as i64);
        assert(out@ =~= week_date_text(self@.0, self@.1, weekday_number(self@.2)));
        out
    }

    /// The repr, `ISOWeekDate(2024, 3, 'monday')`.
    pub fn repr(&self) -> (r: String)
        ensures
            r@ == week_date_repr_text(self@.0, self@.1, self@.2),
    {
        let mut out = String::new();
        proof {
            reveal_strlit("ISOWeekDate(");
            reveal_strlit(", ");
        }
        push_str(&mut out, "ISOWeekDate(");
        push_i64(&mut out, self.year() as i64);
        push_str(&mut out, ", ");
        push_i64(&mut out, self.week() as i64);
        push_str(&mut out, ", ");
        push_char(&mut out, '\'');
        push_str(&mut out, self.weekday().static_str());
        push_char(&mut out, '\'');
        push_char(&mut out, ')');
        assert(out@ =~= week_date_repr_text(self@.0, self@.1, self@.2));
        out
    }

    /// Reads a week date from text (`from_str`, `parse`): text that `jiff`
    /// reads as a civil date gives that date's week date; otherwise the
    /// text must have the form `YYYY-Www-D`.
    pub fn from_str(t: &str) -> (r: Result<RyISOWeekDate, IsoWeekDateError>)
        requires
            !week_text_unsliceable(t.spec_bytes()),
        ensures
            crate::date::jiff_date_parse(t@) matches Some(d) ==> r matches Ok(v)
                && iso_week_day_number(v@.0, v@.1, weekday_number(v@.2)) == epoch_day(d.0, d.1, d.2),
            crate::date::jiff_date_parse(t@) is None ==> (r matches Ok(v)
                ==> week_text_result(t.spec_bytes()) == Ok::<(int, int, int), IsoWeekDateError>(
                    (v@.0, v@.1, weekday_number(v@.2)))),
            crate::date::jiff_date_parse(t@) is None ==> (r matches Err(e)
                ==> week_text_result(t.spec_bytes()) == Err::<(int, int, int), IsoWeekDateError>(e)),
    {
        let own = parse_iso_week_date(t);
        match RyDate::from_str(t) {
            Some(d) => Ok(RyISOWeekDate::from_date(&d)),
            None => own,
        }
    }
}

/// The ISO number of a weekday, Monday 1 to Sunday 7.
fn weekday_number_of(w: JiffWeekday) -> (r: i8)
    ensures
        r as int == weekday_number(w),
        1 <= r <= 7,
{
    match w {
        JiffWeekday::Monday => 1,
        JiffWeekday::Tuesday => 2,
        JiffWeekday::Wednesday => 3,
        JiffWeekday::Thursday => 4,
        JiffWeekday::Friday => 5,
        JiffWeekday::Saturday => 6,
        JiffWeekday::Sunday => 7,
    }
}

/// Converting a date to its ISO week date and back gives the date again.
pub proof fn lemma_date_week_date_roundtrip(d: (int, int, int), w: (int, int, int), back: (int, int, int))
    requires
        date_ok(d.0, d.1, d.2),
        iso_week_valid(w.0, w.1, w.2),
        iso_week_day_number(w.0, w.1, w.2) == epoch_day(d.0, d.1, d.2),
        date_ok(back.0, back.1, back.2),
        epoch_day(back.0, back.1, back.2) == iso_week_day_number(w.0, w.1, w.2),
    ensures
        back == d,
{
    lemma_epoch_day_injective(back, d);
}

/// Converting an ISO week date to its date and back gives the week date
/// again.
pub proof fn lemma_week_date_date_roundtrip(w: (int, int, int), d: (int, int, int), back: (int, int, int))
    requires
        iso_week_valid(w.0, w.1, w.2),
        date_ok(d.0, d.1, d.2),
        epoch_day(d.0, d.1, d.2) == iso_week_day_number(w.0, w.1, w.2),
        iso_week_valid(back.0, back.1, back.2),
        iso_week_day_number(back.0, back.1, back.2) == epoch_day(d.0, d.1, d.2),
    ensures
        back == w,
{
    lemma_iso_week_day_number_injective(back, w);
}

/// The byte of a decimal digit character is an ASCII digit whose value is
/// the digit.
proof fn lemma_digit_byte(x: int)
    requires
        0 <= x < 10,
    ensures
        is_digit(digit_char(x) as u8),
        (digit_char(x) as u8) - 48 == x,
        digit_char(x) != '-' && digit_char(x) != '+',
{
}

/// A year from 0 to 9999 zero-padded to four characters is its four
/// decimal digits.
proof fn lemma_four_digits(y: int)
    requires
        0 <= y <= 9999,
    ensures
        padded_int_text(y, 4) =~= seq![digit_char(y / 1000), digit_char((y / 100) % 10), digit_char((y / 10) % 10),
            digit_char(y % 10)],
        0 <= y / 1000 < 10 && 0 <= (y / 100) % 10 < 10 && 0 <= (y / 10) % 10 < 10 && 0 <= y % 10 < 10,
        (((y / 1000) * 10 + (y / 100) % 10) * 10 + (y / 10) % 10) * 10 + y % 10 == y,
{
    reveal_with_fuel(nat_digits, 5);
    assert(digit_char(0) == '0');
    if y < 10 {
        assert(zeros(3) =~= seq!['0', '0', '0']);
    } else if y < 100 {
        assert(zeros(2) =~= seq!['0', '0']);
    } else if y < 1000 {
        assert(zeros(1) =~= seq!['0']);
    } else {
        assert(zeros(0) =~= Seq::<char>::empty());
    }
}

/// A week from 1 to 53 zero-padded to two characters is its two decimal
/// digits, and a weekday number from 1 to 7 is its one digit.
proof fn lemma_two_digits(w: int, d: int)
    requires
        1 <= w <= 53,
        1 <= d <= 7,
    ensures
        padded_int_text(w, 2) =~= seq![digit_char(w / 10), digit_char(w % 10)],
        int_text(d) =~= seq![digit_char(d)],
        0 <= w / 10 < 10 && 0 <= w % 10 < 10,
        (w / 10) * 10 + w % 10 == w,
{
    reveal_with_fuel(nat_digits, 3);
    assert(digit_char(0) == '0');
    if w < 10 {
        assert(zeros(1) =~= seq!['0']);
    } else {
        assert(zeros(0) =~= Seq::<char>::empty());
    }
}

/// Four, two or one ASCII digit bytes read as the number they spell.
proof fn lemma_read_digits(b0: u8, b1: u8, b2: u8, b3: u8)
    requires
        is_digit(b0),
        is_digit(b1),
        is_digit(b2),
        is_digit(b3),
    ensures
        parse_int(seq![b0, b1, b2, b3]) == Some((((b0 - 48) * 10 + (b1 - 48)) * 10 + (b2 - 48)) * 10 + (b3 - 48)),
        parse_int(seq![b0, b1]) == Some((b0 - 48) * 10 + (b1 - 48)),
        parse_int(seq![b0]) == Some(b0 - 48),
{
    let s4 = seq![b0, b1, b2, b3];
    let s3 = seq![b0, b1, b2];
    let s2 = seq![b0, b1];
    let s1 = seq![b0];
    assert(s4.drop_last() =~= s3);
    assert(s3.drop_last() =~= s2);
    assert(s2.drop_last() =~= s1);
    assert(s1.drop_last() =~= Seq::<u8>::empty());
    assert(digits_value(Seq::<u8>::empty()) == 0);
    assert(digits_value(s1) == b0 - 48);
    assert(digits_value(s2) == (b0 - 48) * 10 + (b1 - 48));
    assert(digits_value(s3) == ((b0 - 48) * 10 + (b1 - 48)) * 10 + (b2 - 48));
    assert(all_digits(s4));
    assert(all_digits(s2));
    assert(all_digits(s1));
}

/// The bytes of the ten-character text form of a week date whose year has
/// four digits `a b c e`, whose week has two digits `f g` and whose weekday
/// number is `d`.
proof fn lemma_week_text_bytes(a: int, b: int, c: int, e: int, f: int, g: int, d: int)
    requires
        0 <= a < 10 && 0 <= b < 10 && 0 <= c < 10 && 0 <= e < 10 && 0 <= f < 10 && 0 <= g < 10 && 0 <= d < 10,
    ensures
        ({
            let cs = seq![digit_char(a), digit_char(b), digit_char(c), digit_char(e), '-', 'W', digit_char(f),
                digit_char(g), '-', digit_char(d)];
            let bs = vstd::utf8::encode_utf8(cs);
            &&& bs.len() == 10
            &&& bs[4] == 45u8 && bs[5] == 87u8 && bs[8] == 45u8
            &&& bs.subrange(0, 4) =~= seq![digit_char(a) as u8, digit_char(b) as u8, digit_char(c) as u8,
                digit_char(e) as u8]
            &&& bs.subrange(6, 8) =~= seq![digit_char(f) as u8, digit_char(g) as u8]
            &&& bs.subrange(9, 10) =~= seq![digit_char(d) as u8]
        }),
{
    let cs = seq![digit_char(a), digit_char(b), digit_char(c), digit_char(e), '-', 'W', digit_char(f),
        digit_char(g), '-', digit_char(d)];
    lemma_digit_byte(a);
    lemma_digit_byte(b);
    lemma_digit_byte(c);
    lemma_digit_byte(e);
    lemma_digit_byte(f);
    lemma_digit_byte(g);
    lemma_digit_byte(d);
    assert(vstd::utf8::is_ascii_chars(cs)) by {
        assert forall|i| 0 <= i < cs.len() implies '\0' <= #[trigger] cs[i] <= '\u{7f}' by {
            lemma_digit_ascii(a);
            lemma_digit_ascii(b);
            lemma_digit_ascii(c);
            lemma_digit_ascii(e);
            lemma_digit_ascii(f);
            lemma_digit_ascii(g);
            lemma_digit_ascii(d);
        }
    }
    vstd::utf8::is_ascii_chars_encode_utf8(cs);
    let bs = vstd::utf8::encode_utf8(cs);
    assert(cs[4] == '-' && cs[5] == 'W' && cs[8] == '-');
    assert(cs[0] == digit_char(a) && cs[1] == digit_char(b) && cs[2] == digit_char(c) && cs[3] == digit_char(e));
    assert(cs[6] == digit_char(f) && cs[7] == digit_char(g) && cs[9] == digit_char(d));
}

/// A decimal digit character is ASCII.
proof fn lemma_digit_ascii(x: int)
    requires
        0 <= x < 10,
    ensures
        '\0' <= digit_char(x) <= '\u{7f}',
{
}

/// Reading the text form of an ISO week date with a year from 0 to 9999
/// gives that week date back.
pub proof fn lemma_week_date_text_reads_back(y: int, w: int, d: int)
    requires
        0 <= y <= 9999,
        iso_week_valid(y, w, d),
    ensures
        week_text_result(vstd::utf8::encode_utf8(week_date_text(y, w, d)))
            == Ok::<(int, int, int), IsoWeekDateError>((y, w, d)),
{
    lemma_iso_weeks_at_most_53(y);
    lemma_four_digits(y);
    lemma_two_digits(w, d);
    let a = y / 1000;
    let b = (y / 100) % 10;
    let c = (y / 10) % 10;
    let e = y % 10;
    let f = w / 10;
    let g = w % 10;
    let cs = week_date_text(y, w, d);
    assert(cs =~= seq![digit_char(a), digit_char(b), digit_char(c), digit_char(e), '-', 'W', digit_char(f),
        digit_char(g), '-', digit_char(d)]);
    lemma_week_text_bytes(a, b, c, e, f, g, d);
    lemma_digit_byte(a);
    lemma_digit_byte(b);
    lemma_digit_byte(c);
    lemma_digit_byte(e);
    lemma_digit_byte(f);
    lemma_digit_byte(g);
    lemma_digit_byte(d);
    lemma_read_digits(digit_char(a) as u8, digit_char(b) as u8, digit_char(c) as u8, digit_char(e) as u8);
    lemma_read_digits(digit_char(f) as u8, digit_char(g) as u8, digit_char(c) as u8, digit_char(e) as u8);
    lemma_read_digits(digit_char(d) as u8, digit_char(g) as u8, digit_char(c) as u8, digit_char(e) as u8);
    let bs = vstd::utf8::encode_utf8(cs);
    assert(parse_int(bs.subrange(0, 4)) == Some(y));
    assert(parse_int(bs.subrange(6, 8)) == Some(w));
    assert(parse_int(bs.subrange(9, 10)) == Some(d));
    lemma_week_result_of_parts(bs, y, w, d);
}

/// A ten-byte text with the week date separators whose three numbers read
/// as a valid week date reads as that week date.
proof fn lemma_week_result_of_parts(bs: Seq<u8>, y: int, w: int, d: int)
    requires
        bs.len() == 10,
        has_week_separators(bs),
        parse_int(bs.subrange(0, 4)) == Some(y),
        parse_int(bs.subrange(6, 8)) == Some(w),
        parse_int(bs.subrange(9, 10)) == Some(d),
        iso_week_valid(y, w, d),
    ensures
        week_text_result(bs) == Ok::<(int, int, int), IsoWeekDateError>((y, w, d)),
{
}

} // verus!
