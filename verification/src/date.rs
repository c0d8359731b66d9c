//! Civil dates: the proleptic Gregorian calendar rules that decide which
//! dates exist, the ordinal and neighbouring dates, `replace`, comparison and
//! the repr.
use vstd::prelude::*;
use crate::compare::{CompareOp, apply_op, op_holds, lex_sign, lex_compare, ints};
use crate::text::{int_text, push_i64, push_str, push_char};
use crate::units::{JiffEra, JiffWeekday, weekday_from_number, weekday_number};
use crate::signed_duration::RySignedDuration;
use vstd::arithmetic::div_mod::{lemma_hoist_over_denominator, lemma_fundamental_div_mod, lemma_mod_multiples_basic};
use vstd::arithmetic::div_mod::{lemma_mod_bound, lemma_mod_multiples_vanish, lemma_div_by_multiple, lemma_small_mod};

verus! {

/// Whether `y` is a leap year.
pub open spec fn is_leap_year(y: int) -> bool {
    y % 4 == 0 && (y % 100 != 0 || y % 400 == 0)
}

/// The number of days in month `m` of year `y`.
pub open spec fn days_in_month(y: int, m: int) -> int {
    if m == 2 {
        if is_leap_year(y) { 29 } else { 28 }
    } else if m == 4 || m == 6 || m == 9 || m == 11 {
        30
    } else {
        31
    }
}

/// The number of days in year `y`.
pub open spec fn days_in_year(y: int) -> int {
    if is_leap_year(y) { 366 } else { 365 }
}

/// Whether `y` is a year `jiff` supports.
pub open spec fn year_ok(y: int) -> bool {
    -9999 <= y <= 9999
}

/// Whether `(y, m, d)` names a date `jiff` supports.
pub open spec fn date_ok(y: int, m: int, d: int) -> bool {
    year_ok(y) && 1 <= m <= 12 && 1 <= d <= days_in_month(y, m)
}

/// The number of days of year `y` before month `m`.
pub open spec fn days_before_month(y: int, m: int) -> int {
    let base: int = if m <= 1 { 0 }
    else if m == 2 { 31 }
    else if m == 3 { 59 }
    else if m == 4 { 90 }
    else if m == 5 { 120 }
    else if m == 6 { 151 }
    else if m == 7 { 181 }
    else if m == 8 { 212 }
    else if m == 9 { 243 }
    else if m == 10 { 273 }
    else if m == 11 { 304 }
    else { 334 };
    if m > 2 && is_leap_year(y) { base + 1 } else { base }
}

/// The day of the year, 1 for January 1.
pub open spec fn day_of_year(y: int, m: int, d: int) -> int {
    days_before_month(y, m) + d
}

/// The day of the year counted as if February 29 did not exist; `None` on
/// February 29.
pub open spec fn day_of_year_no_leap(y: int, m: int, d: int) -> Option<int> {
    let n = day_of_year(y, m, d);
    if is_leap_year(y) && n == 60 {
        None
    } else if is_leap_year(y) && n > 60 {
        Some(n - 1)
    } else {
        Some(n)
    }
}

/// The number of days from January 1 of year 1 to January 1 of year `y`
/// in the proleptic Gregorian calendar (negative before year 1).
pub open spec fn days_before_year(y: int) -> int {
    let p = y - 1;
    365 * p + p / 4 - p / 100 + p / 400
}

/// The number of days from 1970-01-01 to a date (negative before it).
pub open spec fn epoch_day(y: int, m: int, d: int) -> int {
    days_before_year(y) + day_of_year(y, m, d) - 1 - days_before_year(1970)
}

/// Whether `n` is the day number of a supported date (-9999-01-01 to
/// 9999-12-31).
pub open spec fn epoch_day_in_range(n: int) -> bool {
    epoch_day(-9999, 1, 1) <= n <= epoch_day(9999, 12, 31)
}

/// Nanoseconds per civil day.
pub open spec fn nanos_per_day() -> int {
    86_400_000_000_000
}

/// The exact time from date `b` to date `a`, in nanoseconds: a whole
/// number of 24-hour days.
pub open spec fn date_nanos_between(a: (int, int, int), b: (int, int, int)) -> int {
    (epoch_day(a.0, a.1, a.2) - epoch_day(b.0, b.1, b.2)) * nanos_per_day()
}

/// The ISO weekday of a date, Monday 1 to Sunday 7 (1970-01-01 was a
/// Thursday).
pub open spec fn weekday_of(y: int, m: int, d: int) -> int {
    (epoch_day(y, m, d) + 3) % 7 + 1
}

/// The day number of the Monday that starts ISO week 1 of year `y`: the
/// week that holds January 4.
pub open spec fn iso_year_start(y: int) -> int {
    epoch_day(y, 1, 4) - (weekday_of(y, 1, 4) - 1)
}

/// The number of ISO weeks of year `y` (52 or 53).
pub open spec fn iso_weeks_in_year(y: int) -> int {
    (iso_year_start(y + 1) - iso_year_start(y)) / 7
}

/// The day number of day `d` (Monday 1) of ISO week `w` of year `y`.
pub open spec fn iso_week_day_number(y: int, w: int, d: int) -> int {
    iso_year_start(y) + 7 * (w - 1) + (d - 1)
}

/// Whether `(y, w, d)` is a supported ISO week date: a supported year, one
/// of its weeks, a weekday 1..=7, on a supported date.
pub open spec fn iso_week_valid(y: int, w: int, d: int) -> bool {
    &&& year_ok(y)
    &&& 1 <= w <= iso_weeks_in_year(y)
    &&& 1 <= d <= 7
    &&& epoch_day_in_range(iso_week_day_number(y, w, d))
}

/// The number of days from weekday `b` forward to weekday `a` (0..=6),
/// weekdays numbered 1..=7.
pub open spec fn weekday_since(a: int, b: int) -> int {
    (a - b) % 7
}

/// The day of month `m` of year `y` that is its `nth` weekday `wd`:
/// counted from the first of the month for positive `nth`, from the last
/// for negative `nth`.
pub open spec fn nth_weekday_of_month_day(y: int, m: int, nth: int, wd: int) -> int {
    if nth > 0 {
        weekday_since(wd, weekday_of(y, m, 1)) + 1 + (nth - 1) * 7
    } else {
        days_in_month(y, m) - weekday_since(weekday_of(y, m, days_in_month(y, m)), wd) - (-nth - 1) * 7
    }
}

/// The day number of the `nth` weekday `wd` after (positive `nth`) or
/// before (negative `nth`) the day numbered `e`, whose weekday is `w`,
/// not counting that day itself.
pub open spec fn nth_weekday_day_number(e: int, w: int, nth: int, wd: int) -> int {
    if nth > 0 {
        e + (nth - 1) * 7 + weekday_since(wd, w % 7 + 1) + 1
    } else {
        e - ((-nth - 1) * 7 + weekday_since(if w == 1 { 7 } else { w - 1 }, wd)) - 1
    }
}

/// The era year of a year: years from 1 on are years of the common era;
/// year 0 is 1 BCE, year -1 is 2 BCE, and so on.
pub open spec fn era_year_of(y: int) -> (int, JiffEra) {
    if y >= 1 { (y, JiffEra::CE) } else { (1 - y, JiffEra::BCE) }
}

/// The day after a date.
pub open spec fn next_date(y: int, m: int, d: int) -> (int, int, int) {
    if d < days_in_month(y, m) {
        (y, m, d + 1)
    } else if m < 12 {
        (y, m + 1, 1)
    } else {
        (y + 1, 1, 1)
    }
}

/// The day before a date.
pub open spec fn prev_date(y: int, m: int, d: int) -> (int, int, int) {
    if d > 1 {
        (y, m, d - 1)
    } else if m > 1 {
        (y, m - 1, days_in_month(y, m - 1))
    } else {
        (y - 1, 12, 31)
    }
}

/// The repr: `Date(year=Y, month=M, day=D)`.
pub open spec fn date_repr_text(y: int, m: int, d: int) -> Seq<char> {
    seq!['D', 'a', 't', 'e', '(', 'y', 'e', 'a', 'r', '='] + int_text(y) + seq![',', ' ', 'm', 'o',
        'n', 't', 'h', '='] + int_text(m) + seq![',', ' ', 'd', 'a', 'y', '='] + int_text(d) + seq![')']
}

/// What `jiff` prints for a date (ISO 8601, `2024-03-15`).
pub uninterp spec fn jiff_date_text(y: int, m: int, d: int) -> Seq<char>;

/// The date `jiff` parses from text, if any.
pub uninterp spec fn jiff_date_parse(s: Seq<char>) -> Option<(int, int, int)>;

/// What `jiff` prints for a date under a `strftime` format (lenient: an
/// unknown directive is printed as it stands).
pub uninterp spec fn jiff_date_strftime(fmt: Seq<char>, d: (int, int, int)) -> Seq<char>;

/// The date `jiff` reads from text under a `strptime` format, if any.
pub uninterp spec fn jiff_date_strptime(fmt: Seq<char>, s: Seq<char>) -> Option<(int, int, int)>;


/// The year that `replace` takes: an era year if one is given (CE years
/// 1..=9999, BCE years 1..=10000, BCE year `n` being year `1 - n`), else the
/// given year, else the date's own; `None` when the given value is out of
/// range.
pub open spec fn replaced_year(own: int, year: Option<i16>, era_year: Option<(i16, JiffEra)>) -> Option<int> {
    match era_year {
        Some((n, JiffEra::CE)) => if 1 <= n <= 9999 { Some(n as int) } else { None },
        Some((n, JiffEra::BCE)) => if 1 <= n <= 10000 { Some(1 - n) } else { None },
        None => match year {
            Some(y) => if year_ok(y as int) { Some(y as int) } else { None },
            None => Some(own),
        },
    }
}

/// What `replace` on date `(y, m, d)` gives, as `jiff`'s `DateWith`
/// builder does: the year as `replaced_year`; the month checked to be
/// 1..=12; then a day of the year counted without February 29 if given,
/// else a day of the year if given (each must fall in the year; the month
/// is then unused), else the day of the month, checked to be 1..=31 and to
/// exist in the month.
pub open spec fn date_replace_ok(
    y: int,
    m: int,
    d: int,
    year: Option<i16>,
    era_year: Option<(i16, JiffEra)>,
    month: Option<i8>,
    day: Option<i8>,
    doy: Option<i16>,
    doy_no_leap: Option<i16>,
) -> bool {
    match replaced_year(y, year, era_year) {
        None => false,
        Some(ny) => {
            let nm = match month { Some(v) => v as int, None => m };
            &&& 1 <= nm <= 12
            &&& match doy_no_leap {
                Some(n) => 1 <= n <= 365,
                None => match doy {
                    Some(n) => 1 <= n <= days_in_year(ny),
                    None => {
                        let nd = match day { Some(v) => v as int, None => d };
                        (day matches Some(v) ==> 1 <= v <= 31) && date_ok(ny, nm, nd)
                    },
                },
            }
        },
    }
}

/// Whether date `r` is the one `replace` on `(y, m, d)` gives, when it
/// succeeds: in the replaced year, at the requested day of the year, or at
/// the requested month and day.
pub open spec fn date_replace_result(
    r: (int, int, int),
    y: int,
    m: int,
    d: int,
    year: Option<i16>,
    era_year: Option<(i16, JiffEra)>,
    month: Option<i8>,
    day: Option<i8>,
    doy: Option<i16>,
    doy_no_leap: Option<i16>,
) -> bool {
    let ny = replaced_year(y, year, era_year)->0;
    &&& date_ok(r.0, r.1, r.2)
    &&& r.0 == ny
    &&& match doy_no_leap {
        Some(n) => day_of_year_no_leap(r.0, r.1, r.2) == Some(n as int),
        None => match doy {
            Some(n) => day_of_year(r.0, r.1, r.2) == n,
            None => {
                &&& r.1 == (match month { Some(v) => v as int, None => m })
                &&& r.2 == (match day { Some(v) => v as int, None => d })
            },
        },
    }
}

/// Why a date could not be made (Python's `ValueError`).
#[derive(Clone, Copy, Debug, PartialEq, Eq, Structural)]
pub enum DateError {
    /// The date does not exist or is outside the supported range.
    OutOfRange,
}

/// A civil date of the proleptic Gregorian calendar, years -9999..=9999.
#[derive(Clone, Copy, Debug, PartialEq, Eq, Hash, Structural)]
pub struct RyDate {
    year: i16,
    month: i8,
    day: i8,
}

impl View for RyDate {
    type V = (int, int, int);

    /// The year, month and day.
    closed spec fn view(&self) -> (int, int, int) {
        (self.year as int, self.month as int, self.day as int)
    }
}

/// Whether `y` is a leap year, computed.
pub fn leap_year(y: i16) -> (r: bool)
    ensures
        r == is_leap_year(y as int),
{
    let z: u32 = (y as i32 + 40000) as u32;
    proof {
        let yi = y as int;
        assert(z as int == yi + 40000);
        assert((yi + 40000) % 4 == yi % 4) by (nonlinear_arith);
        assert((yi + 40000) % 100 == yi % 100) by (nonlinear_arith);
        assert((yi + 40000) % 400 == yi % 400) by (nonlinear_arith);
    }
    z % 4 == 0 && (z % 100 != 0 || z % 400 == 0)
}

/// The number of days in month `m` of year `y`, computed.
pub fn month_days(y: i16, m: i8) -> (r: i8)
    requires
        1 <= m <= 12,
    ensures
        r as int == days_in_month(y as int, m as int),
{
    if m == 2 {
        if leap_year(y) { 29 } else { 28 }
    } else if m == 4 || m == 6 || m == 9 || m == 11 {
        30
    } else {
        31
    }
}

fn month_start(y: i16, m: i8) -> (r: i16)
    requires
        1 <= m <= 12,
    ensures
        r as int == days_before_month(y as int, m as int),
{
    let base: i16 = match m {
        1 => 0,
        2 => 31,
        3 => 59,
        4 => 90,
        5 => 120,
        6 => 151,
        7 => 181,
        8 => 212,
        9 => 243,
        10 => 273,
        11 => 304,
        _ => 334,
    };
    if m > 2 && leap_year(y) { base + 1 } else { base }
}

/// Whether a date exists in the supported range, as `jiff`'s
/// `jiff::civil::Date::new` checks it: years -9999..=9999, months 1..=12 and
/// days that exist in the month.
fn date_exists(y: i16, m: i8, d: i8) -> (r: bool)
    ensures
        r == date_ok(y as int, m as int, d as int),
{
    -9999 <= y && y <= 9999 && 1 <= m && m <= 12 && 1 <= d && d <= month_days(y, m)
}

/// A date printed by `jiff`'s `Display` for `jiff::civil::Date`.
#[verifier::external_body]
fn jiff_date_to_string(y: i16, m: i8, d: i8) -> (r: String)
    requires
        date_ok(y as int, m as int, d as int),
    ensures
        r@ == jiff_date_text(y as int, m as int, d as int),
{
    jiff::civil::date(y, m, d).to_string()
}

/// A date parsed by `jiff`'s `FromStr` for `jiff::civil::Date`.
#[verifier::external_body]
fn jiff_date_from_str(t: &str) -> (r: Option<(i16, i8, i8)>)
    ensures
        r is None <==> jiff_date_parse(t@) is None,
        r matches Some(v) ==> jiff_date_parse(t@) == Some((v.0 as int, v.1 as int, v.2 as int)),
        r matches Some(v) ==> date_ok(v.0 as int, v.1 as int, v.2 as int),
{
    let d = t.parse::<jiff::civil::Date>().ok()?;
    Some((d.year(), d.month(), d.day()))
}

/// A date formatted by `jiff`'s `Date::strftime` (whose `Display` never
/// fails: it formats leniently).
#[verifier::external_body]
fn jiff_date_format(fmt: &str, y: i16, m: i8, d: i8) -> (r: String)
    requires
        date_ok(y as int, m as int, d as int),
    ensures
        r@ == jiff_date_strftime(fmt@, (y as int, m as int, d as int)),
{
    jiff::civil::date(y, m, d).strftime(fmt).to_string()
}

/// A date read by `jiff`'s `Date::strptime`.
#[verifier::external_body]
fn jiff_date_read(fmt: &str, t: &str) -> (r: Option<(i16, i8, i8)>)
    ensures
        r is None <==> jiff_date_strptime(fmt@, t@) is None,
        r matches Some(v) ==> jiff_date_strptime(fmt@, t@) == Some((v.0 as int, v.1 as int, v.2 as int)),
        r matches Some(v) ==> date_ok(v.0 as int, v.1 as int, v.2 as int),
{
    let d = jiff::civil::Date::strptime(fmt, t).ok()?;
    Some((d.year(), d.month(), d.day()))
}

/// The date in year `y` with day of the year `n`.
fn date_of_day_of_year(y: i16, n: i16) -> (r: RyDate)
    requires
        year_ok(y as int),
        1 <= n <= days_in_year(y as int),
    ensures
        r@.0 == y as int,
        day_of_year(r@.0, r@.1, r@.2) == n as int,
{
    let mut m: i8 = 1;
    while m < 12 && n > month_start(y, m + 1)
        invariant
            1 <= m <= 12,
            n > days_before_month(y as int, m as int),
            year_ok(y as int),
            1 <= n <= days_in_year(y as int),
        decreases 12 - m,
    {
        m = m + 1;
    }
    let d = n - month_start(y, m);
    proof {
        if m < 12 {
            assert(n <= days_before_month(y as int, m as int + 1));
        }
        assert(1 <= d <= days_in_month(y as int, m as int));
    }
    RyDate { year: y, month: m, day: d as i8 }
}

/// The day number of January 1 of year `y`.
fn year_start_day(y: i32) -> (r: i32)
    requires
        -9999 <= y <= 10000,
    ensures
        r as int == days_before_year(y as int) - days_before_year(1970),
{
    proof {
        lemma_days_before_year_shift(y as int);
        let p = y + 9999;
        assert(0 <= p / 4 <= 5000 && 0 <= p / 100 <= 200 && 0 <= p / 400 <= 50) by (nonlinear_arith)
            requires
                0 <= p <= 19999,
        ;
    }
    let p: i32 = y + 9999;
    365 * p + p / 4 - p / 100 + p / 400 - 3_652_425 - 719_162
}

/// The day number of the Monday that starts ISO week 1 of year `y`.
pub(crate) fn iso_year_start_exec(y: i32) -> (r: i32)
    requires
        -9999 <= y <= 10000,
    ensures
        r as int == iso_year_start(y as int),
{
    let e4: i32 = year_start_day(y) + 3;
    proof {
        lemma_days_before_year_shift(y as int);
        let p = y + 9999;
        assert(0 <= p / 4 <= 5000 && 0 <= p / 100 <= 200 && 0 <= p / 400 <= 50) by (nonlinear_arith)
            requires
                0 <= p <= 19999,
        ;
        lemma_mod_multiples_vanish(1_000_000, e4 as int + 3, 7);
    }
    let wd: i32 = (e4 + 7_000_003) % 7 + 1;
    e4 - (wd - 1)
}

/// The date with day number `n` (days from 1970-01-01).
pub(crate) fn date_of_epoch_day(n: i32) -> (r: RyDate)
    requires
        epoch_day_in_range(n as int),
    ensures
        epoch_day(r@.0, r@.1, r@.2) == n as int,
{
    let est: i64 = n as i64 * 400 / 146_097 + 1970;
    let mut y: i32 = if est < -9999 { -9999 } else if est > 9999 { 9999 } else { est as i32 };
    while y < 9999 && year_start_day(y + 1) <= n
        invariant
            -9999 <= y <= 9999,
        decreases 9999 - y,
    {
        y = y + 1;
    }
    proof {
        lemma_days_before_year_shift(10000);
    }
    while y > -9999 && year_start_day(y) > n
        invariant
            -9999 <= y <= 9999,
            n < days_before_year(y as int + 1) - days_before_year(1970),
        decreases y + 9999,
    {
        y = y - 1;
    }
    proof {
        lemma_days_before_next_year(y as int);
    }
    let doy: i32 = n - year_start_day(y) + 1;
    date_of_day_of_year(y as i16, doy as i16)
}

impl RyDate {
    #[verifier::type_invariant]
    spec fn inv(self) -> bool {
        date_ok(self.year as int, self.month as int, self.day as int)
    }

    /// The date `year-month-day` (the Python constructor `Date(y, m, d)`);
    /// fails unless the date exists and its year is in -9999..=9999.
    pub fn py_new(year: i16, month: i8, day: i8) -> (r: Result<RyDate, DateError>)
        ensures
            r is Ok <==> date_ok(year as int, month as int, day as int),
            r matches Ok(v) ==> v@ == (year as int, month as int, day as int),
    {
        if date_exists(year, month, day) {
            Ok(RyDate { year, month, day })
        } else {
            Err(DateError::OutOfRange)
        }
    }

    /// The date `year-month-day`, known to exist.
    pub(crate) fn from_valid(year: i16, month: i8, day: i8) -> (r: RyDate)
        requires
            date_ok(year as int, month as int, day as int),
        ensures
            r@ == (year as int, month as int, day as int),
    {
        RyDate { year, month, day }
    }

    /// The earliest supported date, -9999-01-01.
    #[allow(non_snake_case)]
    pub fn MIN() -> (r: RyDate)
        ensures
            r@ == (-9999int, 1int, 1int),
    {
        RyDate { year: -9999, month: 1, day: 1 }
    }

    /// The latest supported date, 9999-12-31.
    #[allow(non_snake_case)]
    pub fn MAX() -> (r: RyDate)
        ensures
            r@ == (9999int, 12int, 31int),
    {
        RyDate { year: 9999, month: 12, day: 31 }
    }

    /// The date 0000-01-01.
    #[allow(non_snake_case)]
    pub fn ZERO() -> (r: RyDate)
        ensures
            r@ == (0int, 1int, 1int),
    {
        RyDate { year: 0, month: 1, day: 1 }
    }

    /// Every date exists and has a supported year.
    pub fn year(&self) -> (r: i16)
        ensures
            r as int == self@.0,
            date_ok(self@.0, self@.1, self@.2),
    {
        proof {
            use_type_invariant(self);
        }
        self.year
    }

    /// The month, 1..=12.
    pub fn month(&self) -> (r: i8)
        ensures
            r as int == self@.1,
            1 <= r <= 12,
    {
        proof {
            use_type_invariant(self);
        }
        self.month
    }

    /// The day of the month.
    pub fn day(&self) -> (r: i8)
        ensures
            r as int == self@.2,
            1 <= r <= 31,
    {
        proof {
            use_type_invariant(self);
        }
        self.day
    }

    /// Whether the date's year is a leap year.
    pub fn in_leap_year(&self) -> (r: bool)
        ensures
            r == is_leap_year(self@.0),
    {
        leap_year(self.year())
    }

    /// The number of days in the date's month.
    pub fn days_in_month(&self) -> (r: i8)
        ensures
            r as int == days_in_month(self@.0, self@.1),
    {
        month_days(self.year(), self.month())
    }

    /// The number of days in the date's year.
    pub fn days_in_year(&self) -> (r: i16)
        ensures
            r as int == days_in_year(self@.0),
    {
        if self.in_leap_year() { 366 } else { 365 }
    }

    /// The day of the year, 1..=366.
    pub fn day_of_year(&self) -> (r: i16)
        ensures
            r as int == day_of_year(self@.0, self@.1, self@.2),
    {
        let y = self.year();
        month_start(y, self.month()) + self.day() as i16
    }

    /// The day of the year counted without February 29; `None` on February
    /// 29.
    pub fn day_of_year_no_leap(&self) -> (r: Option<i16>)
        ensures
            r matches Some(n) ==> day_of_year_no_leap(self@.0, self@.1, self@.2) == Some(n as int),
            r is None <==> day_of_year_no_leap(self@.0, self@.1, self@.2) is None,
    {
        let n = self.day_of_year();
        if self.in_leap_year() {
            if n == 60 {
                return None;
            } else if n > 60 {
                return Some(n - 1);
            }
        }
        Some(n)
    }

    /// The first day of the date's month.
    pub fn first_of_month(&self) -> (r: RyDate)
        ensures
            r@ == (self@.0, self@.1, 1int),
    {
        RyDate { year: self.year(), month: self.month(), day: 1 }
    }

    /// The last day of the date's month.
    pub fn last_of_month(&self) -> (r: RyDate)
        ensures
            r@ == (self@.0, self@.1, days_in_month(self@.0, self@.1)),
    {
        RyDate { year: self.year(), month: self.month(), day: self.days_in_month() }
    }

    /// January 1 of the date's year.
    pub fn first_of_year(&self) -> (r: RyDate)
        ensures
            r@ == (self@.0, 1int, 1int),
    {
        RyDate { year: self.year(), month: 1, day: 1 }
    }

    /// December 31 of the date's year.
    pub fn last_of_year(&self) -> (r: RyDate)
        ensures
            r@ == (self@.0, 12int, 31int),
    {
        RyDate { year: self.year(), month: 12, day: 31 }
    }

    /// The number of days from 1970-01-01 to this date.
    pub(crate) fn epoch_day_number(&self) -> (r: i32)
        ensures
            r as int == epoch_day(self@.0, self@.1, self@.2),
            date_ok(self@.0, self@.1, self@.2),
    {
        let y = self.year();
        let p: i32 = y as i32 + 9999;
        proof {
            lemma_days_before_year_shift(y as int);
        }
        let before: i32 = 365 * p + p / 4 - p / 100 + p / 400 - 3_652_425;
        before + self.day_of_year() as i32 - 1 - 719_162
    }

    /// The exact time elapsed from `other` until this date, a whole number
    /// of 24-hour days (negative when `other` is later).
    pub fn duration_since(&self, other: &RyDate) -> (r: RySignedDuration)
        ensures
            r@ == date_nanos_between(self@, other@),
    {
        let days: i64 = self.epoch_day_number() as i64 - other.epoch_day_number() as i64;
        proof {
            use_type_invariant(self);
            use_type_invariant(other);
            lemma_epoch_day_bounds(self@.0, self@.1, self@.2);
            lemma_epoch_day_bounds(other@.0, other@.1, other@.2);
        }
        RySignedDuration::from_normal_parts(days * 86_400, 0)
    }

    /// The exact time elapsed from this date until `other`.
    pub fn duration_until(&self, other: &RyDate) -> (r: RySignedDuration)
        ensures
            r@ == date_nanos_between(other@, self@),
    {
        other.duration_since(self)
    }

    /// The year with its era: `(year, CE)` from year 1 on, `(1 - year, BCE)`
    /// before.
    pub fn era_year(&self) -> (r: (i16, JiffEra))
        ensures
            (r.0 as int, r.1) == era_year_of(self@.0),
    {
        let y = self.year();
        if y >= 1 {
            (y, JiffEra::CE)
        } else {
            (1 - y, JiffEra::BCE)
        }
    }

    /// The `nth` given weekday of this date's month
    /// (`nth_weekday_of_month`): counted from the first of the month for
    /// positive `nth`, from the last for negative; fails unless `nth` is
    /// within -5..=5, not 0, and the month has that many.
    pub fn nth_weekday_of_month(&self, nth: i8, weekday: JiffWeekday) -> (r: Result<RyDate, DateError>)
        ensures
            r is Ok <==> nth != 0 && -5 <= nth <= 5 && 1 <= nth_weekday_of_month_day(self@.0, self@.1, nth as int,
                weekday_number(weekday)) <= days_in_month(self@.0, self@.1),
            r matches Ok(v) ==> v@ == (self@.0, self@.1, nth_weekday_of_month_day(self@.0, self@.1, nth as int,
                weekday_number(weekday))),
            r matches Ok(v) ==> weekday_of(v@.0, v@.1, v@.2) == weekday_number(weekday),
    {
        if nth == 0 || nth < -5 || nth > 5 {
            return Err(DateError::OutOfRange);
        }
        let wd = weekday.number() as i32;
        let dim = self.days_in_month() as i32;
        let day: i32 = if nth > 0 {
            let w1 = self.first_of_month().weekday() as i32;
            (wd - w1 + 7) % 7 + 1 + (nth as i32 - 1) * 7
        } else {
            let wl = self.last_of_month().weekday() as i32;
            dim - (wl - wd + 7) % 7 - (-(nth as i32) - 1) * 7
        };
        proof {
            use_type_invariant(self);
            lemma_weekday_since_exec(weekday_number(weekday), weekday_of(self@.0, self@.1, 1));
            lemma_weekday_since_exec(weekday_of(self@.0, self@.1, days_in_month(self@.0, self@.1)),
                weekday_number(weekday));
        }
        if day < 1 || day > dim {
            return Err(DateError::OutOfRange);
        }
        let r = RyDate { year: self.year(), month: self.month(), day: day as i8 };
        proof {
            lemma_nth_weekday_of_month_weekday(self@.0, self@.1, nth as int, weekday_number(weekday));
        }
        Ok(r)
    }

    /// The `nth` given weekday after this date (positive `nth`) or before
    /// it (negative `nth`), not counting the date itself (`nth_weekday`);
    /// fails for `nth` 0, beyond a million weeks, or a result out of
    /// range.
    pub fn nth_weekday(&self, nth: i32, weekday: JiffWeekday) -> (r: Result<RyDate, DateError>)
        ensures
            r is Ok <==> nth != 0 && -1_043_497 <= nth <= 1_043_497 && epoch_day_in_range(nth_weekday_day_number(
                epoch_day(self@.0, self@.1, self@.2), weekday_of(self@.0, self@.1, self@.2), nth as int,
                weekday_number(weekday))),
            r matches Ok(v) ==> epoch_day(v@.0, v@.1, v@.2) == nth_weekday_day_number(epoch_day(self@.0, self@.1,
                self@.2), weekday_of(self@.0, self@.1, self@.2), nth as int, weekday_number(weekday)),
            r matches Ok(v) ==> weekday_of(v@.0, v@.1, v@.2) == weekday_number(weekday),
    {
        if nth == 0 || nth < -1_043_497 || nth > 1_043_497 {
            return Err(DateError::OutOfRange);
        }
        let e = self.epoch_day_number() as i64;
        let w = self.weekday() as i64;
        let wd = weekday.number() as i64;
        proof {
            use_type_invariant(self);
            lemma_epoch_day_bounds(self@.0, self@.1, self@.2);
            lemma_weekday_since_exec(wd as int, w as int % 7 + 1);
            lemma_weekday_since_exec(if w == 1 { 7 } else { w - 1 }, wd as int);
        }
        let target: i64 = if nth > 0 {
            e + (nth as i64 - 1) * 7 + (wd - (w % 7 + 1) + 7) % 7 + 1
        } else {
            let prev = if w == 1 { 7 } else { w - 1 };
            e - ((-(nth as i64) - 1) * 7 + (prev - wd + 7) % 7) - 1
        };
        if target < -4_371_587 || target > 2_932_896 {
            return Err(DateError::OutOfRange);
        }
        let r = date_of_epoch_day(target as i32);
        proof {
            lemma_nth_weekday_weekday(e as int, w as int, nth as int, wd as int);
        }
        Ok(r)
    }

    /// The next day; fails on the latest supported date.
    pub fn tomorrow(&self) -> (r: Result<RyDate, DateError>)
        ensures
            r is Err <==> self@ == (9999int, 12int, 31int),
            r matches Ok(v) ==> v@ == next_date(self@.0, self@.1, self@.2),
    {
        let y = self.year();
        let m = self.month();
        let d = self.day();
        if d < self.days_in_month() {
            Ok(RyDate { year: y, month: m, day: d + 1 })
        } else if m < 12 {
            Ok(RyDate { year: y, month: m + 1, day: 1 })
        } else if y < 9999 {
            Ok(RyDate { year: y + 1, month: 1, day: 1 })
        } else {
            Err(DateError::OutOfRange)
        }
    }

    /// The previous day; fails on the earliest supported date.
    pub fn yesterday(&self) -> (r: Result<RyDate, DateError>)
        ensures
            r is Err <==> self@ == (-9999int, 1int, 1int),
            r matches Ok(v) ==> v@ == prev_date(self@.0, self@.1, self@.2),
    {
        let y = self.year();
        let m = self.month();
        let d = self.day();
        if d > 1 {
            Ok(RyDate { year: y, month: m, day: d - 1 })
        } else if m > 1 {
            Ok(RyDate { year: y, month: m - 1, day: month_days(y, m - 1) })
        } else if y > -9999 {
            Ok(RyDate { year: y - 1, month: 12, day: 31 })
        } else {
            Err(DateError::OutOfRange)
        }
    }

    /// The ISO weekday, Monday 1 to Sunday 7 (`weekday`).
    pub fn weekday(&self) -> (r: i8)
        ensures
            r as int == weekday_of(self@.0, self@.1, self@.2),
            1 <= r <= 7,
    {
        let e = self.epoch_day_number();
        proof {
            use_type_invariant(self);
            lemma_epoch_day_bounds(self@.0, self@.1, self@.2);
            lemma_mod_multiples_vanish(1_000_000, e as int + 3, 7);
        }
        let shifted: i32 = e + 7_000_003;
        (shifted % 7) as i8 + 1
    }

    /// The weekday as a `JiffWeekday`.
    pub fn weekday_enum(&self) -> (r: JiffWeekday)
        ensures
            weekday_from_number(weekday_of(self@.0, self@.1, self@.2)) == Some(r),
    {
        let n = self.weekday();
        match n {
            1 => JiffWeekday::Monday,
            2 => JiffWeekday::Tuesday,
            3 => JiffWeekday::Wednesday,
            4 => JiffWeekday::Thursday,
            5 => JiffWeekday::Friday,
            6 => JiffWeekday::Saturday,
            _ => JiffWeekday::Sunday,
        }
    }

    /// Compares two dates chronologically with a Python comparison
    /// operator (`==`, `<`, ...).
    pub fn rich_compare(&self, other: &RyDate, op: CompareOp) -> (r: bool)
        ensures
            r == op_holds(op, lex_sign(seq![self@.0, self@.1, self@.2], seq![other@.0, other@.1, other@.2])),
    {
        let a = [self.year() as i64, self.month() as i64, self.day() as i64];
        let b = [other.year() as i64, other.month() as i64, other.day() as i64];
        let s = lex_compare(&a, &b);
        assert(ints(a@) =~= seq![self@.0, self@.1, self@.2]);
        assert(ints(b@) =~= seq![other@.0, other@.1, other@.2]);
        apply_op(op, s)
    }

    /// The repr, `Date(year=2024, month=3, day=15)`.
    pub fn repr(&self) -> (r: String)
        ensures
            r@ == date_repr_text(self@.0, self@.1, self@.2),
    {
        let mut out = String::new();
        proof {
            reveal_strlit("Date(year=");
            reveal_strlit(", month=");
            reveal_strlit(", day=");
        }
        push_str(&mut out, "Date(year=");
        push_i64(&mut out, self.year() as i64);
        push_str(&mut out, ", month=");
        push_i64(&mut out, self.month() as i64);
        push_str(&mut out, ", day=");
        push_i64(&mut out, self.day() as i64);
        push_char(&mut out, ')');
        assert(out@ =~= date_repr_text(self@.0, self@.1, self@.2));
        out
    }

    /// The date printed by `jiff` (`str(date)`, `to_string`, `isoformat`).
    pub fn to_string(&self) -> (r: String)
        ensures
            r@ == jiff_date_text(self@.0, self@.1, self@.2),
    {
        let y = self.year();
        jiff_date_to_string(y, self.month(), self.day())
    }

    /// Parses a date as `jiff` does (`from_str`, `parse`); `None` where
    /// `jiff` refuses the text.
    pub fn from_str(t: &str) -> (r: Option<RyDate>)
        ensures
            r is None <==> jiff_date_parse(t@) is None,
            r matches Some(v) ==> jiff_date_parse(t@) == Some(v@),
    {
        match jiff_date_from_str(t) {
            Some((y, m, d)) => Some(RyDate { year: y, month: m, day: d }),
            None => None,
        }
    }

    /// The date formatted under a `strftime` format (`strftime`,
    /// `__format__`), as `jiff` formats it.
    pub fn strftime(&self, fmt: &str) -> (r: String)
        ensures
            r@ == jiff_date_strftime(fmt@, self@),
    {
        let y = self.year();
        jiff_date_format(fmt, y, self.month(), self.day())
    }

    /// Reads a date from text under a `strptime` format, as `jiff` reads
    /// it; `None` where `jiff` refuses the text.
    pub fn strptime(t: &str, fmt: &str) -> (r: Option<RyDate>)
        ensures
            r is None <==> jiff_date_strptime(fmt@, t@) is None,
            r matches Some(v) ==> jiff_date_strptime(fmt@, t@) == Some(v@),
    {
        match jiff_date_read(fmt, t) {
            Some((y, m, d)) => Some(RyDate { year: y, month: m, day: d }),
            None => None,
        }
    }

    /// A copy with the given parts replaced, as `jiff`'s `DateWith` builder
    /// does (`replace`); fails where a given part is out of range or the
    /// resulting date does not exist.
    pub fn replace(
        &self,
        year: Option<i16>,
        era_year: Option<(i16, JiffEra)>,
        month: Option<i8>,
        day: Option<i8>,
        day_of_year: Option<i16>,
        day_of_year_no_leap: Option<i16>,
    ) -> (r: Result<RyDate, DateError>)
        ensures
            r is Ok <==> date_replace_ok(self@.0, self@.1, self@.2, year, era_year, month, day,
                day_of_year, day_of_year_no_leap),
            r matches Ok(v) ==> date_replace_result(v@, self@.0, self@.1, self@.2, year, era_year,
                month, day, day_of_year, day_of_year_no_leap),
    {
        let own_y = self.year();
        let ny: i16 = match era_year {
            Some((n, JiffEra::CE)) => {
                if n < 1 || n > 9999 {
                    return Err(DateError::OutOfRange);
                }
                n
            },
            Some((n, JiffEra::BCE)) => {
                if n < 1 || n > 10000 {
                    return Err(DateError::OutOfRange);
                }
                1 - n
            },
            None => match year {
                Some(v) => {
                    if v < -9999 || v > 9999 {
                        return Err(DateError::OutOfRange);
                    }
                    v
                },
                None => own_y,
            },
        };
        let nm: i8 = match month {
            Some(v) => v,
            None => self.month(),
        };
        if nm < 1 || nm > 12 {
            return Err(DateError::OutOfRange);
        }
        match day_of_year_no_leap {
            Some(n) => {
                if n < 1 || n > 365 {
                    return Err(DateError::OutOfRange);
                }
                let leap = leap_year(ny);
                let k: i16 = if n >= 60 && leap { n + 1 } else { n };
                let r = date_of_day_of_year(ny, k);
                proof {
                    use_type_invariant(&r);
                }
                return Ok(r);
            },
            None => {},
        }
        match day_of_year {
            Some(n) => {
                let len: i16 = if leap_year(ny) { 366 } else { 365 };
                if n < 1 || n > len {
                    return Err(DateError::OutOfRange);
                }
                let r = date_of_day_of_year(ny, n);
                proof {
                    use_type_invariant(&r);
                }
                return Ok(r);
            },
            None => {},
        }
        let nd: i8 = match day {
            Some(v) => {
                if v < 1 || v > 31 {
                    return Err(DateError::OutOfRange);
                }
                v
            },
            None => self.day(),
        };
        if date_exists(ny, nm, nd) {
            Ok(RyDate { year: ny, month: nm, day: nd })
        } else {
            Err(DateError::OutOfRange)
        }
    }
}

/// Counting the days before a year from a year 10000 years later: the
/// calendar repeats every 400 years.
proof fn lemma_days_before_year_shift(y: int)
    ensures
        ({
            let p = y + 9999;
            365 * p + p / 4 - p / 100 + p / 400 - 3_652_425 == days_before_year(y)
        }),
{
    let q = y - 1;
    lemma_hoist_over_denominator(q, 2500, 4);
    lemma_hoist_over_denominator(q, 100, 100);
    lemma_hoist_over_denominator(q, 25, 400);
}

/// From one integer to the next, the floor quotient by `d` grows by one
/// exactly at multiples of `d`.
proof fn lemma_floor_step(y: int, d: int)
    requires
        d > 0,
    ensures
        y / d - (y - 1) / d == (if y % d == 0 { 1int } else { 0int }),
{
    lemma_fundamental_div_mod(y, d);
    lemma_fundamental_div_mod(y - 1, d);
    lemma_mod_bound(y, d);
    lemma_mod_bound(y - 1, d);
    let q1 = y / d;
    let q2 = (y - 1) / d;
    let r1 = y % d;
    let r2 = (y - 1) % d;
    assert(d * (q1 - q2) == 1 + r2 - r1) by (nonlinear_arith)
        requires
            y == d * q1 + r1,
            y - 1 == d * q2 + r2,
    ;
    assert(q1 - q2 == 0 || q1 - q2 == 1) by (nonlinear_arith)
        requires
            d * (q1 - q2) == 1 + r2 - r1,
            0 <= r1 < d,
            0 <= r2 < d,
    ;
    if q1 - q2 == 1 {
        assert(r1 == 0) by (nonlinear_arith)
            requires
                d * (q1 - q2) == 1 + r2 - r1,
                q1 - q2 == 1,
                0 <= r1 < d,
                0 <= r2 < d,
        ;
    } else {
        assert(r1 != 0) by (nonlinear_arith)
            requires
                d * (q1 - q2) == 1 + r2 - r1,
                q1 - q2 == 0,
                0 <= r2,
        ;
    }
}

/// A year has as many days as lie between its January 1 and the next.
proof fn lemma_days_before_next_year(y: int)
    ensures
        days_before_year(y + 1) == days_before_year(y) + days_in_year(y),
{
    lemma_floor_step(y, 4);
    lemma_floor_step(y, 100);
    lemma_floor_step(y, 400);
    assert(y % 400 == 0 ==> y % 100 == 0) by {
        if y % 400 == 0 {
            lemma_fundamental_div_mod(y, 400);
            lemma_mod_multiples_basic(4 * (y / 400), 100);
        }
    }
    assert(y % 100 == 0 ==> y % 4 == 0) by {
        if y % 100 == 0 {
            lemma_fundamental_div_mod(y, 100);
            lemma_mod_multiples_basic(25 * (y / 100), 4);
        }
    }
}

/// The day numbers of supported dates stay within five million days
/// of 1970.
pub(crate) proof fn lemma_epoch_day_bounds(y: int, m: int, d: int)
    requires
        date_ok(y, m, d),
    ensures
        -5_000_000 <= epoch_day(y, m, d) <= 5_000_000,
{
    lemma_days_before_year_shift(y);
    let p = y + 9999;
    assert(0 <= p / 4 <= 5000 && 0 <= p / 100 <= 200 && 0 <= p / 400 <= 50) by (nonlinear_arith)
        requires
            0 <= p <= 19998,
    ;
}

/// January 1 comes later in later years.
proof fn lemma_days_before_year_monotone(a: int, b: int)
    requires
        a <= b,
    ensures
        days_before_year(a) <= days_before_year(b),
    decreases b - a,
{
    if a < b {
        lemma_days_before_next_year(b - 1);
        lemma_days_before_year_monotone(a, b - 1);
    }
}

/// A date's day of the year lies within its year.
proof fn lemma_day_of_year_bounds(y: int, m: int, d: int)
    requires
        date_ok(y, m, d),
    ensures
        1 <= day_of_year(y, m, d) <= days_in_year(y),
{
}

/// Within a year, a later month starts after the earlier month ends.
proof fn lemma_months_ordered(y: int, m1: int, m2: int)
    requires
        1 <= m1 < m2 <= 12,
    ensures
        days_before_month(y, m1) + days_in_month(y, m1) <= days_before_month(y, m2),
{
}

/// Day numbers follow the calendar: an earlier date has a smaller day
/// number.
pub proof fn lemma_epoch_day_strictly_increasing(a: (int, int, int), b: (int, int, int))
    requires
        date_ok(a.0, a.1, a.2),
        date_ok(b.0, b.1, b.2),
        a.0 < b.0 || (a.0 == b.0 && (a.1 < b.1 || (a.1 == b.1 && a.2 < b.2))),
    ensures
        epoch_day(a.0, a.1, a.2) < epoch_day(b.0, b.1, b.2),
{
    if a.0 < b.0 {
        lemma_day_of_year_bounds(a.0, a.1, a.2);
        lemma_days_before_next_year(a.0);
        lemma_days_before_year_monotone(a.0 + 1, b.0);
    } else if a.1 < b.1 {
        lemma_months_ordered(a.0, a.1, b.1);
    }
}

/// A day number names one date: two supported dates with the same day
/// number are the same date.
pub proof fn lemma_epoch_day_injective(a: (int, int, int), b: (int, int, int))
    requires
        date_ok(a.0, a.1, a.2),
        date_ok(b.0, b.1, b.2),
        epoch_day(a.0, a.1, a.2) == epoch_day(b.0, b.1, b.2),
    ensures
        a == b,
{
    if a.0 < b.0 || (a.0 == b.0 && (a.1 < b.1 || (a.1 == b.1 && a.2 < b.2))) {
        lemma_epoch_day_strictly_increasing(a, b);
    } else if b.0 < a.0 || (b.0 == a.0 && (b.1 < a.1 || (b.1 == a.1 && b.2 < a.2))) {
        lemma_epoch_day_strictly_increasing(b, a);
    }
}

/// The first day of ISO week 1 is a Monday.
pub proof fn lemma_iso_year_start_is_monday(y: int)
    ensures
        (iso_year_start(y) + 3) % 7 == 0,
{
    let e = epoch_day(y, 1, 4) + 3;
    lemma_fundamental_div_mod(e, 7);
    lemma_mod_bound(e, 7);
    assert(iso_year_start(y) + 3 == 7 * (e / 7));
    lemma_mod_multiples_basic(e / 7, 7);
    assert((e / 7) * 7 == 7 * (e / 7)) by (nonlinear_arith);
}

/// ISO week 1 starts within three days of January 1.
proof fn lemma_iso_year_start_near_new_year(y: int)
    ensures
        epoch_day(y, 1, 1) - 3 <= iso_year_start(y) <= epoch_day(y, 1, 1) + 3,
{
    lemma_mod_bound(epoch_day(y, 1, 4) + 3, 7);
}

/// January 1 of the next year comes a year's days after January 1.
proof fn lemma_new_year_day_numbers(y: int)
    ensures
        epoch_day(y + 1, 1, 1) == epoch_day(y, 1, 1) + days_in_year(y),
{
    lemma_days_before_next_year(y);
}

/// Each ISO year starts at least 359 days after the one before.
pub(crate) proof fn lemma_iso_year_start_step(y: int)
    ensures
        iso_year_start(y) + 359 <= iso_year_start(y + 1),
{
    lemma_iso_year_start_near_new_year(y);
    lemma_iso_year_start_near_new_year(y + 1);
    lemma_new_year_day_numbers(y);
}

/// ISO years start later in later years.
proof fn lemma_iso_year_start_monotone(a: int, b: int)
    requires
        a < b,
    ensures
        iso_year_start(a) + 359 <= iso_year_start(b),
    decreases b - a,
{
    let prev = iso_year_start(b - 1);
    let last = iso_year_start(b);
    assert(prev + 359 <= last) by {
        lemma_iso_year_start_step(b - 1);
    }
    if a < b - 1 {
        lemma_iso_year_start_monotone(a, b - 1);
    }
}

/// The days of a valid ISO week date fall within its ISO year.
pub proof fn lemma_iso_week_day_number_in_year(y: int, w: int, d: int)
    requires
        iso_week_valid(y, w, d),
    ensures
        iso_year_start(y) <= iso_week_day_number(y, w, d) < iso_year_start(y + 1),
{
    let len = iso_year_start(y + 1) - iso_year_start(y);
    lemma_fundamental_div_mod(len, 7);
    lemma_iso_year_start_monotone(y, y + 1);
    lemma_mod_bound(len, 7);
    assert(7 * (w - 1) + (d - 1) < len) by (nonlinear_arith)
        requires
            1 <= w <= len / 7,
            1 <= d <= 7,
            len == 7 * (len / 7) + len % 7,
            0 <= len % 7,
    ;
}

/// A day number names one ISO week date: two valid ISO week dates with the
/// same day number are the same.
pub proof fn lemma_iso_week_day_number_injective(a: (int, int, int), b: (int, int, int))
    requires
        iso_week_valid(a.0, a.1, a.2),
        iso_week_valid(b.0, b.1, b.2),
        iso_week_day_number(a.0, a.1, a.2) == iso_week_day_number(b.0, b.1, b.2),
    ensures
        a == b,
{
    lemma_iso_week_day_number_in_year(a.0, a.1, a.2);
    lemma_iso_week_day_number_in_year(b.0, b.1, b.2);
    if a.0 < b.0 {
        if a.0 + 1 < b.0 {
            lemma_iso_year_start_monotone(a.0 + 1, b.0);
        }
    } else if b.0 < a.0 {
        if b.0 + 1 < a.0 {
            lemma_iso_year_start_monotone(b.0 + 1, a.0);
        }
    } else {
        assert(a.1 == b.1 && a.2 == b.2) by (nonlinear_arith)
            requires
                7 * (a.1 - 1) + (a.2 - 1) == 7 * (b.1 - 1) + (b.2 - 1),
                1 <= a.2 <= 7,
                1 <= b.2 <= 7,
        ;
    }
}

/// The first supported year's ISO week 1 starts on its January 1, and
/// the ISO year after the last supported year starts after its last day.
pub(crate) proof fn lemma_iso_years_at_the_ends()
    ensures
        iso_year_start(-9999) == epoch_day(-9999, 1, 1),
        iso_year_start(10000) > epoch_day(9999, 12, 31),
{
    assert(epoch_day(-9999, 1, 4) == -4_371_584);
    assert(epoch_day(10000, 1, 4) == 2_932_900);
    assert(epoch_day(-9999, 1, 1) == -4_371_587);
    assert(epoch_day(9999, 12, 31) == 2_932_896);
}

/// The ISO year of a day of calendar year `y`: the calendar year, or its
/// neighbour when the day falls before ISO week 1 or in the next year's
/// week 1.
pub open spec fn iso_year_of(y: int, n: int) -> int {
    if n >= iso_year_start(y + 1) {
        y + 1
    } else if n < iso_year_start(y) {
        y - 1
    } else {
        y
    }
}

/// A supported day of calendar year `y` lies in the ISO year that
/// `iso_year_of` picks, and that year is supported.
pub proof fn lemma_iso_year_of(y: int, n: int)
    requires
        year_ok(y),
        epoch_day(y, 1, 1) <= n < epoch_day(y, 1, 1) + days_in_year(y),
        epoch_day_in_range(n),
    ensures
        year_ok(iso_year_of(y, n)),
        iso_year_start(iso_year_of(y, n)) <= n < iso_year_start(iso_year_of(y, n) + 1),
{
    lemma_iso_year_start_near_new_year(y - 1);
    lemma_iso_year_start_near_new_year(y);
    lemma_iso_year_start_near_new_year(y + 1);
    lemma_iso_year_start_near_new_year(y + 2);
    lemma_new_year_day_numbers(y - 1);
    lemma_new_year_day_numbers(y);
    lemma_new_year_day_numbers(y + 1);
    lemma_iso_years_at_the_ends();
}

/// The week and weekday of a day in an ISO year: counting whole weeks from
/// the year's first Monday gives back the day, and a week of that year.
pub proof fn lemma_iso_week_of_day(iy: int, n: int)
    requires
        iso_year_start(iy) <= n < iso_year_start(iy + 1),
    ensures
        iso_week_day_number(iy, (n - iso_year_start(iy)) / 7 + 1, (n + 3) % 7 + 1) == n,
        1 <= (n - iso_year_start(iy)) / 7 + 1 <= iso_weeks_in_year(iy),
{
    let s0 = iso_year_start(iy);
    let k = n - s0;
    lemma_iso_year_start_is_monday(iy);
    lemma_fundamental_div_mod(k, 7);
    lemma_mod_bound(k, 7);
    lemma_fundamental_div_mod(n + 3, 7);
    lemma_mod_bound(n + 3, 7);
    lemma_fundamental_div_mod(s0 + 3, 7);
    assert(k % 7 == (n + 3) % 7) by (nonlinear_arith)
        requires
            k == n - s0,
            n + 3 == 7 * ((n + 3) / 7) + (n + 3) % 7,
            k == 7 * (k / 7) + k % 7,
            s0 + 3 == 7 * ((s0 + 3) / 7),
            0 <= k % 7 < 7,
            0 <= (n + 3) % 7 < 7,
    ;
    let s1 = iso_year_start(iy + 1);
    let len = s1 - s0;
    lemma_iso_year_start_is_monday(iy + 1);
    lemma_fundamental_div_mod(s1 + 3, 7);
    let a = (s0 + 3) / 7;
    let b = (s1 + 3) / 7;
    assert(len == (b - a) * 7);
    assert(b - a >= 0) by (nonlinear_arith)
        requires
            len == (b - a) * 7,
            len > 0,
    ;
    lemma_div_by_multiple(b - a, 7);
    assert(k / 7 + 1 <= b - a) by (nonlinear_arith)
        requires
            0 <= k < len,
            k == 7 * (k / 7) + k % 7,
            0 <= k % 7 < 7,
            len == (b - a) * 7,
    ;
    assert(k / 7 >= 0) by (nonlinear_arith)
        requires
            k >= 0,
            k == 7 * (k / 7) + k % 7,
            k % 7 < 7,
    ;
}

/// A supported date lies within its calendar year, on a supported day
/// number.
pub(crate) proof fn lemma_year_days(y: int, m: int, d: int)
    requires
        date_ok(y, m, d),
    ensures
        epoch_day(y, 1, 1) <= epoch_day(y, m, d) < epoch_day(y, 1, 1) + days_in_year(y),
        epoch_day_in_range(epoch_day(y, m, d)),
{
    lemma_day_of_year_bounds(y, m, d);
    if y > -9999 || m > 1 || d > 1 {
        if y == -9999 && m == 1 {
        } else {
            lemma_epoch_day_strictly_increasing((-9999, 1, 1), (y, m, d));
        }
    }
    if y < 9999 || m < 12 || d < 31 {
        lemma_epoch_day_strictly_increasing((y, m, d), (9999, 12, 31));
    }
}

/// An ISO year has at most 53 weeks.
pub(crate) proof fn lemma_iso_weeks_at_most_53(y: int)
    ensures
        iso_weeks_in_year(y) <= 53,
{
    lemma_iso_year_start_near_new_year(y);
    lemma_iso_year_start_near_new_year(y + 1);
    lemma_new_year_day_numbers(y);
    let len = iso_year_start(y + 1) - iso_year_start(y);
    assert(len / 7 <= 53) by (nonlinear_arith)
        requires
            len <= 372,
    ;
}

/// A replaced date is determined by what it is replaced with: two dates
/// that both meet the description of `replace` are the same.
pub proof fn lemma_date_replace_result_unique(
    a: (int, int, int),
    b: (int, int, int),
    y: int,
    m: int,
    d: int,
    year: Option<i16>,
    era_year: Option<(i16, JiffEra)>,
    month: Option<i8>,
    day: Option<i8>,
    doy: Option<i16>,
    doy_no_leap: Option<i16>,
)
    requires
        date_replace_result(a, y, m, d, year, era_year, month, day, doy, doy_no_leap),
        date_replace_result(b, y, m, d, year, era_year, month, day, doy, doy_no_leap),
    ensures
        a == b,
{
    if doy_no_leap is Some || doy is Some {
        assert(day_of_year(a.0, a.1, a.2) == day_of_year(b.0, b.1, b.2));
        lemma_epoch_day_injective(a, b);
    }
}

/// For weekdays 1..=7, the days from `b` forward to `a` are what the
/// shifted remainder computes.
proof fn lemma_weekday_since_exec(a: int, b: int)
    requires
        1 <= a <= 7,
        1 <= b <= 7,
    ensures
        weekday_since(a, b) == (a - b + 7) % 7,
        0 <= weekday_since(a, b) < 7,
{
    lemma_mod_multiples_vanish(1, a - b, 7);
    lemma_mod_bound(a - b, 7);
}

/// The weekday of the day `k` days after a day numbered `e`.
proof fn lemma_weekday_after(e: int, k: int)
    ensures
        ((e + k) + 3) % 7 + 1 == ((((e + 3) % 7 + 1) - 1 + k) % 7) + 1,
{
    lemma_fundamental_div_mod(e + 3, 7);
    lemma_mod_multiples_vanish((e + 3) / 7, (e + 3) % 7 + k, 7);
}

/// The `nth` weekday of a month found by `nth_weekday_of_month_day` falls
/// on that weekday.
pub proof fn lemma_nth_weekday_of_month_weekday(y: int, m: int, nth: int, wd: int)
    requires
        1 <= m <= 12,
        1 <= wd <= 7,
        nth != 0,
    ensures
        weekday_of(y, m, nth_weekday_of_month_day(y, m, nth, wd)) == wd,
{
    let day = nth_weekday_of_month_day(y, m, nth, wd);
    let e1 = epoch_day(y, m, 1);
    assert(epoch_day(y, m, day) == e1 + (day - 1));
    lemma_weekday_after(e1, day - 1);
    lemma_mod_bound(e1 + 3, 7);
    let w1 = (e1 + 3) % 7 + 1;
    if nth > 0 {
        lemma_weekday_since_exec(wd, w1);
        lemma_mod_multiples_vanish(nth - 1, w1 - 1 + weekday_since(wd, w1), 7);
        lemma_fundamental_div_mod(wd - w1, 7);
        assert(w1 - 1 + weekday_since(wd, w1) == wd - 1 - 7 * ((wd - w1) / 7)) by (nonlinear_arith)
            requires
                wd - w1 == 7 * ((wd - w1) / 7) + weekday_since(wd, w1),
                weekday_since(wd, w1) == (wd - w1) % 7,
        ;
        lemma_mod_multiples_vanish(-((wd - w1) / 7), wd - 1, 7);
        lemma_small_mod((wd - 1) as nat, 7);
    } else {
        let dim = days_in_month(y, m);
        let el = epoch_day(y, m, dim);
        assert(el == e1 + (dim - 1));
        lemma_weekday_after(e1, dim - 1);
        let wl = (el + 3) % 7 + 1;
        lemma_mod_bound(el + 3, 7);
        lemma_weekday_after(el, day - dim);
        assert(epoch_day(y, m, day) == el + (day - dim));
        lemma_weekday_since_exec(wl, wd);
        lemma_fundamental_div_mod(wl - wd, 7);
        let k = -nth - 1;
        assert(wl - 1 + (day - dim) == wd - 1 + 7 * ((wl - wd) / 7) + 7 * (-k)) by (nonlinear_arith)
            requires
                day - dim == -weekday_since(wl, wd) - k * 7,
                wl - wd == 7 * ((wl - wd) / 7) + weekday_since(wl, wd),
        ;
        lemma_mod_multiples_vanish((wl - wd) / 7 - k, wd - 1, 7);
        assert(7 * ((wl - wd) / 7) + 7 * (-k) + (wd - 1) == 7 * ((wl - wd) / 7 - k) + (wd - 1));
        lemma_small_mod((wd - 1) as nat, 7);
    }
}

/// The day found by `nth_weekday_day_number` falls on the weekday asked
/// for.
pub proof fn lemma_nth_weekday_weekday(e: int, w: int, nth: int, wd: int)
    requires
        w == (e + 3) % 7 + 1,
        1 <= wd <= 7,
        nth != 0,
    ensures
        (nth_weekday_day_number(e, w, nth, wd) + 3) % 7 + 1 == wd,
{
    lemma_mod_bound(e + 3, 7);
    let n = nth_weekday_day_number(e, w, nth, wd);
    lemma_weekday_after(e, n - e);
    lemma_fundamental_div_mod(e + 3, 7);
    if nth > 0 {
        let nx = w % 7 + 1;
        lemma_weekday_since_exec(wd, nx);
        lemma_fundamental_div_mod(wd - nx, 7);
        assert(w - 1 + (n - e) == wd - 1 + 7 * ((nth - 1) - (wd - nx) / 7) + (w + 1 - nx)) by (nonlinear_arith)
            requires
                n - e == (nth - 1) * 7 + weekday_since(wd, nx) + 1,
                wd - nx == 7 * ((wd - nx) / 7) + weekday_since(wd, nx),
        ;
        if w == 7 {
            assert(nx == 1);
            lemma_mod_multiples_vanish((nth - 1) - (wd - nx) / 7 + 1, wd - 1, 7);
        } else {
            assert(nx == w + 1) by {
                lemma_small_mod(w as nat, 7);
            }
            lemma_mod_multiples_vanish((nth - 1) - (wd - nx) / 7, wd - 1, 7);
        }
        lemma_small_mod((wd - 1) as nat, 7);
    } else {
        let pv = if w == 1 { 7 } else { w - 1 };
        lemma_weekday_since_exec(pv, wd);
        lemma_fundamental_div_mod(pv - wd, 7);
        let k = -nth - 1;
        assert(w - 1 + (n - e) == wd - 1 + 7 * ((pv - wd) / 7 - k) + (w - 1 - pv)) by (nonlinear_arith)
            requires
                n - e == -(k * 7 + weekday_since(pv, wd)) - 1,
                pv - wd == 7 * ((pv - wd) / 7) + weekday_since(pv, wd),
        ;
        if w == 1 {
            lemma_mod_multiples_vanish((pv - wd) / 7 - k - 1, wd - 1, 7);
        } else {
            lemma_mod_multiples_vanish((pv - wd) / 7 - k, wd - 1, 7);
        }
        lemma_small_mod((wd - 1) as nat, 7);
    }
}

/// The day after a date is one day later: its day number is one more.
pub proof fn lemma_next_date_one_day_later(y: int, m: int, d: int)
    requires
        date_ok(y, m, d),
    ensures
        ({
            let n = next_date(y, m, d);
            epoch_day(n.0, n.1, n.2) == epoch_day(y, m, d) + 1
        }),
{
    if d == days_in_month(y, m) && m == 12 {
        lemma_days_before_next_year(y);
    }
}

/// The day before a date is one day earlier: its day number is one less.
pub proof fn lemma_prev_date_one_day_earlier(y: int, m: int, d: int)
    requires
        date_ok(y, m, d),
    ensures
        ({
            let p = prev_date(y, m, d);
            epoch_day(p.0, p.1, p.2) == epoch_day(y, m, d) - 1
        }),
{
    if d == 1 && m == 1 {
        lemma_days_before_next_year(y - 1);
    }
}

/// The time from `b` to `a` is the negation of the time from `a` to `b`,
/// and the time from a date to the next is one 24-hour day.
pub proof fn lemma_date_duration_laws(a: (int, int, int), b: (int, int, int))
    requires
        date_ok(a.0, a.1, a.2),
    ensures
        date_nanos_between(a, b) == -date_nanos_between(b, a),
        date_nanos_between(next_date(a.0, a.1, a.2), a) == nanos_per_day(),
        date_nanos_between(a, a) == 0,
{
    lemma_next_date_one_day_later(a.0, a.1, a.2);
    assert(date_nanos_between(a, b) == -date_nanos_between(b, a)) by (nonlinear_arith);
}

/// The day after a date falls on the next weekday, Sunday wrapping round
/// to Monday.
pub proof fn lemma_next_date_next_weekday(y: int, m: int, d: int)
    requires
        date_ok(y, m, d),
    ensures
        ({
            let n = next_date(y, m, d);
            let w = weekday_of(y, m, d);
            weekday_of(n.0, n.1, n.2) == if w == 7 { 1 } else { w + 1 }
        }),
{
    lemma_next_date_one_day_later(y, m, d);
    let e = epoch_day(y, m, d) + 3;
    lemma_fundamental_div_mod(e, 7);
    lemma_fundamental_div_mod(e + 1, 7);
    lemma_mod_bound(e, 7);
    lemma_mod_bound(e + 1, 7);
    let q1 = e / 7;
    let q2 = (e + 1) / 7;
    assert(7 * (q2 - q1) == 1 + e % 7 - (e + 1) % 7);
    assert(q2 - q1 == 0 || q2 - q1 == 1) by (nonlinear_arith)
        requires
            7 * (q2 - q1) == 1 + e % 7 - (e + 1) % 7,
            0 <= e % 7 < 7,
            0 <= (e + 1) % 7 < 7,
    ;
}

} // verus!
