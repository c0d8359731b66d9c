//! Decimal rendering of integers into `String`s.
use vstd::prelude::*;
use vstd::string::StringExecFns;

verus! {

/// The ASCII digit for `d` (which should be below ten).
pub open spec fn digit_char(d: int) -> char {
    if d == 0 { '0' }
    else if d == 1 { '1' }
    else if d == 2 { '2' }
    else if d == 3 { '3' }
    else if d == 4 { '4' }
    else if d == 5 { '5' }
    else if d == 6 { '6' }
    else if d == 7 { '7' }
    else if d == 8 { '8' }
    else { '9' }
}

/// The decimal digits of `n`, most significant first, without leading zeros.
pub open spec fn nat_digits(n: nat) -> Seq<char>
    decreases n,
{
    if n < 10 {
        seq![digit_char(n as int)]
    } else {
        nat_digits(n / 10).push(digit_char((n % 10) as int))
    }
}

/// `n` in decimal with a leading `-` when negative (Rust's `{}` for integers).
pub open spec fn int_text(n: int) -> Seq<char> {
    if n < 0 {
        seq!['-'] + nat_digits((-n) as nat)
    } else {
        nat_digits(n as nat)
    }
}

/// `k` copies of `'0'`.
pub open spec fn zeros(k: int) -> Seq<char> {
    Seq::new(if k < 0 { 0 } else { k as nat }, |i: int| '0')
}

/// `n` zero-padded to at least `width` characters, the sign counting towards
/// the width (Rust's `{:0width$}` for integers).
pub open spec fn padded_int_text(n: int, width: int) -> Seq<char> {
    if n < 0 {
        seq!['-'] + zeros(width - 1 - nat_digits((-n) as nat).len()) + nat_digits((-n) as nat)
    } else {
        zeros(width - nat_digits(n as nat).len()) + nat_digits(n as nat)
    }
}

/// Appends one character to a `String` (std's `String::push`).
#[verifier::external_body]
pub(crate) fn push_char(s: &mut String, c: char)
    ensures
        final(s)@ == old(s)@.push(c),
{
    s.push(c);
}

fn digit(d: u64) -> (c: char)
    requires
        d < 10,
    ensures
        c == digit_char(d as int),
{
    match d {
        0 => '0',
        1 => '1',
        2 => '2',
        3 => '3',
        4 => '4',
        5 => '5',
        6 => '6',
        7 => '7',
        8 => '8',
        _ => '9',
    }
}

/// Appends the decimal digits of `n`.
pub fn push_u64(s: &mut String, n: u64)
    ensures
        final(s)@ == old(s)@ + nat_digits(n as nat),
    decreases n,
{
    if n >= 10 {
        push_u64(s, n / 10);
    }
    push_char(s, digit(n % 10));
}

/// Appends `n` in decimal, with a leading `-` when negative.
pub fn push_i128(s: &mut String, n: i128)
    requires
        n > i128::MIN,
        -(u64::MAX as int) <= n <= u64::MAX,
    ensures
        final(s)@ == old(s)@ + int_text(n as int),
{
    if n < 0 {
        push_char(s, '-');
        push_u64(s, (-n) as u64);
    } else {
        push_u64(s, n as u64);
    }
}

/// Appends `n` in decimal (Rust's `{}` on an `i64`).
pub fn push_i64(s: &mut String, n: i64)
    ensures
        final(s)@ == old(s)@ + int_text(n as int),
{
    push_i128(s, n as i128);
}

fn push_zeros(s: &mut String, k: u64)
    ensures
        final(s)@ == old(s)@ + zeros(k as int),
{
    let ghost start = s@;
    let mut i: u64 = 0;
    while i < k
        invariant
            i <= k,
            s@ == start + zeros(i as int),
        decreases k - i,
    {
        push_char(s, '0');
        i = i + 1;
        assert(s@ =~= start + zeros(i as int));
    }
}

/// Number of decimal digits of `n`.
fn digit_count(n: u64) -> (c: u64)
    ensures
        c == nat_digits(n as nat).len(),
        1 <= c <= n as int + 1,
    decreases n,
{
    if n < 10 {
        1
    } else {
        let c = digit_count(n / 10);
        c + 1
    }
}

/// Appends `n` zero-padded to `width` characters, the sign counting towards
/// the width.
pub fn push_padded_i64(s: &mut String, n: i64, width: u64)
    ensures
        final(s)@ == old(s)@ + padded_int_text(n as int, width as int),
{
    let ghost start = s@;
    if n < 0 {
        let m = (0 - (n as i128)) as u64;
        push_char(s, '-');
        let c = digit_count(m);
        if width as i128 >= 1 + c as i128 {
            push_zeros(s, width - 1 - c);
        } else {
            assert(zeros(width - 1 - c) =~= Seq::<char>::empty());
        }
        push_u64(s, m);
        assert(s@ =~= start + padded_int_text(n as int, width as int));
    } else {
        let m = n as u64;
        let c = digit_count(m);
        if width >= c {
            push_zeros(s, width - c);
        } else {
            assert(zeros(width - c) =~= Seq::<char>::empty());
        }
        push_u64(s, m);
        assert(s@ =~= start + padded_int_text(n as int, width as int));
    }
}

/// Appends a string slice.
pub fn push_str(s: &mut String, t: &str)
    ensures
        final(s)@ == old(s)@ + t@,
{
    s.append(t);
}

/// ASCII lower-casing of one character (Rust's `char::to_ascii_lowercase`).
pub open spec fn ascii_lower(c: char) -> char {
    if 'A' <= c && c <= 'Z' {
        ((c as int) + 32) as char
    } else {
        c
    }
}

/// ASCII lower-casing of a character sequence (Rust's `str::to_ascii_lowercase`).
pub open spec fn lower_text(s: Seq<char>) -> Seq<char> {
    s.map_values(|c: char| ascii_lower(c))
}

/// No character of `s` is an ASCII capital letter.
pub open spec fn no_ascii_upper(s: Seq<char>) -> bool {
    forall|i: int| 0 <= i < s.len() ==> !('A' <= #[trigger] s[i] && s[i] <= 'Z')
}

/// Character-wise equality of two string slices.
pub fn str_eq(a: &str, b: &str) -> (r: bool)
    ensures
        r == (a@ == b@),
{
    let n = a.unicode_len();
    if n != b.unicode_len() {
        return false;
    }
    let mut i: usize = 0;
    while i < n
        invariant
            n == a@.len(),
            n == b@.len(),
            i <= n,
            forall|j: int| 0 <= j < i ==> a@[j] == b@[j],
        decreases n - i,
    {
        if a.get_char(i) != b.get_char(i) {
            return false;
        }
        i = i + 1;
    }
    assert(a@ =~= b@);
    true
}

/// Whether `a`, lower-cased in ASCII, equals `b` (which holds no ASCII
/// capital letter).
pub fn lower_eq(a: &str, b: &str) -> (r: bool)
    requires
        no_ascii_upper(b@),
    ensures
        r == (lower_text(a@) == b@),
{
    let n = a.unicode_len();
    if n != b.unicode_len() {
        assert(lower_text(a@).len() != b@.len());
        return false;
    }
    let mut i: usize = 0;
    while i < n
        invariant
            n == a@.len(),
            n == b@.len(),
            i <= n,
            no_ascii_upper(b@),
            forall|j: int| 0 <= j < i ==> ascii_lower(a@[j]) == b@[j],
        decreases n - i,
    {
        let x = a.get_char(i);
        let y = b.get_char(i);
        let same = if 'A' <= x && x <= 'Z' {
            (x as u32) + 32 == (y as u32)
        } else {
            x == y
        };
        if !same {
            assert(lower_text(a@)[i as int] != b@[i as int]);
            return false;
        }
        i = i + 1;
    }
    assert(lower_text(a@) =~= b@);
    true
}

} // verus!
