//! Rich comparison operators as Python hands them over.
use vstd::prelude::*;

verus! {

/// One of Python's six rich comparison operators.
#[derive(Clone, Copy, Debug, PartialEq, Eq, Structural)]
pub enum CompareOp {
    Lt,
    Le,
    Eq,
    Ne,
    Gt,
    Ge,
}

/// Whether `op` holds between two values whose three-way comparison is `sign`
/// (negative: less, zero: equal, positive: greater).
pub open spec fn op_holds(op: CompareOp, sign: int) -> bool {
    match op {
        CompareOp::Lt => sign < 0,
        CompareOp::Le => sign <= 0,
        CompareOp::Eq => sign == 0,
        CompareOp::Ne => sign != 0,
        CompareOp::Gt => sign > 0,
        CompareOp::Ge => sign >= 0,
    }
}

/// The three-way comparison of two integers: -1, 0 or 1.
pub open spec fn int_sign_of_diff(a: int, b: int) -> int {
    if a < b { -1 } else if a == b { 0 } else { 1 }
}

/// Lexicographic three-way comparison of two integer sequences of equal length.
pub open spec fn lex_sign(a: Seq<int>, b: Seq<int>) -> int
    decreases a.len(),
{
    if a.len() == 0 || b.len() == 0 {
        0
    } else if a[0] != b[0] {
        int_sign_of_diff(a[0], b[0])
    } else {
        lex_sign(a.drop_first(), b.drop_first())
    }
}

/// The values of `a` as mathematical integers.
pub open spec fn ints(a: Seq<i64>) -> Seq<int> {
    a.map_values(|x: i64| x as int)
}

/// Lexicographic three-way comparison of two sequences of equal length:
/// -1, 0 or 1.
pub fn lex_compare(a: &[i64], b: &[i64]) -> (r: i8)
    requires
        a@.len() == b@.len(),
    ensures
        r as int == lex_sign(ints(a@), ints(b@)),
{
    let mut i: usize = 0;
    assert(ints(a@).skip(0) =~= ints(a@));
    assert(ints(b@).skip(0) =~= ints(b@));
    while i < a.len()
        invariant
            i <= a@.len(),
            a@.len() == b@.len(),
            lex_sign(ints(a@), ints(b@)) == lex_sign(ints(a@).skip(i as int), ints(b@).skip(i as int)),
        decreases a@.len() - i,
    {
        let ghost x = ints(a@).skip(i as int);
        let ghost y = ints(b@).skip(i as int);
        proof {
            assert(x[0] == a@[i as int] as int);
            assert(y[0] == b@[i as int] as int);
            assert(x.drop_first() =~= ints(a@).skip(i + 1));
            assert(y.drop_first() =~= ints(b@).skip(i + 1));
        }
        if a[i] < b[i] {
            return -1;
        } else if a[i] > b[i] {
            return 1;
        }
        i = i + 1;
    }
    proof {
        assert(ints(a@).skip(i as int).len() == 0);
    }
    0
}

/// Evaluates `op` on a three-way comparison result.
pub fn apply_op(op: CompareOp, sign: i8) -> (r: bool)
    ensures
        r == op_holds(op, sign as int),
{
    match op {
        CompareOp::Lt => sign < 0,
        CompareOp::Le => sign <= 0,
        CompareOp::Eq => sign == 0,
        CompareOp::Ne => sign != 0,
        CompareOp::Gt => sign > 0,
        CompareOp::Ge => sign >= 0,
    }
}

/// Three-way comparison of two `i64`s.
pub fn sign_of_diff(a: i64, b: i64) -> (r: i8)
    ensures
        r as int == int_sign_of_diff(a as int, b as int),
{
    if a < b {
        -1
    } else if a == b {
        0
    } else {
        1
    }
}

/// The operators are consistent: `Ne` is the negation of `Eq`, `Ge` of `Lt`
/// and `Le` of `Gt`, and exactly one of `Lt`, `Eq`, `Gt` holds.
pub proof fn lemma_ops_consistent(sign: int)
    ensures
        op_holds(CompareOp::Ne, sign) == !op_holds(CompareOp::Eq, sign),
        op_holds(CompareOp::Ge, sign) == !op_holds(CompareOp::Lt, sign),
        op_holds(CompareOp::Le, sign) == !op_holds(CompareOp::Gt, sign),
        (op_holds(CompareOp::Lt, sign) as int) + (op_holds(CompareOp::Eq, sign) as int)
            + (op_holds(CompareOp::Gt, sign) as int) == 1,
{
}

} // verus!
