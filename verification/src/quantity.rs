//! Exact quantities and their comparison with a condition's value.
//!
//! A measured quantity is the fraction `num / den`; a condition's value is
//! `value / 1_000_000`. Both are compared as the real numbers they stand for.
use vstd::prelude::*;
use crate::model::Operator;

verus! {

/// The fraction `num / den`.
#[derive(Clone, Copy, Debug)]
pub struct Quantity {
    pub num: i128,
    pub den: i128,
}

/// The largest numerator a quantity may have: `2^66`.
pub open spec fn max_numerator() -> int {
    73_786_976_294_838_206_464
}

/// The largest denominator a quantity may have: `2^30`.
pub open spec fn max_denominator() -> int {
    1_073_741_824
}

impl Quantity {
    /// A positive denominator, and both parts within the bounds that keep
    /// comparisons inside `i128`.
    pub open spec fn valid(self) -> bool {
        &&& 0 < self.den <= max_denominator()
        &&& -max_numerator() <= self.num <= max_numerator()
    }
}

/// The quantity zero.
pub open spec fn zero() -> Quantity {
    Quantity { num: 0, den: 1 }
}

/// `q` compared by `op` with `value / 1_000_000`, as real numbers; `Equal`
/// holds where the two differ by less than one thousandth.
pub open spec fn compares(q: Quantity, op: Operator, value: int) -> bool {
    let lhs = q.num * 1_000_000;
    let rhs = value * q.den;
    match op {
        Operator::GreaterThan => lhs > rhs,
        Operator::LessThan => lhs < rhs,
        Operator::GreaterThanOrEqual => lhs >= rhs,
        Operator::LessThanOrEqual => lhs <= rhs,
        Operator::Equal => -1000 * q.den < lhs - rhs < 1000 * q.den,
    }
}

/// A yes/no property, read as 1 or 0, lies within one thousandth of
/// `value / 1_000_000`.
pub open spec fn flag_matches(b: bool, value: int) -> bool {
    let x: int = if b { 1_000_000 } else { 0 };
    -1000 < x - value < 1000
}

/// How a condition is settled on one transfer.
#[derive(Clone, Copy, Debug)]
pub enum Measure {
    /// Settled without a comparison.
    Decided(bool),
    /// A yes/no property, matched against the value.
    Flag(bool),
    /// A quantity compared with the value; an absent one counts as zero.
    Amount(Option<Quantity>),
}

impl Measure {
    /// Every quantity it holds is valid.
    pub open spec fn valid(self) -> bool {
        match self {
            Measure::Amount(Some(q)) => q.valid(),
            _ => true,
        }
    }
}

/// Whether the condition with operator `op` and value `value` holds, given
/// how it was measured.
pub open spec fn holds(m: Measure, op: Operator, value: int) -> bool {
    match m {
        Measure::Decided(b) => b,
        Measure::Flag(b) => flag_matches(b, value),
        Measure::Amount(q) => compares(
            match q {
                Some(q) => q,
                None => zero(),
            },
            op,
            value,
        ),
    }
}

/// Whether the yes/no property `b` matches `value_millionths`.
pub fn flag_match(b: bool, value_millionths: i64) -> (r: bool)
    ensures
        r == flag_matches(b, value_millionths as int),
{
    let x: i64 = if b { 1_000_000 } else { 0 };
    let d: i128 = (x as i128) - (value_millionths as i128);
    -1000 < d && d < 1000
}

/// Compares the quantity `q` by `op` with `value_millionths / 1_000_000`.
pub fn compare_quantity(q: Quantity, op: Operator, value_millionths: i64) -> (r: bool)
    requires
        q.valid(),
    ensures
        r == compares(q, op, value_millionths as int),
{
    let v: i128 = value_millionths as i128;
    proof {
        assert(-max_numerator() * 1_000_000 <= q.num * 1_000_000 <= max_numerator() * 1_000_000);
        assert(-0x8000_0000_0000_0000 * max_denominator() <= v * q.den <= 0x8000_0000_0000_0000
            * max_denominator()) by (nonlinear_arith)
            requires
                -0x8000_0000_0000_0000 <= v <= 0x8000_0000_0000_0000,
                0 < q.den <= max_denominator(),
        ;
    }
    let lhs: i128 = q.num * 1_000_000;
    let rhs: i128 = v * q.den;
    match op {
        Operator::GreaterThan => lhs > rhs,
        Operator::LessThan => lhs < rhs,
        Operator::GreaterThanOrEqual => lhs >= rhs,
        Operator::LessThanOrEqual => lhs <= rhs,
        Operator::Equal => {
            let d: i128 = lhs - rhs;
            let tol: i128 = 1000 * q.den;
            -tol < d && d < tol
        },
    }
}

/// Settles a condition with operator `op` and value `value_millionths` from
/// how it was measured.
pub fn judge(m: Measure, op: Operator, value_millionths: i64) -> (r: bool)
    requires
        m.valid(),
    ensures
        r == holds(m, op, value_millionths as int),
{
    match m {
        Measure::Decided(b) => b,
        Measure::Flag(b) => flag_match(b, value_millionths),
        Measure::Amount(q) => {
            let q = match q {
                Some(q) => q,
                None => Quantity { num: 0, den: 1 },
            };
            compare_quantity(q, op, value_millionths)
        },
    }
}

/// "Greater than" and "at most" split every quantity between them, as do
/// "less than" and "at least".
pub proof fn operators_complement(q: Quantity, value: int)
    ensures
        compares(q, Operator::GreaterThan, value) == !compares(q, Operator::LessThanOrEqual, value),
        compares(q, Operator::LessThan, value) == !compares(q, Operator::GreaterThanOrEqual, value),
{
}

/// A yes/no property matches the value 1 exactly when it holds and the value
/// 0 exactly when it does not.
pub proof fn flags_match_one_and_zero(b: bool)
    ensures
        flag_matches(b, 1_000_000) == b,
        flag_matches(b, 0) == !b,
{
}

/// `Equal` holds exactly where the quantity lies above the value less one
/// thousandth and below the value plus one thousandth.
pub proof fn equal_is_within_a_thousandth(q: Quantity, value: int)
    requires
        q.den > 0,
    ensures
        compares(q, Operator::Equal, value) <==> (compares(q, Operator::GreaterThan, value - 1000)
            && compares(q, Operator::LessThan, value + 1000)),
{
    let d = q.den as int;
    assert((value - 1000) * d == value * d - 1000 * d) by (nonlinear_arith);
    assert((value + 1000) * d == value * d + 1000 * d) by (nonlinear_arith);
}

/// A whole number equals the whole value `m` exactly when it is `m`.
pub proof fn whole_numbers_equal_only_themselves(n: i128, m: int)
    ensures
        compares(Quantity { num: n, den: 1 }, Operator::Equal, m * 1_000_000) <==> n == m,
{
    let d = n - m;
    assert(n * 1_000_000 - (m * 1_000_000) * 1 == d * 1_000_000) by (nonlinear_arith)
        requires
            d == n - m,
    ;
    assert(-1000 < d * 1_000_000 < 1000 ==> d == 0) by (nonlinear_arith);
}

/// A quantity above a value is above every smaller value, and one below a
/// value is below every larger value.
pub proof fn bounds_carry_over(q: Quantity, value: int, other: int)
    requires
        q.den > 0,
    ensures
        other <= value && compares(q, Operator::GreaterThan, value) ==> compares(q, Operator::GreaterThan, other),
        other >= value && compares(q, Operator::LessThan, value) ==> compares(q, Operator::LessThan, other),
{
    let d = q.den as int;
    assert(other <= value ==> other * d <= value * d) by (nonlinear_arith)
        requires
            d > 0,
    ;
    assert(other >= value ==> other * d >= value * d) by (nonlinear_arith)
        requires
            d > 0,
    ;
}

/// A yes/no property matches a value exactly as the number 1 (for yes) or 0
/// (for no) equals it.
pub proof fn flag_is_one_or_zero(b: bool, value: int)
    ensures
        flag_matches(b, value) == compares(Quantity { num: if b { 1 } else { 0 }, den: 1 }, Operator::Equal, value),
{
}

} // verus!
