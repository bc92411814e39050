//! Small nonlinear arithmetic facts shared by the projector and evaluator.

use vstd::prelude::*;

verus! {

/// A product of nonnegative factors is bounded by the product of their bounds.
pub(crate) proof fn lemma_mul_le_nonneg(a: int, b: int, bound_a: int, bound_b: int)
    by (nonlinear_arith)
    requires
        0 <= a <= bound_a,
        0 <= b <= bound_b,
    ensures
        a * b <= bound_a * bound_b,
{
}

/// A product of factors bounded in absolute value is bounded in absolute
/// value by the product of the bounds.
pub(crate) proof fn lemma_mul_abs_le(a: int, b: int, bound_a: int, bound_b: int)
    by (nonlinear_arith)
    requires
        -bound_a <= a <= bound_a,
        -bound_b <= b <= bound_b,
        0 <= bound_a,
        0 <= bound_b,
    ensures
        -(bound_a * bound_b) <= a * b <= bound_a * bound_b,
{
}

/// Dividing a smaller nonnegative numerator by the same positive divisor
/// gives a smaller (or equal) quotient.
pub(crate) proof fn lemma_div_le(num: int, cap: int, den: int)
    by (nonlinear_arith)
    requires
        0 <= num <= cap * den,
        0 < den,
    ensures
        num / den <= cap,
{
}

/// A quotient times its divisor never exceeds the dividend.
pub(crate) proof fn lemma_div_mul_le(a: int, b: int)
    by (nonlinear_arith)
    requires
        0 <= a,
        0 < b,
    ensures
        (a / b) * b <= a,
{
}

/// Dividing a nonnegative value by a positive divisor never grows it.
pub(crate) proof fn lemma_div_le_self(a: int, b: int)
    by (nonlinear_arith)
    requires
        0 <= a,
        1 <= b,
    ensures
        0 <= a / b <= a,
{
}

/// A quotient of nonnegative operands is nonnegative.
pub(crate) proof fn lemma_div_nonneg(num: int, den: int)
    by (nonlinear_arith)
    requires
        0 <= num,
        0 < den,
    ensures
        0 <= num / den,
{
}

/// Multiplying both sides of an inequality by a nonnegative factor keeps it.
pub(crate) proof fn lemma_mul_mono_left(a: int, b: int, c: int)
    by (nonlinear_arith)
    requires
        a <= b,
        0 <= c,
    ensures
        a * c <= b * c,
{
}

/// A quotient is strictly below `cap` when the numerator is strictly below
/// `cap * den`.
pub(crate) proof fn lemma_div_lt(num: int, cap: int, den: int)
    by (nonlinear_arith)
    requires
        0 <= num,
        num < cap * den,
        0 < den,
    ensures
        num / den < cap,
{
}

} // verus!
