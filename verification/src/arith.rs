//! Small facts about integer division used by the rounding proofs.
use vstd::prelude::*;

verus! {

/// Rounding a quotient down and multiplying back never exceeds the dividend.
pub proof fn lemma_floor_mul_le(n: int, d: int)
    requires
        n >= 0,
        d > 0,
    ensures
        (n / d) * d <= n,
        n < (n / d) * d + d,
{
    vstd::arithmetic::div_mod::lemma_fundamental_div_mod(n, d);
    vstd::arithmetic::div_mod::lemma_mod_bound(n, d);
    vstd::arithmetic::mul::lemma_mul_is_commutative(d, n / d);
}

/// Rounding a quotient up and multiplying back never falls short of the dividend.
pub proof fn lemma_ceil_mul_ge(n: int, d: int)
    requires
        n >= 0,
        d > 0,
    ensures
        ((n + d - 1) / d) * d >= n,
{
    lemma_floor_mul_le(n + d - 1, d);
}

/// Dividing by a positive integer does not increase a non-negative value.
pub proof fn lemma_div_le_self(n: int, d: int)
    requires
        n >= 0,
        d >= 1,
    ensures
        0 <= n / d <= n,
{
    vstd::arithmetic::div_mod::lemma_div_is_ordered_by_denominator(n, 1, d);
    vstd::arithmetic::div_mod::lemma_div_pos_is_pos(n, d);
}

/// `(a * b) / b == a` for positive `b`.
pub proof fn lemma_mul_div_cancel(a: int, b: int)
    requires
        b > 0,
    ensures
        (a * b) / b == a,
{
    vstd::arithmetic::div_mod::lemma_div_multiples_vanish(a, b);
    vstd::arithmetic::mul::lemma_mul_is_commutative(a, b);
}

/// Division by a positive number preserves order.
pub proof fn lemma_div_monotone(x: int, y: int, d: int)
    requires
        x <= y,
        d > 0,
    ensures
        x / d <= y / d,
{
    vstd::arithmetic::div_mod::lemma_div_is_ordered(x, y, d);
}

/// Multiplication by a non-negative number preserves order.
pub proof fn lemma_mul_monotone(x: int, y: int, z: int)
    requires
        x <= y,
        z >= 0,
    ensures
        x * z <= y * z,
{
    vstd::arithmetic::mul::lemma_mul_inequality(x, y, z);
}

/// If `a * d <= n` then `a <= n / d`.
pub proof fn lemma_le_div(a: int, n: int, d: int)
    requires
        d > 0,
        a * d <= n,
    ensures
        a <= n / d,
{
    lemma_div_monotone(a * d, n, d);
    lemma_mul_div_cancel(a, d);
}

} // verus!
