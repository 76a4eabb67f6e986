//! Fixed-point scalar arithmetic.
//!
//! A scalar is an `i64` whose value is the integer divided by `SCALE`.
//! Multiplication and division of scalars rescale their exact integer result
//! with a division that rounds toward zero. Each operation that can leave the
//! representable range is checked and returns `None` in that case. The range
//! is symmetric (`i64::MIN` is excluded), so negating a representable scalar
//! always yields a representable scalar.

use vstd::prelude::*;

verus! {

use vstd::arithmetic::div_mod::lemma_div_of0;
use vstd::arithmetic::div_mod::lemma_div_pos_is_pos;
use vstd::arithmetic::div_mod::lemma_div_nonincreasing;

/// Number of fixed-point units per whole unit: a scalar `v` stands for `v / SCALE`.
pub const SCALE: i64 = 1_000_000;

/// Largest magnitude a scalar may take; the range is symmetric around zero.
pub const FX_MAX: i64 = i64::MAX;

/// Whether a mathematical integer is representable as a scalar.
pub open spec fn fits(v: int) -> bool {
    -(FX_MAX as int) <= v && v <= FX_MAX as int
}

/// Division rounding toward zero, for a positive divisor. This is the
/// rounding rule of every scaled multiplication and division.
pub open spec fn div_t(a: int, b: int) -> int
    recommends
        b >= 1,
{
    if a >= 0 {
        a / b
    } else {
        -((-a) / b)
    }
}

/// Exact value of the product of two scalars.
pub open spec fn mul_s(a: int, b: int) -> int {
    div_t(a * b, SCALE as int)
}

/// Exact value of the quotient of two scalars, for a positive divisor.
pub open spec fn div_s(a: int, b: int) -> int
    recommends
        b >= 1,
{
    div_t(a * (SCALE as int), b)
}

/// The truncating quotient is zero at zero, keeps the sign of the dividend,
/// and never exceeds it in magnitude.
pub proof fn lemma_div_t_bounds(a: int, b: int)
    requires
        b >= 1,
    ensures
        a >= 0 ==> 0 <= div_t(a, b) <= a,
        a <= 0 ==> a <= div_t(a, b) <= 0,
{
    if a >= 0 {
        lemma_div_pos_is_pos(a, b);
        lemma_div_nonincreasing(a, b);
    } else {
        lemma_div_pos_is_pos(-a, b);
        lemma_div_nonincreasing(-a, b);
    }
}

/// Truncating division is odd in its dividend.
pub proof fn lemma_div_t_odd(a: int, b: int)
    requires
        b >= 1,
    ensures
        div_t(-a, b) == -div_t(a, b),
{
    if a == 0 {
        lemma_div_of0(b);
    }
}

/// A scaled product is odd in its first factor.
pub proof fn lemma_mul_s_odd(a: int, b: int)
    ensures
        mul_s(-a, b) == -mul_s(a, b),
{
    assert((-a) * b == -(a * b)) by (nonlinear_arith);
    lemma_div_t_odd(a * b, SCALE as int);
}

/// A scaled quotient is odd in its dividend.
pub proof fn lemma_div_s_odd(a: int, b: int)
    requires
        b >= 1,
    ensures
        div_s(-a, b) == -div_s(a, b),
{
    assert((-a) * (SCALE as int) == -(a * (SCALE as int))) by (nonlinear_arith);
    lemma_div_t_odd(a * (SCALE as int), b);
}

/// Truncating division on wide intermediate values.
fn div_trunc_wide(a: i128, b: i128) -> (q: i128)
    requires
        b >= 1,
        a > i128::MIN,
    ensures
        q == div_t(a as int, b as int),
{
    proof {
        lemma_div_t_bounds(a as int, b as int);
        lemma_div_of0(b as int);
    }
    match a.checked_div(b) {
        Some(q) => q,
        None => {
            proof {
                assert(false);
            }
            0
        },
    }
}

/// Checked sum of two scalars.
pub fn add_fx(a: i64, b: i64) -> (r: Option<i64>)
    ensures
        r is Some <==> fits(a + b),
        r is Some ==> r->0 == a + b,
{
    let s: i128 = a as i128 + b as i128;
    if -(FX_MAX as i128) <= s && s <= FX_MAX as i128 {
        Some(s as i64)
    } else {
        None
    }
}

/// Checked difference of two scalars.
pub fn sub_fx(a: i64, b: i64) -> (r: Option<i64>)
    ensures
        r is Some <==> fits(a - b),
        r is Some ==> r->0 == a - b,
{
    let s: i128 = a as i128 - b as i128;
    if -(FX_MAX as i128) <= s && s <= FX_MAX as i128 {
        Some(s as i64)
    } else {
        None
    }
}

/// Checked product of two scalars.
pub fn mul_fx(a: i64, b: i64) -> (r: Option<i64>)
    ensures
        r is Some <==> fits(mul_s(a as int, b as int)),
        r is Some ==> r->0 == mul_s(a as int, b as int),
{
    proof {
        assert((a as int) * (b as int) <= 0x4000_0000_0000_0000_0000_0000_0000_0000int
            && (a as int) * (b as int) >= -0x4000_0000_0000_0000_0000_0000_0000_0000int)
            by (nonlinear_arith)
            requires
                -0x8000_0000_0000_0000int <= a as int <= 0x7fff_ffff_ffff_ffffint,
                -0x8000_0000_0000_0000int <= b as int <= 0x7fff_ffff_ffff_ffffint,
        ;
    }
    let p: i128 = (a as i128) * (b as i128);
    let q: i128 = div_trunc_wide(p, SCALE as i128);
    if -(FX_MAX as i128) <= q && q <= FX_MAX as i128 {
        Some(q as i64)
    } else {
        None
    }
}

/// Checked quotient of two scalars; the divisor must be positive.
pub fn div_fx(a: i64, b: i64) -> (r: Option<i64>)
    requires
        b >= 1,
    ensures
        r is Some <==> fits(div_s(a as int, b as int)),
        r is Some ==> r->0 == div_s(a as int, b as int),
{
    proof {
        assert((a as int) * (SCALE as int) <= 0x4000_0000_0000_0000_0000_0000_0000_0000int
            && (a as int) * (SCALE as int) >= -0x4000_0000_0000_0000_0000_0000_0000_0000int)
            by (nonlinear_arith)
            requires
                -0x8000_0000_0000_0000int <= a as int <= 0x7fff_ffff_ffff_ffffint,
        ;
    }
    let n: i128 = (a as i128) * (SCALE as i128);
    let q: i128 = div_trunc_wide(n, b as i128);
    if -(FX_MAX as i128) <= q && q <= FX_MAX as i128 {
        Some(q as i64)
    } else {
        None
    }
}

/// Half of a scalar, rounded toward zero; always representable.
pub fn half_fx(a: i64) -> (r: i64)
    ensures
        r == div_t(a as int, 2),
{
    proof {
        lemma_div_t_bounds(a as int, 2);
    }
    let q: i128 = div_trunc_wide(a as i128, 2);
    q as i64
}

/// A sixth of a scalar, rounded toward zero; always representable.
pub fn sixth_fx(a: i64) -> (r: i64)
    ensures
        r == div_t(a as int, 6),
{
    proof {
        lemma_div_t_bounds(a as int, 6);
    }
    let q: i128 = div_trunc_wide(a as i128, 6);
    q as i64
}

} // verus!
