//! Fixed-point numbers with six decimal places, held in an `i64`.
//!
//! A quantity `x` is stored as the integer nearest to `x * SCALE`. Positions
//! and heights are then in millionths of a layout unit, times in
//! microseconds, velocities in millionths of a unit per second. Results that
//! would leave the range of `i64` stop at its ends.

use vstd::prelude::*;

verus! {

/// Number of steps in one unit.
pub const SCALE: i64 = 1_000_000;

/// The quotient of `a` by a positive `b`, rounded toward zero.
pub open spec fn trunc_div(a: int, b: int) -> int
    recommends
        b > 0,
{
    if a >= 0 {
        a / b
    } else {
        -((-a) / b)
    }
}

/// The value of `i64` nearest to `x`.
pub open spec fn saturate(x: int) -> int {
    if x < i64::MIN {
        i64::MIN as int
    } else if x > i64::MAX {
        i64::MAX as int
    } else {
        x
    }
}

/// `x` moved into `[lo, hi]`.
pub open spec fn clamp(x: int, lo: int, hi: int) -> int
    recommends
        lo <= hi,
{
    if x < lo {
        lo
    } else if x > hi {
        hi
    } else {
        x
    }
}

/// The fixed-point product of two fixed-point numbers, before saturation.
pub open spec fn product(a: int, b: int) -> int {
    trunc_div(a * b, SCALE as int)
}

/// The fixed-point quotient of `a` by a positive `b`, before saturation.
pub open spec fn quotient(a: int, b: int) -> int
    recommends
        b > 0,
{
    trunc_div(a * SCALE, b)
}

/// Divides two wide integers, rounding toward zero.
pub fn div_toward_zero(a: i128, b: i128) -> (q: i128)
    requires
        b > 0,
        a > i128::MIN,
    ensures
        q == trunc_div(a as int, b as int),
{
    if a >= 0 {
        a / b
    } else {
        let m: i128 = -a;
        let p: i128 = m / b;
        -p
    }
}

/// Brings a wide integer into the range of `i64`.
pub fn saturate_wide(x: i128) -> (r: i64)
    ensures
        r == saturate(x as int),
{
    if x < i64::MIN as i128 {
        i64::MIN
    } else if x > i64::MAX as i128 {
        i64::MAX
    } else {
        x as i64
    }
}

/// Multiplies two fixed-point numbers.
pub fn multiply(a: i64, b: i64) -> (r: i64)
    ensures
        r == saturate(product(a as int, b as int)),
{
    let wide: i128 = wide_product(a, b);
    saturate_wide(div_toward_zero(wide, SCALE as i128))
}

/// Divides a fixed-point number by a positive one.
pub fn divide(a: i64, b: i64) -> (r: i64)
    requires
        b > 0,
    ensures
        r == saturate(quotient(a as int, b as int)),
{
    let wide: i128 = wide_product(a, SCALE);
    saturate_wide(div_toward_zero(wide, b as i128))
}

/// The exact product of two `i64` values.
pub fn wide_product(a: i64, b: i64) -> (p: i128)
    ensures
        p == a * b,
        -0x4000_0000_0000_0000_0000_0000_0000_0000 <= p <= 0x4000_0000_0000_0000_0000_0000_0000_0000,
{
    proof {
        lemma_product_bound(a as int, b as int, 0x8000_0000_0000_0000, 0x8000_0000_0000_0000);
    }
    (a as i128) * (b as i128)
}

/// Rounding toward zero keeps the sign and never grows the magnitude.
pub proof fn lemma_trunc_div_bounds(a: int, b: int)
    by (nonlinear_arith)
    requires
        b > 0,
    ensures
        a >= 0 ==> 0 <= trunc_div(a, b) <= a,
        a <= 0 ==> a <= trunc_div(a, b) <= 0,
        trunc_div(-a, b) == -trunc_div(a, b),
{
}

/// Rounding toward zero keeps the order of the numbers divided.
pub proof fn lemma_trunc_div_monotone(a: int, b: int, d: int)
    by (nonlinear_arith)
    requires
        d > 0,
        a <= b,
    ensures
        trunc_div(a, d) <= trunc_div(b, d),
{
}

/// The product of an integer of magnitude at most `m` and one of magnitude at
/// most `n` has magnitude at most `m * n`.
pub proof fn lemma_product_bound(a: int, b: int, m: int, n: int)
    by (nonlinear_arith)
    requires
        -m <= a <= m,
        -n <= b <= n,
    ensures
        -(m * n) <= a * b <= m * n,
{
}

} // verus!
