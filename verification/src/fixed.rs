//! Fixed-point arithmetic on millionths.
//!
//! A scalar `v` is stored as the integer `v * UNIT`. Sums and differences are
//! those of the integers. A product is the integer product divided by `UNIT`
//! and rounded toward zero, so that negating a factor negates the result.

use vstd::prelude::*;

verus! {

/// Raw units per whole unit.
pub const UNIT: i64 = 1_000_000;

/// Half a turn, rounded down: every angle up to `PI` lies strictly below π.
pub const PI: i64 = 3_141_592;

/// A quarter turn, rounded down: every angle up to `FRAC_PI_2` lies strictly
/// below π/2.
pub const FRAC_PI_2: i64 = 1_570_796;

/// The quotient `a / b` rounded toward zero, for a positive divisor.
pub open spec fn trunc_div(a: int, b: int) -> int
    recommends
        b > 0,
{
    if a >= 0 {
        a / b
    } else {
        -((-a) / b)
    }
}

/// The fixed-point product of two scalars.
pub open spec fn product(a: int, b: int) -> int {
    trunc_div(a * b, UNIT as int)
}

/// `x` moved to the nearest value of the interval from `lo` to `hi`.
pub open spec fn clamp(x: int, lo: int, hi: int) -> int
    recommends
        lo <= hi,
{
    if x < lo {
        lo
    } else if x > hi {
        hi
    } else {
        x
    }
}

/// Whether `x` can be stored in a scalar.
pub open spec fn fits(x: int) -> bool {
    i64::MIN <= x <= i64::MAX
}

/// The product of two stored scalars stays far inside the wide integers.
pub proof fn lemma_wide_product(a: int, b: int)
    by (nonlinear_arith)
    requires
        fits(a),
        fits(b),
    ensures
        -0x4000_0000_0000_0000_0000_0000_0000_0000 < a * b
            <= 0x4000_0000_0000_0000_0000_0000_0000_0000,
{
}

/// A fixed-point product of stored scalars leaves room for adding a scalar.
pub proof fn lemma_product_bounded(a: int, b: int)
    requires
        fits(a),
        fits(b),
    ensures
        -0x800_0000_0000_0000_0000_0000_0000 < product(a, b) < 0x800_0000_0000_0000_0000_0000_0000,
{
    lemma_wide_product(a, b);
}

/// Negating a factor negates the product.
pub proof fn lemma_product_negates(a: int, b: int)
    ensures
        product(-a, b) == -product(a, b),
        product(a, -b) == -product(a, b),
{
    assert((-a) * b == -(a * b)) by (nonlinear_arith);
    assert(a * (-b) == -(a * b)) by (nonlinear_arith);
}

/// Rounding toward zero loses less than one raw unit and never adds
/// magnitude: `product(a, b) * UNIT` lies between `a * b` and zero, within
/// `UNIT` of `a * b`.
pub proof fn lemma_product_error(a: int, b: int)
    ensures
        a * b >= 0 ==> a * b - UNIT < product(a, b) * UNIT <= a * b,
        a * b <= 0 ==> a * b <= product(a, b) * UNIT < a * b + UNIT,
{
}

/// The fixed-point product of two stored scalars, as a wide integer.
pub fn multiply(a: i64, b: i64) -> (p: i128)
    ensures
        p == product(a as int, b as int),
{
    proof {
        lemma_wide_product(a as int, b as int);
    }
    let wide: i128 = (a as i128) * (b as i128);
    wide / (UNIT as i128)
}

/// Whether a wide integer can be stored in a scalar.
pub fn in_range(x: i128) -> (ok: bool)
    ensures
        ok == fits(x as int),
{
    (i64::MIN as i128) <= x && x <= (i64::MAX as i128)
}

/// A wide integer that fits, as a scalar.
pub fn narrow(x: i128) -> (r: i64)
    requires
        fits(x as int),
    ensures
        r == x,
{
    x as i64
}

/// A wide integer clamped to an interval of scalars.
pub fn clamp_wide(x: i128, lo: i64, hi: i64) -> (r: i64)
    ensures
        r == clamp(x as int, lo as int, hi as int),
{
    if x < lo as i128 {
        lo
    } else if x > hi as i128 {
        hi
    } else {
        x as i64
    }
}

} // verus!
