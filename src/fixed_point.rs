//! Fixed-point multiply/divide with explicit rounding, on `i128`.
//!
//! Every operation computes `x * y / z` with an exact intermediate product and
//! fails (returns `None`) when that product does not fit in an `i128`.
use soroban_fixed_point_math::FixedPoint;
use vstd::prelude::*;

verus! {

/// Whether `v` is representable as an `i128`.
pub open spec fn fits_i128(v: int) -> bool {
    i128::MIN <= v <= i128::MAX
}

/// `floor(x * y / z)` for a positive `z`.
pub open spec fn mul_div_floor(x: int, y: int, z: int) -> int
    recommends
        z > 0,
{
    (x * y) / z
}

/// `ceil(x * y / z)` for a positive `z`.
pub open spec fn mul_div_ceil(x: int, y: int, z: int) -> int
    recommends
        z > 0,
{
    (x * y + z - 1) / z
}

/// Relies on soroban_fixed_point_math's `FixedPoint::fixed_mul_floor` for `i128`:
/// `floor(x * y / z)`, `None` when `x * y` overflows.
#[verifier::external_body]
pub(crate) fn fixed_mul_floor(x: i128, y: i128, z: i128) -> (r: Option<i128>)
    requires
        z > 0,
    ensures
        r is Some <==> fits_i128(x * y),
        r is Some ==> r->0 == mul_div_floor(x as int, y as int, z as int),
{
    x.fixed_mul_floor(y, z)
}

/// Relies on soroban_fixed_point_math's `FixedPoint::fixed_mul_ceil` for `i128`:
/// `ceil(x * y / z)`, `None` when `x * y` overflows.
#[verifier::external_body]
pub(crate) fn fixed_mul_ceil(x: i128, y: i128, z: i128) -> (r: Option<i128>)
    requires
        z > 0,
    ensures
        r is Some <==> fits_i128(x * y),
        r is Some ==> r->0 == mul_div_ceil(x as int, y as int, z as int),
{
    x.fixed_mul_ceil(y, z)
}

/// Relies on soroban_fixed_point_math's `FixedPoint::fixed_div_floor` for `i128`:
/// `floor(x * denominator / y)`, `None` when `x * denominator` overflows.
#[verifier::external_body]
pub(crate) fn fixed_div_floor(x: i128, y: i128, denominator: i128) -> (r: Option<i128>)
    requires
        y > 0,
    ensures
        r is Some <==> fits_i128(x * denominator),
        r is Some ==> r->0 == mul_div_floor(x as int, denominator as int, y as int),
{
    x.fixed_div_floor(y, denominator)
}

/// Relies on soroban_fixed_point_math's `FixedPoint::fixed_div_ceil` for `i128`:
/// `ceil(x * denominator / y)`, `None` when `x * denominator` overflows.
#[verifier::external_body]
pub(crate) fn fixed_div_ceil(x: i128, y: i128, denominator: i128) -> (r: Option<i128>)
    requires
        y > 0,
    ensures
        r is Some <==> fits_i128(x * denominator),
        r is Some ==> r->0 == mul_div_ceil(x as int, denominator as int, y as int),
{
    x.fixed_div_ceil(y, denominator)
}

/// Whether `a * b` fits in an `i128`.
pub(crate) fn mul_fits(a: i128, b: i128) -> (r: bool)
    ensures
        r == fits_i128(a * b),
{
    a.checked_mul(b).is_some()
}

/// Rounding facts about `mul_div_floor` and `mul_div_ceil`.
pub proof fn lemma_mul_div_bounds(x: int, y: int, z: int)
    requires
        z > 0,
    ensures
        mul_div_floor(x, y, z) * z <= x * y < mul_div_floor(x, y, z) * z + z,
        mul_div_ceil(x, y, z) * z - z < x * y <= mul_div_ceil(x, y, z) * z,
        mul_div_floor(x, y, z) <= mul_div_ceil(x, y, z) <= mul_div_floor(x, y, z) + 1,
{
    let p = x * y;
    let f = p / z;
    let c = (p + z - 1) / z;
    vstd::arithmetic::div_mod::lemma_fundamental_div_mod(p, z);
    vstd::arithmetic::div_mod::lemma_fundamental_div_mod(p + z - 1, z);
    assert(f * z <= p < f * z + z) by (nonlinear_arith)
        requires
            p == z * f + p % z,
            0 <= p % z < z,
    ;
    assert(c * z - z < p <= c * z) by (nonlinear_arith)
        requires
            p + z - 1 == z * c + (p + z - 1) % z,
            0 <= (p + z - 1) % z < z,
    ;
    assert(f <= c <= f + 1) by (nonlinear_arith)
        requires
            f * z <= p < f * z + z,
            c * z - z < p <= c * z,
            z > 0,
    ;
}

/// A rounded quotient by a positive divisor of a product that fits in an
/// `i128` fits in an `i128` too.
pub proof fn lemma_mul_div_fits(x: int, y: int, z: int)
    requires
        z > 0,
        fits_i128(x * y),
    ensures
        fits_i128(mul_div_floor(x, y, z)),
        fits_i128(mul_div_ceil(x, y, z)),
{
    lemma_mul_div_bounds(x, y, z);
    let p = x * y;
    let f = mul_div_floor(x, y, z);
    let c = mul_div_ceil(x, y, z);
    assert(p >= 0 ==> 0 <= f <= c <= p) by (nonlinear_arith)
        requires
            f * z <= p < f * z + z,
            c * z - z < p <= c * z,
            z > 0,
    ;
    assert(p < 0 ==> p <= f <= c <= 0) by (nonlinear_arith)
        requires
            f * z <= p < f * z + z,
            c * z - z < p <= c * z,
            z > 0,
    ;
}

} // verus!
