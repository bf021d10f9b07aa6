use soroban_fixed_point_math::SorobanFixedPoint;
use soroban_sdk::Env;
use vstd::prelude::*;

verus! {

/// The host environment, carried through to the fixed-point routines.
#[verifier::external_type_specification]
#[verifier::external_body]
pub struct ExEnv(soroban_sdk::Env);

/// Whether `v` can be held in a signed 128-bit integer.
pub open spec fn fits_i128(v: int) -> bool {
    i128::MIN <= v <= i128::MAX
}

/// The quotient `n / d` rounded toward negative infinity, for `d != 0`.
pub open spec fn floor_div(n: int, d: int) -> int {
    if d > 0 {
        n / d
    } else {
        (-n) / (-d)
    }
}

/// The quotient `n / d` rounded toward positive infinity, for `d != 0`.
pub open spec fn ceil_div(n: int, d: int) -> int {
    -floor_div(-n, d)
}

/// `floor(x * y / d)` is defined and representable.
pub open spec fn mul_floor_ok(x: int, y: int, d: int) -> bool {
    d != 0 && fits_i128(floor_div(x * y, d))
}

/// `ceil(x * y / d)` is defined and representable.
pub open spec fn mul_ceil_ok(x: int, y: int, d: int) -> bool {
    d != 0 && fits_i128(ceil_div(x * y, d))
}

/// Calls `SorobanFixedPoint::fixed_mul_floor` on `i128`. That routine
/// multiplies in 128 bits, retries in 256 bits when the product overflows,
/// and rounds the quotient down; it aborts on a zero denominator or on a
/// quotient outside `i128`, which the precondition excludes.
#[verifier::external_body]
pub(crate) fn fixed_mul_floor(e: &Env, x: i128, y: i128, denominator: i128) -> (r: i128)
    requires
        mul_floor_ok(x as int, y as int, denominator as int),
    ensures
        r as int == floor_div(x as int * y as int, denominator as int),
{
    x.fixed_mul_floor(e, &y, &denominator)
}

/// Calls `SorobanFixedPoint::fixed_mul_ceil` on `i128`: as
/// `fixed_mul_floor`, with the quotient rounded up.
#[verifier::external_body]
pub(crate) fn fixed_mul_ceil(e: &Env, x: i128, y: i128, denominator: i128) -> (r: i128)
    requires
        mul_ceil_ok(x as int, y as int, denominator as int),
    ensures
        r as int == ceil_div(x as int * y as int, denominator as int),
{
    x.fixed_mul_ceil(e, &y, &denominator)
}

/// Calls `SorobanFixedPoint::fixed_div_floor` on `i128`, which computes
/// `floor(x * denominator / y)` under the same conditions as
/// `fixed_mul_floor`, with `y` as the divisor.
#[verifier::external_body]
pub(crate) fn fixed_div_floor(e: &Env, x: i128, y: i128, denominator: i128) -> (r: i128)
    requires
        mul_floor_ok(x as int, denominator as int, y as int),
    ensures
        r as int == floor_div(x as int * denominator as int, y as int),
{
    x.fixed_div_floor(e, &y, &denominator)
}

} // verus!
