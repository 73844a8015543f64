//! Fixed-point numbers.
//!
//! Every real quantity of the engine (a coordinate, an angle in radians, a
//! duration in seconds, a speed) is held as an integer that counts billionths
//! of its unit. Stored quantities are `i64`; intermediate results, which can
//! be larger, are `i128`. Contracts speak of the raw integers as `int`.

use vstd::prelude::*;

verus! {

/// Raw units per whole unit.
pub const ONE: i64 = 1_000_000_000;

/// A bound on the magnitude of every product that `multiply` and
/// `multiply_wide` return: two to the power 97.
pub const WIDE_LIMIT: i128 = 0x2_0000_0000_0000_0000_0000_0000;

/// The whole-number part of a fixed-point quantity, rounded towards minus
/// infinity. For a coordinate this is the index of the grid cell it lies in.
pub open spec fn floor_units(raw: int) -> int {
    raw / (ONE as int)
}

/// The fixed-point product of two fixed-point quantities, rounded towards
/// minus infinity.
pub open spec fn fmul(a: int, b: int) -> int {
    (a * b) / (ONE as int)
}

/// A product of two 64-bit quantities fits in 128 bits with room to spare.
pub proof fn lemma_product_fits(a: int, b: int)
    requires
        -0x8000_0000_0000_0000 <= a <= 0x8000_0000_0000_0000,
        -0x8000_0000_0000_0000 <= b <= 0x8000_0000_0000_0000,
    ensures
        -0x4000_0000_0000_0000_0000_0000_0000_0000 <= a * b
            <= 0x4000_0000_0000_0000_0000_0000_0000_0000,
{
    assert(-0x4000_0000_0000_0000_0000_0000_0000_0000 <= a * b
        <= 0x4000_0000_0000_0000_0000_0000_0000_0000) by (nonlinear_arith)
        requires
            -0x8000_0000_0000_0000 <= a <= 0x8000_0000_0000_0000,
            -0x8000_0000_0000_0000 <= b <= 0x8000_0000_0000_0000,
    ;
}

/// Scaling by a factor of magnitude at most one does not increase magnitude:
/// if `-ONE <= a <= ONE` and `-bound <= b <= bound`, then
/// `-bound <= fmul(a, b) <= bound`.
pub proof fn lemma_fmul_unit(a: int, b: int, bound: int)
    requires
        -ONE <= a <= ONE,
        -bound <= b <= bound,
    ensures
        -bound <= fmul(a, b) <= bound,
{
    let one = ONE as int;
    assert(-(bound * one) <= a * b <= bound * one) by (nonlinear_arith)
        requires
            -one <= a <= one,
            -bound <= b <= bound,
            one > 0,
    ;
    lemma_floor_bounds(a * b, -bound, bound);
}

/// The fixed-point product does not depend on the order of its factors.
pub proof fn lemma_fmul_commutes(a: int, b: int)
    ensures
        fmul(a, b) == fmul(b, a),
{
    assert(a * b == b * a) by (nonlinear_arith);
}

/// A product of two non-negative factors, one of them at most one, lies
/// between zero and the other factor.
pub proof fn lemma_fmul_fraction(a: int, b: int)
    requires
        0 <= a <= ONE,
        0 <= b,
    ensures
        0 <= fmul(a, b) <= b,
{
    let one = ONE as int;
    assert(0 <= a * b <= b * one) by (nonlinear_arith)
        requires
            0 <= a <= one,
            0 <= b,
    ;
    lemma_floor_bounds(a * b, 0, b);
}

/// The floor of a value that lies between two whole numbers of units lies
/// between those numbers.
pub proof fn lemma_floor_bounds(raw: int, lo: int, hi: int)
    requires
        lo * ONE <= raw <= hi * ONE,
    ensures
        lo <= floor_units(raw) <= hi,
{
    let one = ONE as int;
    assert(lo <= raw / one <= hi) by (nonlinear_arith)
        requires
            lo * one <= raw <= hi * one,
            one > 0,
    ;
}

/// The whole-number part of a fixed-point quantity, rounded towards minus
/// infinity.
pub fn floor_to_units(raw: i128) -> (units: i128)
    ensures
        units == floor_units(raw as int),
{
    let q: i128 = raw / (ONE as i128);
    let r: i128 = raw % (ONE as i128);
    if r < 0 {
        q - 1
    } else {
        q
    }
}

/// The fixed-point product of two stored quantities, rounded towards minus
/// infinity. The result can need more than 64 bits.
pub fn multiply(a: i64, b: i64) -> (p: i128)
    ensures
        p == fmul(a as int, b as int),
        -WIDE_LIMIT <= p <= WIDE_LIMIT,
{
    proof {
        lemma_product_fits(a as int, b as int);
        lemma_floor_bounds(a * b, -WIDE_LIMIT, WIDE_LIMIT as int);
    }
    let wide: i128 = (a as i128) * (b as i128);
    floor_to_units(wide)
}

/// The fixed-point product of a stored quantity and an intermediate one whose
/// magnitude is at most that of a stored quantity.
pub fn multiply_wide(a: i128, b: i64) -> (p: i128)
    requires
        -0x8000_0000_0000_0000 <= a <= 0x8000_0000_0000_0000,
    ensures
        p == fmul(a as int, b as int),
        -WIDE_LIMIT <= p <= WIDE_LIMIT,
{
    proof {
        lemma_product_fits(a as int, b as int);
        lemma_floor_bounds(a * b, -WIDE_LIMIT, WIDE_LIMIT as int);
    }
    let wide: i128 = a * (b as i128);
    floor_to_units(wide)
}

} // verus!
