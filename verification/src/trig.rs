//! Sine and cosine of fixed-point angles.
//!
//! An angle is a fixed-point number of radians. It is first reduced to one
//! turn, then to one quadrant, then to half a quadrant, where the sine and the
//! cosine are evaluated as truncated power series in nested form. Every
//! intermediate value is an integer, so the result is the same on every
//! machine, and it is exact at every multiple of a quarter turn.

use vstd::prelude::*;
use crate::fixed::{fmul, lemma_fmul_fraction, ONE};

verus! {

/// A quarter turn, `pi / 2` radians, rounded to the nearest raw unit.
pub const HALF_PI: i64 = 1_570_796_327;

/// Half a turn: exactly two quarter turns.
pub const PI: i64 = 3_141_592_654;

/// A full turn: exactly four quarter turns.
pub const TWO_PI: i64 = 6_283_185_308;

/// An eighth of a turn, rounded down.
pub const QUARTER_PI: i64 = 785_398_163;

/// The angle in `[0, TWO_PI)` that differs from `angle` by whole turns.
pub open spec fn normalize_spec(angle: int) -> int {
    angle % (TWO_PI as int)
}

/// One level of a nested power series: `1 - (z * t) / c`.
pub open spec fn series_step(z: int, t: int, c: int) -> int {
    ONE - fmul(z, t) / c
}

/// The sine of an angle of at most an eighth of a turn:
/// `x - x^3/3! + x^5/5! - x^7/7! + x^9/9!`, nested.
pub open spec fn sin_series(x: int) -> int {
    let z = fmul(x, x);
    fmul(x, series_step(z, series_step(z, series_step(z, series_step(z, ONE as int, 72), 42), 20), 6))
}

/// The cosine of an angle of at most an eighth of a turn:
/// `1 - x^2/2! + x^4/4! - x^6/6! + x^8/8! - x^10/10!`, nested.
pub open spec fn cos_series(x: int) -> int {
    let z = fmul(x, x);
    series_step(
        z,
        series_step(z, series_step(z, series_step(z, series_step(z, ONE as int, 90), 56), 30), 12),
        2,
    )
}

/// The sine of an angle in the first quadrant, `0 <= x <= HALF_PI`.
pub open spec fn sin_quadrant(x: int) -> int {
    if x <= QUARTER_PI {
        sin_series(x)
    } else {
        cos_series(HALF_PI - x)
    }
}

/// The sine of an angle within one turn, `0 <= r < TWO_PI`.
pub open spec fn sin_turn(r: int) -> int {
    if r <= HALF_PI {
        sin_quadrant(r)
    } else if r <= PI {
        sin_quadrant(PI - r)
    } else if r <= PI + HALF_PI {
        -sin_quadrant(r - PI)
    } else {
        -sin_quadrant(TWO_PI - r)
    }
}

/// The sine of any angle.
pub open spec fn sin_spec(angle: int) -> int {
    sin_turn(normalize_spec(angle))
}

/// The cosine of any angle: the sine a quarter turn further on.
pub open spec fn cos_spec(angle: int) -> int {
    sin_spec(angle + HALF_PI)
}

/// One level of the series maps fractions to fractions.
pub proof fn lemma_series_step_range(z: int, t: int, c: int)
    requires
        0 <= z <= ONE,
        0 <= t <= ONE,
        c >= 1,
    ensures
        ONE - z <= series_step(z, t, c) <= ONE,
        0 <= fmul(z, t) <= z,
{
    lemma_fmul_fraction(t, z);
    assert(fmul(t, z) == fmul(z, t)) by (nonlinear_arith);
    let p = fmul(z, t);
    assert(0 <= p / c <= p) by (nonlinear_arith)
        requires
            0 <= p,
            c >= 1,
    ;
}

/// The square of an angle of at most an eighth of a turn (one raw unit of
/// slack included) is a fraction.
pub proof fn lemma_square_range(x: int)
    requires
        0 <= x <= QUARTER_PI + 1,
    ensures
        0 <= x * x <= 616_850_276_014_570_896,
        0 <= fmul(x, x) <= ONE,
{
    assert(0 <= x * x <= 785_398_164 * 785_398_164) by (nonlinear_arith)
        requires
            0 <= x <= 785_398_164,
    ;
    let one = ONE as int;
    let sq = x * x;
    assert(0 <= sq / one <= one) by (nonlinear_arith)
        requires
            0 <= sq <= 616_850_276_014_570_896,
            one == 1_000_000_000,
    ;
}

/// Within half a quadrant both series give fractions.
pub proof fn lemma_series_range(x: int)
    requires
        0 <= x <= QUARTER_PI + 1,
    ensures
        0 <= sin_series(x) <= ONE,
        0 <= cos_series(x) <= ONE,
{
    lemma_square_range(x);
    let z = fmul(x, x);
    let one = ONE as int;
    let s4 = series_step(z, one, 72);
    lemma_series_step_range(z, one, 72);
    let s3 = series_step(z, s4, 42);
    lemma_series_step_range(z, s4, 42);
    let s2 = series_step(z, s3, 20);
    lemma_series_step_range(z, s3, 20);
    let s1 = series_step(z, s2, 6);
    lemma_series_step_range(z, s2, 6);
    lemma_fmul_fraction(s1, x);
    assert(fmul(s1, x) == fmul(x, s1)) by (nonlinear_arith);

    let c5 = series_step(z, one, 90);
    lemma_series_step_range(z, one, 90);
    let c4 = series_step(z, c5, 56);
    lemma_series_step_range(z, c5, 56);
    let c3 = series_step(z, c4, 30);
    lemma_series_step_range(z, c4, 30);
    let c2 = series_step(z, c3, 12);
    lemma_series_step_range(z, c3, 12);
    lemma_series_step_range(z, c2, 2);
}

/// The sine of every angle lies between minus one and one.
pub proof fn lemma_sin_range(angle: int)
    ensures
        -ONE <= sin_spec(angle) <= ONE,
{
    let r = normalize_spec(angle);
    assert(0 <= r < TWO_PI);
    let x = if r <= HALF_PI {
        r
    } else if r <= PI {
        PI - r
    } else if r <= PI + HALF_PI {
        r - PI
    } else {
        TWO_PI - r
    };
    assert(0 <= x <= HALF_PI);
    if x <= QUARTER_PI {
        lemma_series_range(x);
    } else {
        lemma_series_range(HALF_PI - x);
    }
}

/// The cosine of every angle lies between minus one and one.
pub proof fn lemma_cos_range(angle: int)
    ensures
        -ONE <= cos_spec(angle) <= ONE,
{
    lemma_sin_range(angle + HALF_PI);
}

/// Angles that differ by a whole turn have the same sine and cosine.
pub proof fn lemma_full_turn(angle: int)
    ensures
        sin_spec(angle + TWO_PI) == sin_spec(angle),
        cos_spec(angle + TWO_PI) == cos_spec(angle),
        normalize_spec(normalize_spec(angle)) == normalize_spec(angle),
        sin_spec(normalize_spec(angle)) == sin_spec(angle),
        cos_spec(normalize_spec(angle)) == cos_spec(angle),
{
    let t = TWO_PI as int;
    let r = angle % t;
    assert((angle + t) % t == r);
    assert((angle + HALF_PI + t) % t == (angle + HALF_PI) % t);
    assert(r % t == r);
    assert((r + HALF_PI) % t == (angle + HALF_PI) % t);
}

/// With a zero argument one level of the series is exactly one, and a
/// product with zero is zero.
pub proof fn lemma_series_step_zero(t: int, c: int)
    requires
        c >= 1,
    ensures
        fmul(0, t) == 0,
        series_step(0, t, c) == ONE,
{
    assert(0 * t == 0) by (nonlinear_arith);
    assert(0int / c == 0) by (nonlinear_arith)
        requires
            c >= 1,
    ;
}

/// At the four quarter turns the sine and the cosine are exact.
pub proof fn lemma_quarter_turns()
    ensures
        sin_spec(0) == 0,
        cos_spec(0) == ONE,
        sin_spec(HALF_PI as int) == ONE,
        cos_spec(HALF_PI as int) == 0,
        sin_spec(PI as int) == 0,
        cos_spec(PI as int) == -ONE,
        sin_spec(PI + HALF_PI) == -ONE,
        cos_spec(PI + HALF_PI) == 0,
{
    let t = TWO_PI as int;
    assert(0int % t == 0);
    assert((HALF_PI as int) % t == HALF_PI);
    assert((PI as int) % t == PI);
    assert((PI + HALF_PI) % t == PI + HALF_PI);
    assert((PI + HALF_PI + HALF_PI) % t == 0);
    let one = ONE as int;
    lemma_series_step_zero(0, 1);
    assert(sin_series(0) == 0) by {
        let inner = series_step(0, series_step(0, series_step(0, series_step(0, one, 72), 42), 20), 6);
        lemma_series_step_zero(inner, 1);
    }
    assert(cos_series(0) == ONE) by {
        let inner = series_step(0, series_step(0, series_step(0, series_step(0, one, 90), 56), 30), 12);
        lemma_series_step_zero(inner, 2);
    }
}

/// The angle in `[0, TWO_PI)` that differs from `angle` by whole turns.
pub fn normalize(angle: i128) -> (r: i64)
    ensures
        r == normalize_spec(angle as int),
        0 <= r < TWO_PI,
{
    let m: i128 = angle % (TWO_PI as i128);
    if m < 0 {
        (m + TWO_PI as i128) as i64
    } else {
        m as i64
    }
}

fn series_step_exec(z: i64, t: i64, c: i64) -> (r: i64)
    requires
        0 <= z <= ONE,
        0 <= t <= ONE,
        c >= 1,
    ensures
        r == series_step(z as int, t as int, c as int),
        0 <= r <= ONE,
{
    proof {
        lemma_series_step_range(z as int, t as int, c as int);
        assert(0 <= z * t <= ONE * ONE) by (nonlinear_arith)
            requires
                0 <= z <= ONE,
                0 <= t <= ONE,
        ;
    }
    let p: i64 = (z * t) / ONE;
    ONE - p / c
}

fn square_exec(x: i64) -> (z: i64)
    requires
        0 <= x <= QUARTER_PI + 1,
    ensures
        z == fmul(x as int, x as int),
        0 <= z <= ONE,
{
    proof {
        lemma_square_range(x as int);
    }
    (x * x) / ONE
}

fn sin_series_exec(x: i64) -> (s: i64)
    requires
        0 <= x <= QUARTER_PI + 1,
    ensures
        s == sin_series(x as int),
        0 <= s <= ONE,
{
    let z: i64 = square_exec(x);
    let s4: i64 = series_step_exec(z, ONE, 72);
    let s3: i64 = series_step_exec(z, s4, 42);
    let s2: i64 = series_step_exec(z, s3, 20);
    let s1: i64 = series_step_exec(z, s2, 6);
    proof {
        lemma_series_range(x as int);
        assert(0 <= x * s1 <= ONE * ONE) by (nonlinear_arith)
            requires
                0 <= x <= ONE,
                0 <= s1 <= ONE,
        ;
    }
    (x * s1) / ONE
}

fn cos_series_exec(x: i64) -> (c: i64)
    requires
        0 <= x <= QUARTER_PI + 1,
    ensures
        c == cos_series(x as int),
        0 <= c <= ONE,
{
    let z: i64 = square_exec(x);
    let c5: i64 = series_step_exec(z, ONE, 90);
    let c4: i64 = series_step_exec(z, c5, 56);
    let c3: i64 = series_step_exec(z, c4, 30);
    let c2: i64 = series_step_exec(z, c3, 12);
    series_step_exec(z, c2, 2)
}

fn sin_quadrant_exec(x: i64) -> (s: i64)
    requires
        0 <= x <= HALF_PI,
    ensures
        s == sin_quadrant(x as int),
        0 <= s <= ONE,
{
    if x <= QUARTER_PI {
        sin_series_exec(x)
    } else {
        cos_series_exec(HALF_PI - x)
    }
}

fn sin_turn_exec(r: i64) -> (s: i64)
    requires
        0 <= r < TWO_PI,
    ensures
        s == sin_turn(r as int),
        -ONE <= s <= ONE,
{
    if r <= HALF_PI {
        sin_quadrant_exec(r)
    } else if r <= PI {
        sin_quadrant_exec(PI - r)
    } else if r <= PI + HALF_PI {
        -sin_quadrant_exec(r - PI)
    } else {
        -sin_quadrant_exec(TWO_PI - r)
    }
}

/// The sine of an angle given in fixed-point radians.
pub fn sin(angle: i64) -> (s: i64)
    ensures
        s == sin_spec(angle as int),
        -ONE <= s <= ONE,
{
    sin_turn_exec(normalize(angle as i128))
}

/// The cosine of an angle given in fixed-point radians.
pub fn cos(angle: i64) -> (c: i64)
    ensures
        c == cos_spec(angle as int),
        -ONE <= c <= ONE,
{
    sin_turn_exec(normalize(angle as i128 + HALF_PI as i128))
}

} // verus!
