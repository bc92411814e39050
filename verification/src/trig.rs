//! Fixed-point sine and cosine on a phase measured in turn units.
//!
//! A full turn is `TURN_UNITS` phase units; a phase `p` stands for the angle
//! `2 * pi * p / TURN_UNITS`. The sine is a fixed-point rational
//! approximation on the first half turn (the classical `16 u (1 - u) /
//! (5 - 4 u (1 - u))` half-wave form, scaled to integers), extended to the
//! full turn by odd symmetry. Results are scaled by `FX_SCALE`, peak at
//! exactly `FX_SCALE` on the quarter turn, and are bounded by `FX_SCALE` in
//! absolute value.

use vstd::prelude::*;

use crate::arith::lemma_div_le;
use crate::arith::lemma_div_nonneg;
use crate::arith::lemma_mul_le_nonneg;
use crate::FX_SCALE;
use crate::HALF_TURN;
use crate::QUARTER_TURN;
use crate::TURN_UNITS;

verus! {

/// Fixed-point sine on the first half turn: `h` ranges over
/// `[0, HALF_TURN]` and the value over `[0, FX_SCALE]`.
pub open spec fn spec_half_sine(h: int) -> int
    recommends
        0 <= h <= HALF_TURN,
{
    (16 * (FX_SCALE as int) * (h * (HALF_TURN - h))) / (5 * (HALF_TURN as int) * (HALF_TURN as int)
        - 4 * (h * (HALF_TURN - h)))
}

/// Fixed-point sine over a full turn, by odd symmetry of the half wave.
pub open spec fn spec_sin_fx(p: int) -> int
    recommends
        0 <= p < TURN_UNITS,
{
    if p < HALF_TURN {
        spec_half_sine(p)
    } else {
        -spec_half_sine(p - HALF_TURN)
    }
}

/// Fixed-point cosine: the sine advanced by a quarter turn.
pub open spec fn spec_cos_fx(p: int) -> int
    recommends
        0 <= p < TURN_UNITS,
{
    if p + QUARTER_TURN < TURN_UNITS {
        spec_sin_fx(p + QUARTER_TURN)
    } else {
        spec_sin_fx(p + QUARTER_TURN - TURN_UNITS)
    }
}

/// The half-wave numerator kernel `h * (HALF_TURN - h)` stays within a
/// quarter of `HALF_TURN` squared, and the half-wave value within
/// `[0, FX_SCALE]`.
proof fn lemma_half_sine_bounds(h: int)
    requires
        0 <= h <= HALF_TURN,
    ensures
        0 <= h * (HALF_TURN - h),
        4 * (h * (HALF_TURN - h)) <= (HALF_TURN as int) * (HALF_TURN as int),
        0 <= spec_half_sine(h) <= FX_SCALE,
{
    let half = HALF_TURN as int;
    let n = h * (half - h);
    assert(0 <= n && 4 * n <= half * half) by (nonlinear_arith)
        requires
            0 <= h <= half,
            n == h * (half - h),
    {
    }
    let num = 16 * (FX_SCALE as int) * n;
    let den = 5 * half * half - 4 * n;
    assert(den >= half * half) by (nonlinear_arith)
        requires
            den == 5 * half * half - 4 * n,
            4 * n <= half * half,
            half == HALF_TURN as int,
    {
    }
    assert(num <= FX_SCALE * den) by (nonlinear_arith)
        requires
            num == 16 * (FX_SCALE as int) * n,
            den == 5 * half * half - 4 * n,
            4 * n <= half * half,
            0 <= n,
            half == HALF_TURN as int,
    {
    }
    lemma_div_nonneg(num, den);
    lemma_div_le(num, FX_SCALE as int, den);
}

/// Fixed-point sine of a phase in turn units.
pub fn sin_fx(p: u32) -> (r: i64)
    requires
        p < TURN_UNITS,
    ensures
        r == spec_sin_fx(p as int),
        -FX_SCALE <= r <= FX_SCALE,
{
    let (h, negate): (u32, bool) = if p < HALF_TURN {
        (p, false)
    } else {
        (p - HALF_TURN, true)
    };
    proof {
        lemma_half_sine_bounds(h as int);
        lemma_mul_le_nonneg(h as int, (HALF_TURN - h) as int, HALF_TURN as int, HALF_TURN as int);
    }
    let n: u64 = (h as u64) * ((HALF_TURN - h) as u64);
    let num: u64 = 16 * (FX_SCALE as u64) * n;
    let den: u64 = 5 * (HALF_TURN as u64) * (HALF_TURN as u64) - 4 * n;
    let v: i64 = (num / den) as i64;
    if negate {
        -v
    } else {
        v
    }
}

/// Fixed-point cosine of a phase in turn units.
pub fn cos_fx(p: u32) -> (r: i64)
    requires
        p < TURN_UNITS,
    ensures
        r == spec_cos_fx(p as int),
        -FX_SCALE <= r <= FX_SCALE,
{
    let q: u32 = if p < TURN_UNITS - QUARTER_TURN {
        p + QUARTER_TURN
    } else {
        p + QUARTER_TURN - TURN_UNITS
    };
    sin_fx(q)
}

} // verus!
