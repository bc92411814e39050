//! Phasor projection: mapping samples onto a rotating unit circle.
//!
//! For a candidate frequency `f`, sample index `i` and sample rate `rate`,
//! the instantaneous phase is the fraction of a full turn that `f * i / rate`
//! has swept, expressed in turn units. The projector multiplies each sample
//! amplitude by the fixed-point cosine and sine of that phase, yielding one
//! 2D phasor point per sample, in sample order. Projection is a pure
//! function of (signal, frequency, rate): repeated runs for the same
//! candidate yield the same points.

use vstd::prelude::*;

use crate::arith::lemma_div_lt;
use crate::arith::lemma_div_nonneg;
use crate::arith::lemma_mul_abs_le;
use crate::arith::lemma_mul_le_nonneg;
use crate::signal::Signal;
use crate::trig::cos_fx;
use crate::trig::sin_fx;
use crate::trig::spec_cos_fx;
use crate::trig::spec_sin_fx;
use crate::AMP_SCALE;
use crate::FX_SCALE;
use crate::MAX_SIGNAL_LEN;
use crate::POINT_BOUND;
use crate::TURN_UNITS;

verus! {

/// Phase, in turn units, swept by candidate frequency `f` at sample index
/// `i` of a signal sampled at `rate`: the fractional part of `f * i / rate`
/// of a full turn, quantized to turn units.
pub open spec fn spec_phase_units(f: int, i: int, rate: int) -> int
    recommends
        rate > 0,
        0 <= f,
        0 <= i,
{
    (((f * i) % rate) * (TURN_UNITS as int)) / rate
}

/// The phase always lands inside one full turn.
pub proof fn lemma_phase_in_range(f: int, i: int, rate: int)
    requires
        rate > 0,
        0 <= f,
        0 <= i,
    ensures
        0 <= spec_phase_units(f, i, rate) < TURN_UNITS,
{
    let m = (f * i) % rate;
    assert(0 <= f * i) by (nonlinear_arith)
        requires
            0 <= f,
            0 <= i,
    {
    }
    assert(0 <= m < rate);
    assert(0 <= m * (TURN_UNITS as int)) by (nonlinear_arith)
        requires
            0 <= m,
    {
    }
    assert(m * (TURN_UNITS as int) < (TURN_UNITS as int) * rate) by (nonlinear_arith)
        requires
            0 <= m < rate,
    {
    }
    lemma_div_nonneg(m * (TURN_UNITS as int), rate);
    lemma_div_lt(m * (TURN_UNITS as int), TURN_UNITS as int, rate);
}

/// The x coordinate of the phasor point for sample amplitude `a` at index
/// `i`: the amplitude rotated by the candidate's phase, cosine component.
pub open spec fn spec_point_x(a: int, f: int, i: int, rate: int) -> int {
    a * spec_cos_fx(spec_phase_units(f, i, rate))
}

/// The y coordinate: sine component.
pub open spec fn spec_point_y(a: int, f: int, i: int, rate: int) -> int {
    a * spec_sin_fx(spec_phase_units(f, i, rate))
}

/// One phasor point: a 2D point obtained by rotating a sample amplitude by
/// the phase a candidate frequency implies at that sample's time.
#[derive(Clone, Copy, Debug, PartialEq, Eq, Structural)]
pub struct PhasorPoint {
    pub x: i64,
    pub y: i64,
}

/// Phase in turn units for candidate `f` at sample index `i`.
pub fn phase_units(f: u32, i: usize, rate: u32) -> (p: u32)
    requires
        rate > 0,
        i <= MAX_SIGNAL_LEN,
    ensures
        p == spec_phase_units(f as int, i as int, rate as int),
        p < TURN_UNITS,
{
    proof {
        lemma_mul_le_nonneg(f as int, i as int, u32::MAX as int, MAX_SIGNAL_LEN as int);
        lemma_phase_in_range(f as int, i as int, rate as int);
        let m = ((f as int) * (i as int)) % (rate as int);
        assert(m * (TURN_UNITS as int) < (TURN_UNITS as int) * rate) by (nonlinear_arith)
            requires
                0 <= m < rate,
        {
        }
    }
    let m: u64 = ((f as u64) * (i as u64)) % (rate as u64);
    let scaled: u64 = m * (TURN_UNITS as u64);
    (scaled / (rate as u64)) as u32
}

/// The phasor point of one sample for one candidate frequency.
pub fn phasor_point(a: i64, f: u32, i: usize, rate: u32) -> (pt: PhasorPoint)
    requires
        rate > 0,
        i <= MAX_SIGNAL_LEN,
        -AMP_SCALE <= a <= AMP_SCALE,
    ensures
        pt.x == spec_point_x(a as int, f as int, i as int, rate as int),
        pt.y == spec_point_y(a as int, f as int, i as int, rate as int),
        -POINT_BOUND <= pt.x <= POINT_BOUND,
        -POINT_BOUND <= pt.y <= POINT_BOUND,
{
    let p: u32 = phase_units(f, i, rate);
    let c: i64 = cos_fx(p);
    let s: i64 = sin_fx(p);
    proof {
        lemma_mul_abs_le(a as int, c as int, AMP_SCALE as int, FX_SCALE as int);
        lemma_mul_abs_le(a as int, s as int, AMP_SCALE as int, FX_SCALE as int);
    }
    PhasorPoint { x: a * c, y: a * s }
}

/// Projects a whole signal for one candidate frequency: one phasor point per
/// sample, in sample order. Pure in (signal, frequency, rate), so repeated
/// calls for the same candidate yield the same sequence.
pub fn phasor_points(sig: &Signal, f: u32) -> (pts: Vec<PhasorPoint>)
    requires
        sig.wf(),
    ensures
        pts@.len() == sig.samples@.len(),
        forall|i: int|
            0 <= i < pts@.len() ==> #[trigger] pts@[i].x == spec_point_x(
                sig.view_samples()[i],
                f as int,
                i,
                sig.sample_rate as int,
            ) && pts@[i].y == spec_point_y(
                sig.view_samples()[i],
                f as int,
                i,
                sig.sample_rate as int,
            ) && -POINT_BOUND <= pts@[i].x <= POINT_BOUND && -POINT_BOUND <= pts@[i].y
                <= POINT_BOUND,
{
    let mut pts: Vec<PhasorPoint> = Vec::new();
    let mut i: usize = 0;
    while i < sig.samples.len()
        invariant
            sig.wf(),
            i <= sig.samples@.len(),
            pts@.len() == i,
            forall|j: int|
                0 <= j < i ==> #[trigger] pts@[j].x == spec_point_x(
                    sig.view_samples()[j],
                    f as int,
                    j,
                    sig.sample_rate as int,
                ) && pts@[j].y == spec_point_y(
                    sig.view_samples()[j],
                    f as int,
                    j,
                    sig.sample_rate as int,
                ) && -POINT_BOUND <= pts@[j].x <= POINT_BOUND && -POINT_BOUND <= pts@[j].y
                    <= POINT_BOUND,
        decreases sig.samples@.len() - i,
    {
        let a: i64 = sig.samples[i];
        let pt: PhasorPoint = phasor_point(a, f, i, sig.sample_rate);
        pts.push(pt);
        i += 1;
    }
    pts
}

} // verus!
