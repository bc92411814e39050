//! Centroid evaluation: reducing one candidate's phasor points to a scalar.
//!
//! The centroid of the phasor points is their arithmetic mean; the candidate
//! score is the centroid's distance from the origin. Because every candidate
//! of one sweep divides by the same signal length, the sweep compares
//! candidates through the exact integer *measure* `sum_x^2 + sum_y^2` of the
//! un-normalized coordinate sums: it orders candidates exactly as the real
//! centroid magnitude does, with no rounding. A zero-length point sequence
//! has no centroid and is rejected as a domain error.

use vstd::prelude::*;

use crate::arith::lemma_mul_abs_le;
use crate::arith::lemma_mul_mono_left;
use crate::projector::phasor_point;
use crate::projector::spec_point_x;
use crate::projector::spec_point_y;
use crate::projector::PhasorPoint;
use crate::signal::Signal;
use crate::DetectError;
use crate::MAX_SIGNAL_LEN;
use crate::POINT_BOUND;

verus! {

/// Sum of the x coordinates of the first `n` phasor points of the projection
/// of samples `s` for candidate `f` at sample rate `rate`.
pub open spec fn spec_sum_x(s: Seq<int>, f: int, rate: int, n: int) -> int
    decreases n,
{
    if n <= 0 {
        0
    } else {
        spec_sum_x(s, f, rate, n - 1) + spec_point_x(s[n - 1], f, n - 1, rate)
    }
}

/// Sum of the y coordinates, likewise.
pub open spec fn spec_sum_y(s: Seq<int>, f: int, rate: int, n: int) -> int
    decreases n,
{
    if n <= 0 {
        0
    } else {
        spec_sum_y(s, f, rate, n - 1) + spec_point_y(s[n - 1], f, n - 1, rate)
    }
}

/// The squared centroid measure of candidate `f` on samples `s`: the squared
/// distance of the un-normalized coordinate sums from the origin. Dividing
/// its square root by the signal length (and the fixed-point scales) gives
/// the real centroid magnitude; the measure itself already orders candidates
/// of one signal exactly as that magnitude does.
pub open spec fn spec_measure_of(s: Seq<int>, f: int, rate: int) -> int {
    let sx = spec_sum_x(s, f, rate, s.len() as int);
    let sy = spec_sum_y(s, f, rate, s.len() as int);
    sx * sx + sy * sy
}

/// Sum of the x coordinates of the first `n` points of an explicit point
/// sequence.
pub open spec fn spec_points_sum_x(pts: Seq<PhasorPoint>, n: int) -> int
    decreases n,
{
    if n <= 0 {
        0
    } else {
        spec_points_sum_x(pts, n - 1) + pts[n - 1].x
    }
}

/// Sum of the y coordinates, likewise.
pub open spec fn spec_points_sum_y(pts: Seq<PhasorPoint>, n: int) -> int
    decreases n,
{
    if n <= 0 {
        0
    } else {
        spec_points_sum_y(pts, n - 1) + pts[n - 1].y
    }
}

/// The squared centroid measure of an explicit point sequence.
pub open spec fn spec_points_measure(pts: Seq<PhasorPoint>) -> int {
    let sx = spec_points_sum_x(pts, pts.len() as int);
    let sy = spec_points_sum_y(pts, pts.len() as int);
    sx * sx + sy * sy
}

/// Every point's coordinates lie within `POINT_BOUND` in absolute value.
pub open spec fn points_bounded(pts: Seq<PhasorPoint>) -> bool {
    forall|i: int|
        0 <= i < pts.len() ==> -POINT_BOUND <= #[trigger] pts[i].x <= POINT_BOUND && -POINT_BOUND
            <= pts[i].y <= POINT_BOUND
}

/// Evaluating the projection of samples through an explicit point sequence
/// gives the same measure as the fused sample-level sums.
pub proof fn lemma_projected_sums(s: Seq<int>, pts: Seq<PhasorPoint>, f: int, rate: int, n: int)
    requires
        pts.len() == s.len(),
        0 <= n <= s.len(),
        forall|i: int|
            0 <= i < pts.len() ==> #[trigger] pts[i].x == spec_point_x(s[i], f, i, rate)
                && pts[i].y == spec_point_y(s[i], f, i, rate),
    ensures
        spec_points_sum_x(pts, n) == spec_sum_x(s, f, rate, n),
        spec_points_sum_y(pts, n) == spec_sum_y(s, f, rate, n),
    decreases n,
{
    if n > 0 {
        lemma_projected_sums(s, pts, f, rate, n - 1);
    }
}

/// The measure of a projected point sequence equals the measure computed
/// directly from the samples.
pub proof fn lemma_projected_measure(s: Seq<int>, pts: Seq<PhasorPoint>, f: int, rate: int)
    requires
        pts.len() == s.len(),
        forall|i: int|
            0 <= i < pts.len() ==> #[trigger] pts[i].x == spec_point_x(s[i], f, i, rate)
                && pts[i].y == spec_point_y(s[i], f, i, rate),
    ensures
        spec_points_measure(pts) == spec_measure_of(s, f, rate),
{
    lemma_projected_sums(s, pts, f, rate, s.len() as int);
}

/// Centroid evaluator on a point sequence. Consumes the points in one pass;
/// a zero-length sequence has no centroid and yields a domain error, and
/// nothing else does.
pub fn evaluate(pts: &Vec<PhasorPoint>) -> (r: Result<u128, DetectError>)
    requires
        pts@.len() <= MAX_SIGNAL_LEN,
        points_bounded(pts@),
    ensures
        r is Err <==> pts@.len() == 0,
        r matches Err(e) ==> e == DetectError::Domain,
        r matches Ok(m) ==> m as int == spec_points_measure(pts@),
{
    if pts.len() == 0 {
        return Err(DetectError::Domain);
    }
    let mut sum_x: i64 = 0;
    let mut sum_y: i64 = 0;
    let mut i: usize = 0;
    while i < pts.len()
        invariant
            pts@.len() <= MAX_SIGNAL_LEN,
            points_bounded(pts@),
            i <= pts@.len(),
            sum_x == spec_points_sum_x(pts@, i as int),
            sum_y == spec_points_sum_y(pts@, i as int),
            -(i as int) * (POINT_BOUND as int) <= sum_x <= (i as int) * (POINT_BOUND as int),
            -(i as int) * (POINT_BOUND as int) <= sum_y <= (i as int) * (POINT_BOUND as int),
        decreases pts@.len() - i,
    {
        proof {
            lemma_mul_mono_left(i as int + 1, MAX_SIGNAL_LEN as int, POINT_BOUND as int);
        }
        sum_x = sum_x + pts[i].x;
        sum_y = sum_y + pts[i].y;
        i += 1;
    }
    proof {
        lemma_mul_mono_left(pts@.len() as int, MAX_SIGNAL_LEN as int, POINT_BOUND as int);
    }
    Ok(measure_of_sums(sum_x, sum_y))
}

/// Squares and adds the two coordinate sums, in wide integers.
fn measure_of_sums(sum_x: i64, sum_y: i64) -> (m: u128)
    requires
        -1152921504606846976 <= sum_x <= 1152921504606846976,
        -1152921504606846976 <= sum_y <= 1152921504606846976,
    ensures
        m as int == sum_x * sum_x + sum_y * sum_y,
{
    let sx: i128 = sum_x as i128;
    let sy: i128 = sum_y as i128;
    proof {
        lemma_mul_abs_le(sx as int, sx as int, 1152921504606846976, 1152921504606846976);
        lemma_mul_abs_le(sy as int, sy as int, 1152921504606846976, 1152921504606846976);
        assert(sx * sx >= 0 && sy * sy >= 0) by (nonlinear_arith);
    }
    let m: i128 = sx * sx + sy * sy;
    m as u128
}

/// The squared centroid measure of one candidate frequency, in a single
/// fused pass over the samples: each sample is projected to its phasor point
/// and accumulated at once, with no point buffer. A zero-length signal has
/// no centroid and yields a domain error, and nothing else does.
pub fn measure_for_candidate(sig: &Signal, f: u32) -> (r: Result<u128, DetectError>)
    requires
        sig.wf(),
    ensures
        r is Err <==> sig.samples@.len() == 0,
        r matches Err(e) ==> e == DetectError::Domain,
        r matches Ok(m) ==> m as int == spec_measure_of(
            sig.view_samples(),
            f as int,
            sig.sample_rate as int,
        ),
{
    if sig.samples.len() == 0 {
        return Err(DetectError::Domain);
    }
    let mut sum_x: i64 = 0;
    let mut sum_y: i64 = 0;
    let mut i: usize = 0;
    while i < sig.samples.len()
        invariant
            sig.wf(),
            i <= sig.samples@.len(),
            sum_x == spec_sum_x(sig.view_samples(), f as int, sig.sample_rate as int, i as int),
            sum_y == spec_sum_y(sig.view_samples(), f as int, sig.sample_rate as int, i as int),
            -(i as int) * (POINT_BOUND as int) <= sum_x <= (i as int) * (POINT_BOUND as int),
            -(i as int) * (POINT_BOUND as int) <= sum_y <= (i as int) * (POINT_BOUND as int),
        decreases sig.samples@.len() - i,
    {
        proof {
            lemma_mul_mono_left(i as int + 1, MAX_SIGNAL_LEN as int, POINT_BOUND as int);
        }
        let a: i64 = sig.samples[i];
        let pt: PhasorPoint = phasor_point(a, f, i, sig.sample_rate);
        sum_x = sum_x + pt.x;
        sum_y = sum_y + pt.y;
        i += 1;
    }
    proof {
        lemma_mul_mono_left(sig.samples@.len() as int, MAX_SIGNAL_LEN as int, POINT_BOUND as int);
    }
    Ok(measure_of_sums(sum_x, sum_y))
}

/// Integer square root, the bridge from a squared centroid measure back to
/// the centroid magnitude: returns the floor of the square root of `v`.
/// The real centroid magnitude of a candidate is the square root of its
/// measure divided by the signal length and the two fixed-point scales.
pub fn isqrt(v: u128) -> (r: u128)
    ensures
        (r as int) * (r as int) <= v as int,
        (v as int) < (r as int + 1) * (r as int + 1),
{
    if v == 0 {
        return 0;
    }
    let mut lo: u128 = 1;
    let mut hi: u128 = 18446744073709551616;
    proof {
        assert((hi as int) * (hi as int) > v as int) by (nonlinear_arith)
            requires
                hi == 18446744073709551616u128,
                v <= u128::MAX,
        {
        }
    }
    while lo + 1 < hi
        invariant
            1 <= lo < hi <= 18446744073709551616,
            (lo as int) * (lo as int) <= v as int,
            (v as int) < (hi as int) * (hi as int),
        decreases hi - lo,
    {
        let mid: u128 = lo + (hi - lo) / 2;
        let q: u128 = v / mid;
        proof {
            vstd::arithmetic::div_mod::lemma_fundamental_div_mod(v as int, mid as int);
            let rem = (v as int) % (mid as int);
            if mid <= q {
                assert((mid as int) * (mid as int) <= v as int) by (nonlinear_arith)
                    requires
                        v as int == (mid as int) * (q as int) + rem,
                        0 <= rem,
                        (mid as int) <= (q as int),
                        0 < (mid as int),
                {
                }
            } else {
                assert((v as int) < (mid as int) * (mid as int)) by (nonlinear_arith)
                    requires
                        v as int == (mid as int) * (q as int) + rem,
                        rem < (mid as int),
                        (q as int) < (mid as int),
                        0 <= (q as int),
                        0 < (mid as int),
                {
                }
            }
        }
        if mid <= q {
            lo = mid;
        } else {
            hi = mid;
        }
    }
    lo
}

} // verus!
