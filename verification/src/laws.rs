//! Library-wide laws: proved relations between the published functions.

use vstd::prelude::*;

use crate::evaluator::spec_measure_of;
use crate::evaluator::spec_sum_x;
use crate::evaluator::spec_sum_y;
use crate::projector::spec_point_x;
use crate::projector::spec_point_y;
use crate::sweep::spec_best_of;
use crate::sweep::spec_candidate;
use crate::sweep::spec_measures;
use crate::sweep::spec_num_candidates;
use crate::sweep::spec_seq_scan;
use crate::sweep::SweepConfig;

verus! {

/// The sequential and the data-parallel strategy agree exactly: the running
/// best that the sequential scan carries over the first `n` candidates is
/// the first maximum of the first `n` slots of the parallel measure array,
/// with the same measure — same winning frequency, equal magnitude.
pub proof fn lemma_strategies_agree(s: Seq<int>, rate: int, cfg: SweepConfig, n: int)
    requires
        1 <= n <= spec_num_candidates(cfg),
    ensures
        spec_seq_scan(s, rate, cfg, n).0 == spec_best_of(spec_measures(s, rate, cfg), n),
        spec_seq_scan(s, rate, cfg, n).1 == spec_measures(s, rate, cfg)[spec_best_of(
            spec_measures(s, rate, cfg),
            n,
        )],
    decreases n,
{
    if n > 1 {
        lemma_strategies_agree(s, rate, cfg, n - 1);
    }
}

/// The detection outcome invariant: the winning measure of a sweep dominates
/// the measure of every evaluated candidate, and the winning index is a real
/// candidate of the range.
pub proof fn lemma_outcome_dominates(s: Seq<int>, rate: int, cfg: SweepConfig)
    requires
        1 <= spec_num_candidates(cfg),
    ensures
        ({
            let n = spec_num_candidates(cfg);
            let scan = spec_seq_scan(s, rate, cfg, n);
            let ms = spec_measures(s, rate, cfg);
            &&& 0 <= scan.0 < n
            &&& scan.1 == ms[scan.0]
            &&& forall|k: int| 0 <= k < n ==> #[trigger] ms[k] <= scan.1
        }),
{
    let n = spec_num_candidates(cfg);
    let ms = spec_measures(s, rate, cfg);
    lemma_strategies_agree(s, rate, cfg, n);
    crate::sweep::lemma_best_of_first_max(ms, n);
}

/// Tie-break determinism: when two distinct candidates tie for the maximal
/// measure, the sweep never returns the later one. The winner's index is at
/// most the earlier tied index, and since candidate frequencies grow
/// strictly with the index, the returned frequency is at most the lower of
/// the two tied frequencies — and strictly below the higher one.
pub proof fn lemma_tie_break_lowest(s: Seq<int>, rate: int, cfg: SweepConfig, i: int, j: int)
    requires
        cfg.freq_step >= 1,
        0 <= i < j < spec_num_candidates(cfg),
        spec_measures(s, rate, cfg)[i] == spec_measures(s, rate, cfg)[j],
        forall|k: int|
            0 <= k < spec_num_candidates(cfg) ==> #[trigger] spec_measures(s, rate, cfg)[k]
                <= spec_measures(s, rate, cfg)[i],
    ensures
        ({
            let scan = spec_seq_scan(s, rate, cfg, spec_num_candidates(cfg));
            &&& scan.0 <= i
            &&& spec_candidate(cfg, scan.0) <= spec_candidate(cfg, i)
            &&& spec_candidate(cfg, i) < spec_candidate(cfg, j)
        }),
{
    let n = spec_num_candidates(cfg);
    let ms = spec_measures(s, rate, cfg);
    lemma_strategies_agree(s, rate, cfg, n);
    crate::sweep::lemma_best_of_first_max(ms, n);
    let b = spec_best_of(ms, n);
    assert(b * (cfg.freq_step as int) <= i * (cfg.freq_step as int) && i * (cfg.freq_step as int)
        < j * (cfg.freq_step as int)) by (nonlinear_arith)
        requires
            b <= i < j,
            cfg.freq_step >= 1,
    {
    }
}

/// The samples scaled by a constant factor, amplitude-wise.
pub open spec fn spec_scaled(s: Seq<int>, c: int) -> Seq<int> {
    s.map(|_i: int, a: int| c * a)
}

/// Scaling every sample by `c` scales both coordinate sums by exactly `c`.
pub proof fn lemma_sums_scale(s: Seq<int>, c: int, f: int, rate: int, n: int)
    requires
        0 <= n <= s.len(),
    ensures
        spec_sum_x(spec_scaled(s, c), f, rate, n) == c * spec_sum_x(s, f, rate, n),
        spec_sum_y(spec_scaled(s, c), f, rate, n) == c * spec_sum_y(s, f, rate, n),
    decreases n,
{
    if n <= 0 {
    } else {
        lemma_sums_scale(s, c, f, rate, n - 1);
        let a = s[n - 1];
        let t = spec_scaled(s, c);
        assert(t[n - 1] == c * a);
        let wx = crate::trig::spec_cos_fx(crate::projector::spec_phase_units(f, n - 1, rate));
        let wy = crate::trig::spec_sin_fx(crate::projector::spec_phase_units(f, n - 1, rate));
        assert(spec_point_x(c * a, f, n - 1, rate) == (c * a) * wx);
        assert(spec_point_y(c * a, f, n - 1, rate) == (c * a) * wy);
        assert((c * a) * wx == c * (a * wx) && (c * a) * wy == c * (a * wy)) by (nonlinear_arith);
        assert(c * (spec_sum_x(s, f, rate, n - 1) + a * wx) == c * spec_sum_x(s, f, rate, n - 1) + c
            * (a * wx)) by (nonlinear_arith);
        assert(c * (spec_sum_y(s, f, rate, n - 1) + a * wy) == c * spec_sum_y(s, f, rate, n - 1) + c
            * (a * wy)) by (nonlinear_arith);
    }
}

/// Scale covariance of the evaluator: scaling every sample amplitude by a
/// constant `c` scales every candidate's squared centroid measure by exactly
/// `c * c` — equivalently, the centroid magnitude (the measure's square
/// root, for nonnegative `c`) scales by exactly `c`.
pub proof fn lemma_measure_scale_covariant(s: Seq<int>, c: int, f: int, rate: int)
    ensures
        spec_measure_of(spec_scaled(s, c), f, rate) == c * c * spec_measure_of(s, f, rate),
{
    lemma_sums_scale(s, c, f, rate, s.len() as int);
    let sx = spec_sum_x(s, f, rate, s.len() as int);
    let sy = spec_sum_y(s, f, rate, s.len() as int);
    assert((c * sx) * (c * sx) + (c * sy) * (c * sy) == c * c * (sx * sx + sy * sy))
        by (nonlinear_arith);
}

/// An all-zero signal has both coordinate sums zero for every candidate.
pub proof fn lemma_zero_sums(s: Seq<int>, f: int, rate: int, n: int)
    requires
        0 <= n <= s.len(),
        forall|i: int| 0 <= i < s.len() ==> #[trigger] s[i] == 0,
    ensures
        spec_sum_x(s, f, rate, n) == 0,
        spec_sum_y(s, f, rate, n) == 0,
    decreases n,
{
    if n > 0 {
        lemma_zero_sums(s, f, rate, n - 1);
    }
}

/// An all-zero signal of any length has squared centroid measure zero for
/// every candidate frequency; with a nonzero length the evaluator therefore
/// returns magnitude zero rather than a domain error.
pub proof fn lemma_zero_signal_measure(s: Seq<int>, f: int, rate: int)
    requires
        forall|i: int| 0 <= i < s.len() ==> #[trigger] s[i] == 0,
    ensures
        spec_measure_of(s, f, rate) == 0,
{
    lemma_zero_sums(s, f, rate, s.len() as int);
}

} // verus!
