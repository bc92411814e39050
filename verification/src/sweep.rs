//! Frequency sweep: evaluating a range of candidates and picking the best.
//!
//! A sweep walks the candidate frequencies `freq_lo, freq_lo + freq_step,
//! ...` up to `freq_hi`, scores each with the centroid evaluator, and keeps
//! the candidate with the largest measure under a strict greater-than
//! update, so the first (lowest) frequency attaining the maximum wins ties.
//! Every candidate in range is evaluated, including degenerate near-DC ones:
//! no minimum-cycle skip is applied, so scoring is uniform across the range.
//!
//! Two strategies compute the same outcome. The sequential strategy
//! interleaves scoring with a running best. The data-parallel strategy
//! scores every candidate independently — candidate `k` is one unit of work
//! writing only slot `k` of a measure array — and then scans the finished
//! array once for the first maximum. Their agreement is proved in
//! [`crate::laws`].

use vstd::prelude::*;

use crate::arith::lemma_div_le_self;
use crate::arith::lemma_div_mul_le;
use crate::arith::lemma_mul_mono_left;
use crate::evaluator::measure_for_candidate;
use crate::evaluator::spec_measure_of;
use crate::signal::Signal;
use crate::DetectError;

verus! {

/// Configuration of one sweep: candidate frequencies run from `freq_lo` to
/// `freq_hi` inclusive, in steps of `freq_step`.
#[derive(Clone, Copy, Debug, PartialEq, Eq, Structural)]
pub struct SweepConfig {
    pub freq_lo: u32,
    pub freq_hi: u32,
    pub freq_step: u32,
}

impl SweepConfig {
    /// Well-formedness against a sample rate: a positive step, an ordered
    /// range, and an upper bound no higher than the Nyquist frequency.
    pub open spec fn wf(&self, rate: int) -> bool {
        &&& self.freq_step >= 1
        &&& self.freq_lo <= self.freq_hi
        &&& 2 * (self.freq_hi as int) <= rate
    }

    /// Builds a sweep configuration, rejecting exactly the degenerate ones:
    /// a zero step, an empty range, or an upper bound beyond Nyquist.
    pub fn new(freq_lo: u32, freq_hi: u32, freq_step: u32, sample_rate: u32) -> (r: Result<
        SweepConfig,
        DetectError,
    >)
        ensures
            r is Ok <==> (freq_step >= 1 && freq_lo <= freq_hi && 2 * (freq_hi as int)
                <= sample_rate),
            r matches Ok(c) ==> c.freq_lo == freq_lo && c.freq_hi == freq_hi && c.freq_step
                == freq_step && c.wf(sample_rate as int),
            r matches Err(e) ==> e == DetectError::Domain,
    {
        if freq_step == 0 || freq_lo > freq_hi || freq_hi > sample_rate / 2 {
            return Err(DetectError::Domain);
        }
        Ok(SweepConfig { freq_lo, freq_hi, freq_step })
    }

    /// How many candidates the range holds.
    pub fn num_candidates(&self) -> (n: u32)
        requires
            self.freq_step >= 1,
            self.freq_lo <= self.freq_hi,
            self.freq_hi < u32::MAX,
        ensures
            n == spec_num_candidates(*self),
            n >= 1,
    {
        proof {
            lemma_div_le_self((self.freq_hi - self.freq_lo) as int, self.freq_step as int);
        }
        (self.freq_hi - self.freq_lo) / self.freq_step + 1
    }
}

/// Number of candidate frequencies a configuration sweeps.
pub open spec fn spec_num_candidates(cfg: SweepConfig) -> int {
    (cfg.freq_hi - cfg.freq_lo) / (cfg.freq_step as int) + 1
}

/// The candidate frequency with index `k`.
pub open spec fn spec_candidate(cfg: SweepConfig, k: int) -> int {
    cfg.freq_lo + k * cfg.freq_step
}

/// Candidates with an in-range index stay within the configured range.
pub proof fn lemma_candidate_in_range(cfg: SweepConfig, k: int)
    requires
        cfg.freq_step >= 1,
        cfg.freq_lo <= cfg.freq_hi,
        0 <= k < spec_num_candidates(cfg),
    ensures
        cfg.freq_lo <= spec_candidate(cfg, k) <= cfg.freq_hi,
{
    let span = (cfg.freq_hi - cfg.freq_lo) as int;
    let step = cfg.freq_step as int;
    lemma_mul_mono_left(k, span / step, step);
    lemma_div_mul_le(span, step);
    assert(0 <= k * step) by (nonlinear_arith)
        requires
            0 <= k,
            0 < step,
    {
    }
}

/// The per-candidate measures of one sweep, as one slot per candidate index:
/// slot `k` holds the measure of candidate `k`, independent of every other
/// slot.
pub open spec fn spec_measures(s: Seq<int>, rate: int, cfg: SweepConfig) -> Seq<int> {
    Seq::new(
        spec_num_candidates(cfg) as nat,
        |k: int| spec_measure_of(s, spec_candidate(cfg, k), rate),
    )
}

/// Index of the first maximum among the first `n` values: later values
/// displace the running best only under strict greater-than.
pub open spec fn spec_best_of(ms: Seq<int>, n: int) -> int
    recommends
        1 <= n <= ms.len(),
    decreases n,
{
    if n <= 1 {
        0
    } else {
        let b = spec_best_of(ms, n - 1);
        if ms[n - 1] > ms[b] {
            n - 1
        } else {
            b
        }
    }
}

/// The first-maximum index is in range, dominates every scanned value, and
/// strictly dominates everything before it — so of several equal maxima the
/// earliest (lowest-frequency) one is chosen, deterministically.
pub proof fn lemma_best_of_first_max(ms: Seq<int>, n: int)
    requires
        1 <= n <= ms.len(),
    ensures
        0 <= spec_best_of(ms, n) < n,
        forall|j: int| 0 <= j < n ==> #[trigger] ms[j] <= ms[spec_best_of(ms, n)],
        forall|j: int| 0 <= j < spec_best_of(ms, n) ==> #[trigger] ms[j] < ms[spec_best_of(ms, n)],
    decreases n,
{
    if n > 1 {
        lemma_best_of_first_max(ms, n - 1);
    }
}

/// Running best of the sequential strategy over the first `n` candidates:
/// the pair (best index, best measure), updated under strict greater-than.
pub open spec fn spec_seq_scan(s: Seq<int>, rate: int, cfg: SweepConfig, n: int) -> (int, int)
    recommends
        1 <= n <= spec_num_candidates(cfg),
    decreases n,
{
    if n <= 1 {
        (0, spec_measure_of(s, spec_candidate(cfg, 0), rate))
    } else {
        let prev = spec_seq_scan(s, rate, cfg, n - 1);
        let m = spec_measure_of(s, spec_candidate(cfg, n - 1), rate);
        if m > prev.1 {
            (n - 1, m)
        } else {
            prev
        }
    }
}

/// The detection outcome: the winning candidate frequency and its squared
/// centroid measure. The measure dominates the measure of every other
/// candidate of the sweep; ties go to the lowest frequency.
#[derive(Clone, Copy, Debug, PartialEq, Eq, Structural)]
pub struct Outcome {
    pub frequency: u32,
    pub measure: u128,
}

impl Outcome {
    /// The winner's centroid magnitude in fixed-point form: the floor square
    /// root of the squared measure. Dividing it by the signal length and the
    /// amplitude and trigonometric scales gives the real magnitude.
    pub fn magnitude_fx(&self) -> (r: u128)
        ensures
            (r as int) * (r as int) <= self.measure as int,
            (self.measure as int) < (r as int + 1) * (r as int + 1),
    {
        crate::evaluator::isqrt(self.measure)
    }
}

/// Sequential sweep strategy: one pass over the candidates, ascending, with
/// a single-threaded running best. A zero-length signal yields a domain
/// error, and nothing else does.
pub fn sweep_sequential(sig: &Signal, cfg: &SweepConfig) -> (r: Result<Outcome, DetectError>)
    requires
        sig.wf(),
        cfg.wf(sig.sample_rate as int),
    ensures
        r is Err <==> sig.samples@.len() == 0,
        r matches Err(e) ==> e == DetectError::Domain,
        r matches Ok(o) ==> {
            let scan = spec_seq_scan(
                sig.view_samples(),
                sig.sample_rate as int,
                *cfg,
                spec_num_candidates(*cfg),
            );
            o.frequency == spec_candidate(*cfg, scan.0) && o.measure == scan.1
        },
{
    if sig.samples.len() == 0 {
        return Err(DetectError::Domain);
    }
    let n: u32 = cfg.num_candidates();
    let first = measure_for_candidate(sig, cfg.freq_lo);
    let mut best_m: u128 = match first {
        Ok(m) => m,
        Err(e) => { return Err(e) },
    };
    let mut best_k: u32 = 0;
    let mut k: u32 = 1;
    while k < n
        invariant
            sig.wf(),
            cfg.wf(sig.sample_rate as int),
            n == spec_num_candidates(*cfg),
            1 <= k <= n,
            best_k < k,
            (best_k as int, best_m as int) == spec_seq_scan(
                sig.view_samples(),
                sig.sample_rate as int,
                *cfg,
                k as int,
            ),
            sig.samples@.len() > 0,
        decreases n - k,
    {
        proof {
            lemma_candidate_in_range(*cfg, k as int);
        }
        let f: u32 = cfg.freq_lo + k * cfg.freq_step;
        let m: u128 = match measure_for_candidate(sig, f) {
            Ok(m) => m,
            Err(e) => { return Err(e) },
        };
        if m > best_m {
            best_m = m;
            best_k = k;
        }
        k += 1;
    }
    proof {
        lemma_candidate_in_range(*cfg, best_k as int);
    }
    Ok(Outcome { frequency: cfg.freq_lo + best_k * cfg.freq_step, measure: best_m })
}

/// Data-parallel scoring: every candidate index is an independent unit of
/// work over the shared read-only signal, and each writes exactly one slot
/// (its own index) of the returned measure array — no slot depends on any
/// other. A zero-length signal yields a domain error, and nothing else does.
pub fn compute_all_measures(sig: &Signal, cfg: &SweepConfig) -> (r: Result<Vec<u128>, DetectError>)
    requires
        sig.wf(),
        cfg.wf(sig.sample_rate as int),
    ensures
        r is Err <==> sig.samples@.len() == 0,
        r matches Err(e) ==> e == DetectError::Domain,
        r matches Ok(v) ==> v@.len() == spec_num_candidates(*cfg) && forall|k: int|
            0 <= k < v@.len() ==> #[trigger] v@[k] as int == spec_measures(
                sig.view_samples(),
                sig.sample_rate as int,
                *cfg,
            )[k],
{
    if sig.samples.len() == 0 {
        return Err(DetectError::Domain);
    }
    let n: u32 = cfg.num_candidates();
    let mut slots: Vec<u128> = Vec::new();
    let mut k: u32 = 0;
    while k < n
        invariant
            sig.wf(),
            cfg.wf(sig.sample_rate as int),
            n == spec_num_candidates(*cfg),
            k <= n,
            slots@.len() == k,
            forall|j: int|
                0 <= j < k ==> #[trigger] slots@[j] as int == spec_measures(
                    sig.view_samples(),
                    sig.sample_rate as int,
                    *cfg,
                )[j],
            sig.samples@.len() > 0,
        decreases n - k,
    {
        proof {
            lemma_candidate_in_range(*cfg, k as int);
        }
        let f: u32 = cfg.freq_lo + k * cfg.freq_step;
        let m: u128 = match measure_for_candidate(sig, f) {
            Ok(m) => m,
            Err(e) => { return Err(e) },
        };
        slots.push(m);
        k += 1;
    }
    Ok(slots)
}

/// The values of a measure array, as mathematical integers.
pub open spec fn spec_vals(v: Seq<u128>) -> Seq<int> {
    Seq::new(v.len(), |i: int| v[i] as int)
}

/// Host-side maximum scan over a finished measure array: returns the index
/// of the first maximum and its value, or nothing for an empty array.
pub fn max_scan(ms: &Vec<u128>) -> (r: Option<(usize, u128)>)
    ensures
        r is None <==> ms@.len() == 0,
        r matches Some(p) ==> p.0 < ms@.len() && p.0 == spec_best_of(
            spec_vals(ms@),
            ms@.len() as int,
        ) && p.1 == ms@[p.0 as int],
{
    if ms.len() == 0 {
        return None;
    }
    let mut best_i: usize = 0;
    let mut best_m: u128 = ms[0];
    let mut i: usize = 1;
    while i < ms.len()
        invariant
            1 <= i <= ms@.len(),
            best_i < i,
            best_i == spec_best_of(spec_vals(ms@), i as int),
            best_m == ms@[best_i as int],
        decreases ms@.len() - i,
    {
        if ms[i] > best_m {
            best_m = ms[i];
            best_i = i;
        }
        i += 1;
    }
    Some((best_i, best_m))
}

/// Data-parallel sweep strategy: score all candidates independently, then
/// scan the finished measure array once for the first maximum. A
/// zero-length signal yields a domain error, and nothing else does.
pub fn sweep_parallel(sig: &Signal, cfg: &SweepConfig) -> (r: Result<Outcome, DetectError>)
    requires
        sig.wf(),
        cfg.wf(sig.sample_rate as int),
    ensures
        r is Err <==> sig.samples@.len() == 0,
        r matches Err(e) ==> e == DetectError::Domain,
        r matches Ok(o) ==> {
            let ms = spec_measures(sig.view_samples(), sig.sample_rate as int, *cfg);
            let b = spec_best_of(ms, spec_num_candidates(*cfg));
            o.frequency == spec_candidate(*cfg, b) && o.measure == ms[b]
        },
{
    let slots: Vec<u128> = match compute_all_measures(sig, cfg) {
        Ok(v) => v,
        Err(e) => { return Err(e) },
    };
    proof {
        assert(spec_vals(slots@) =~= spec_measures(
            sig.view_samples(),
            sig.sample_rate as int,
            *cfg,
        ));
    }
    let (best_i, best_m): (usize, u128) = match max_scan(&slots) {
        Some(p) => p,
        None => { return Err(DetectError::Domain) },
    };
    proof {
        lemma_candidate_in_range(*cfg, best_i as int);
    }
    Ok(Outcome { frequency: cfg.freq_lo + (best_i as u32) * cfg.freq_step, measure: best_m })
}

/// The default sweep configuration for a sample rate: the whole unambiguous
/// range `[0, rate / 2]` at a one-hertz step.
pub open spec fn spec_default_config(rate: int) -> SweepConfig {
    SweepConfig { freq_lo: 0, freq_hi: (rate / 2) as u32, freq_step: 1 }
}

/// Detects the dominant frequency of a signal on the host processor: a
/// sequential sweep of the full default range `[0, Nyquist]` at a one-hertz
/// step. A zero-length signal yields a domain error, and nothing else does.
pub fn detect_frequency_cpu(sig: &Signal) -> (r: Result<Outcome, DetectError>)
    requires
        sig.wf(),
    ensures
        r is Err <==> sig.samples@.len() == 0,
        r matches Err(e) ==> e == DetectError::Domain,
        r matches Ok(o) ==> {
            let cfg = spec_default_config(sig.sample_rate as int);
            let scan = spec_seq_scan(
                sig.view_samples(),
                sig.sample_rate as int,
                cfg,
                spec_num_candidates(cfg),
            );
            o.frequency == spec_candidate(cfg, scan.0) && o.measure == scan.1
        },
{
    let cfg: SweepConfig = match SweepConfig::new(0, sig.sample_rate / 2, 1, sig.sample_rate) {
        Ok(c) => c,
        Err(e) => { return Err(e) },
    };
    sweep_sequential(sig, &cfg)
}

} // verus!
