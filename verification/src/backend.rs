//! Host-side half of the parallel dispatch: partitioning, read-back
//! resolution, and failure recovery.
//!
//! An external parallel backend (one lightweight worker per candidate index,
//! sharing the signal read-only and each writing only its own output slot)
//! runs outside this library. What the host decides afterwards is verified
//! here: how many workgroups cover the candidate range, and what to do with
//! the read-back — scan a complete slot array for its first maximum, fall
//! back to the sequential strategy when the backend is unavailable or its
//! result is unusable, and surface a compute fault only when that sequential
//! retry fails too.

use vstd::prelude::*;

use crate::arith::lemma_div_le_self;
use crate::signal::Signal;
use crate::sweep::lemma_candidate_in_range;
use crate::sweep::max_scan;
use crate::sweep::spec_best_of;
use crate::sweep::spec_candidate;
use crate::sweep::spec_num_candidates;
use crate::sweep::spec_seq_scan;
use crate::sweep::spec_vals;
use crate::sweep::sweep_sequential;
use crate::sweep::Outcome;
use crate::sweep::SweepConfig;
use crate::DetectError;

verus! {

/// How a parallel backend run can fail: no capable backend was present at
/// all, or the backend reported a fault mid-dispatch, leaving no trustable
/// partial results.
#[derive(Clone, Copy, Debug, PartialEq, Eq, Structural)]
pub enum BackendFailure {
    Unavailable,
    Fault,
}

/// Number of fixed-size workgroups needed to cover `n` work items: the
/// ceiling of `n / group_size`, so every candidate index gets a worker.
pub fn workgroup_count(n: u32, group_size: u32) -> (r: u32)
    requires
        group_size >= 1,
    ensures
        r == (n + group_size - 1) as int / group_size as int,
        (r as int) * (group_size as int) >= n,
{
    proof {
        lemma_div_le_self(n as int, group_size as int);
        vstd::arithmetic::div_mod::lemma_fundamental_div_mod(n as int, group_size as int);
        let g = group_size as int;
        let q = n as int / g;
        let m = n as int % g;
        if m == 0 {
            assert((n as int + g - 1) / g == q) by (nonlinear_arith)
                requires
                    n as int == q * g,
                    0 < g,
                    0 <= q,
            {
            }
        } else {
            assert((n as int + g - 1) / g == q + 1) by (nonlinear_arith)
                requires
                    n as int == q * g + m,
                    0 < m < g,
                    0 <= q,
            {
            }
            assert((q + 1) * g >= n) by (nonlinear_arith)
                requires
                    n as int == q * g + m,
                    0 < m < g,
            {
            }
            assert(q < n as int) by (nonlinear_arith)
                requires
                    n as int == q * g + m,
                    0 < m < g,
                    0 <= q,
            {
            }
        }
    }
    let q: u32 = n / group_size;
    if n % group_size == 0 {
        q
    } else {
        q + 1
    }
}

/// Resolves one parallel dispatch. `backend` is what the external run
/// produced: a read-back slot array, or a failure. A complete slot array
/// (one slot per candidate) is scanned for its first maximum; an incomplete
/// array or a failed run falls back to the sequential strategy. A
/// zero-length signal is a domain error — except after a mid-dispatch fault,
/// whose sequential retry then fails too and the fault is surfaced as fatal.
pub fn resolve_dispatch(
    sig: &Signal,
    cfg: &SweepConfig,
    backend: Result<Vec<u128>, BackendFailure>,
) -> (r: Result<Outcome, DetectError>)
    requires
        sig.wf(),
        cfg.wf(sig.sample_rate as int),
    ensures
        sig.samples@.len() == 0 ==> r == Err::<Outcome, DetectError>(
            if backend == Result::<Vec<u128>, BackendFailure>::Err(BackendFailure::Fault) {
                DetectError::ComputeFault
            } else {
                DetectError::Domain
            },
        ),
        sig.samples@.len() > 0 ==> r is Ok,
        sig.samples@.len() > 0 ==> (backend matches Ok(slots) ==> (slots@.len()
            == spec_num_candidates(*cfg) ==> (r matches Ok(o) && {
            let b = spec_best_of(spec_vals(slots@), slots@.len() as int);
            o.frequency == spec_candidate(*cfg, b) && o.measure == spec_vals(slots@)[b]
        }))),
        sig.samples@.len() > 0 ==> (backend matches Ok(slots) ==> (slots@.len()
            != spec_num_candidates(*cfg) ==> (r matches Ok(o) && {
            let scan = spec_seq_scan(
                sig.view_samples(),
                sig.sample_rate as int,
                *cfg,
                spec_num_candidates(*cfg),
            );
            o.frequency == spec_candidate(*cfg, scan.0) && o.measure == scan.1
        }))),
        sig.samples@.len() > 0 ==> (backend is Err ==> (r matches Ok(o) && {
            let scan = spec_seq_scan(
                sig.view_samples(),
                sig.sample_rate as int,
                *cfg,
                spec_num_candidates(*cfg),
            );
            o.frequency == spec_candidate(*cfg, scan.0) && o.measure == scan.1
        })),
{
    if sig.samples.len() == 0 {
        return match backend {
            Err(BackendFailure::Fault) => Err(DetectError::ComputeFault),
            _ => Err(DetectError::Domain),
        };
    }
    match backend {
        Ok(slots) => {
            let n: u32 = cfg.num_candidates();
            if slots.len() == n as usize {
                match max_scan(&slots) {
                    Some((best_i, best_m)) => {
                        proof {
                            lemma_candidate_in_range(*cfg, best_i as int);
                        }
                        Ok(
                            Outcome {
                                frequency: cfg.freq_lo + (best_i as u32) * cfg.freq_step,
                                measure: best_m,
                            },
                        )
                    },
                    None => Err(DetectError::Domain),
                }
            } else {
                sweep_sequential(sig, cfg)
            }
        },
        Err(_) => sweep_sequential(sig, cfg),
    }
}

} // verus!
