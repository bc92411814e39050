//! Sampled signals in fixed-point form.
//!
//! A signal is a finite ordered sequence of fixed-point samples together
//! with its sample rate. A sample `a` stands for the real amplitude
//! `a / AMP_SCALE`; normalized signals keep every sample in
//! `[-AMP_SCALE, AMP_SCALE]`. A signal is immutable once built and is
//! borrowed read-only by every evaluator.

use vstd::prelude::*;

use crate::AMP_SCALE;
use crate::DetectError;
use crate::MAX_SIGNAL_LEN;

verus! {

/// A loaded signal: fixed-point samples plus the rate they were sampled at.
pub struct Signal {
    pub samples: Vec<i64>,
    pub sample_rate: u32,
}

impl Signal {
    /// Well-formedness: a positive sample rate, a bounded length, and every
    /// sample within the normalized amplitude range.
    pub open spec fn wf(&self) -> bool {
        &&& self.sample_rate > 0
        &&& self.samples@.len() <= MAX_SIGNAL_LEN
        &&& forall|i: int|
            0 <= i < self.samples@.len() ==> -AMP_SCALE <= #[trigger] self.samples@[i]
                <= AMP_SCALE
    }

    /// The samples as a mathematical sequence of integers.
    pub open spec fn view_samples(&self) -> Seq<int> {
        self.samples@.map(|_i: int, a: i64| a as int)
    }

    /// Builds a signal, rejecting a malformed source: a zero sample rate, an
    /// oversized sample stream, or a sample outside the normalized amplitude
    /// range all yield a load error, and nothing else does.
    pub fn new(samples: Vec<i64>, sample_rate: u32) -> (r: Result<Signal, DetectError>)
        ensures
            r is Ok <==> (sample_rate > 0 && samples@.len() <= MAX_SIGNAL_LEN && (forall|i: int|
                0 <= i < samples@.len() ==> -AMP_SCALE <= #[trigger] samples@[i] <= AMP_SCALE)),
            r matches Ok(s) ==> s.samples@ == samples@ && s.sample_rate == sample_rate && s.wf(),
            r matches Err(e) ==> e == DetectError::Load,
    {
        if sample_rate == 0 {
            return Err(DetectError::Load);
        }
        if samples.len() > MAX_SIGNAL_LEN {
            return Err(DetectError::Load);
        }
        let mut i: usize = 0;
        while i < samples.len()
            invariant
                i <= samples@.len(),
                forall|j: int| 0 <= j < i ==> -AMP_SCALE <= #[trigger] samples@[j] <= AMP_SCALE,
            decreases samples@.len() - i,
        {
            let a: i64 = samples[i];
            if a > AMP_SCALE || a < -AMP_SCALE {
                return Err(DetectError::Load);
            }
            i += 1;
        }
        Ok(Signal { samples, sample_rate })
    }
}

} // verus!
