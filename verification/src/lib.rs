//! Single-frequency-bin detector over fixed-point signals.
//!
//! Given a sampled signal, the library estimates the dominant frequency by
//! projecting the signal onto a rotating unit phasor for each candidate
//! frequency in a sweep and reporting the candidate whose centroid lies
//! farthest from the origin. All arithmetic is fixed-point: sample
//! amplitudes are scaled integers, trigonometry is a fixed-point sine, and
//! magnitudes are compared through an exact integer squared measure, so the
//! winning candidate and the tie-break are exact.

use vstd::prelude::*;

mod arith;
pub mod backend;
pub mod laws;
pub mod evaluator;
pub mod projector;
pub mod signal;
pub mod sweep;
pub mod trig;

verus! {

/// Errors surfaced by the detector.
///
/// `Load` stands for an unreadable or malformed signal source (amplitude out
/// of range, zero sample rate, oversized signal). `Domain` stands for a
/// degenerate input to the evaluator: a zero-length signal has no centroid.
/// `ComputeFault` stands for a parallel backend that failed mid-dispatch and
/// whose sequential retry also failed.
#[derive(Clone, Copy, Debug, PartialEq, Eq, Structural)]
pub enum DetectError {
    Load,
    Domain,
    ComputeFault,
}

/// One full turn of phase, in the fixed-point phase units that
/// [`trig::sin_fx`] accepts.
pub const TURN_UNITS: u32 = 65536;

/// Half a turn in phase units.
pub const HALF_TURN: u32 = 32768;

/// A quarter turn in phase units.
pub const QUARTER_TURN: u32 = 16384;

/// Fixed-point scale of trigonometric values: `sin_fx` and `cos_fx` return
/// values in `[-FX_SCALE, FX_SCALE]`, standing for reals in `[-1, 1]`.
pub const FX_SCALE: i64 = 32768;

/// Fixed-point scale of sample amplitudes: a sample `a` stands for the real
/// amplitude `a / AMP_SCALE`, so normalized amplitudes lie in
/// `[-AMP_SCALE, AMP_SCALE]`.
pub const AMP_SCALE: i64 = 32768;

/// Largest accepted signal length; keeps every accumulated sum and squared
/// measure inside the machine integer types.
pub const MAX_SIGNAL_LEN: usize = 1073741824;

/// Bound on either coordinate of a phasor point: `AMP_SCALE * FX_SCALE`.
pub const POINT_BOUND: i64 = 1073741824;

/// Frequency of the sweep candidate with index `k`: candidates start at
/// `freq_lo` and advance in steps of `freq_step`.
pub fn candidate_frequency(freq_lo: u32, freq_step: u32, k: u32) -> (f: u32)
    requires
        freq_lo + k * freq_step <= u32::MAX,
    ensures
        f == freq_lo + k * freq_step,
{
    freq_lo + k * freq_step
}

} // verus!
