use freq_detect::backend::resolve_dispatch;
use freq_detect::backend::workgroup_count;
use freq_detect::backend::BackendFailure;
use freq_detect::candidate_frequency;
use freq_detect::evaluator::evaluate;
use freq_detect::evaluator::isqrt;
use freq_detect::evaluator::measure_for_candidate;
use freq_detect::projector::phase_units;
use freq_detect::projector::phasor_points;
use freq_detect::signal::Signal;
use freq_detect::sweep::compute_all_measures;
use freq_detect::sweep::detect_frequency_cpu;
use freq_detect::sweep::max_scan;
use freq_detect::sweep::sweep_parallel;
use freq_detect::sweep::sweep_sequential;
use freq_detect::sweep::SweepConfig;
use freq_detect::trig::cos_fx;
use freq_detect::trig::sin_fx;
use freq_detect::DetectError;

const RATE: u32 = 4000;
const AMP: f64 = 32767.0;

fn sine_signal(freqs: &[f64], seconds: f64, rate: u32) -> Signal {
    let n = (seconds * rate as f64).round() as usize;
    let mut samples: Vec<i64> = Vec::with_capacity(n);
    let k = freqs.len() as f64;
    for i in 0..n {
        let t = i as f64 / rate as f64;
        let mut v = 0.0f64;
        for &f in freqs {
            v += (2.0 * std::f64::consts::PI * f * t).sin();
        }
        samples.push((v / k * AMP).round() as i64);
    }
    Signal::new(samples, rate).expect("well-formed signal")
}

fn measure(sig: &Signal, f: u32) -> u128 {
    measure_for_candidate(sig, f).expect("nonempty signal")
}

#[test]
fn sine_table_endpoints() {
    assert_eq!(sin_fx(0), 0);
    assert_eq!(sin_fx(16384), 32768);
    assert_eq!(sin_fx(32768), 0);
    assert_eq!(sin_fx(49152), -32768);
    assert_eq!(cos_fx(0), 32768);
    assert_eq!(cos_fx(16384), 0);
    assert_eq!(cos_fx(32768), -32768);
}

#[test]
fn sine_table_formula_value() {
    // One interior point checked against the half-wave rational form.
    let h: u64 = 8192;
    let n = h * (32768 - h);
    let expected = (16 * 32768 * n) / (5 * 32768 * 32768 - 4 * n);
    assert_eq!(sin_fx(8192), expected as i64);
    // Odd symmetry half a turn later.
    assert_eq!(sin_fx(8192 + 32768), -(expected as i64));
    // Close to the real sine of a one-eighth turn (~0.7071).
    let real = (std::f64::consts::FRAC_PI_4).sin();
    let got = sin_fx(8192) as f64 / 32768.0;
    assert!((got - real).abs() < 0.002);
}

#[test]
fn phase_units_quantization() {
    // 200 Hz at sample index 1 of a 40000 Hz stream: 200/40000 of a turn.
    assert_eq!(phase_units(200, 1, 40000), (200u64 * 65536 / 40000) as u32);
    // A full number of turns wraps to zero phase.
    assert_eq!(phase_units(200, 200, 40000), 0);
    assert_eq!(phase_units(0, 123, 40000), 0);
}

#[test]
fn candidate_frequency_mapping() {
    assert_eq!(candidate_frequency(100, 50, 0), 100);
    assert_eq!(candidate_frequency(100, 50, 3), 250);
}

#[test]
fn workgroup_partition_covers_all_items() {
    assert_eq!(workgroup_count(20000, 256), 79);
    assert_eq!(workgroup_count(512, 256), 2);
    assert_eq!(workgroup_count(1, 256), 1);
    assert_eq!(workgroup_count(0, 256), 0);
}

#[test]
fn isqrt_exact_values() {
    assert_eq!(isqrt(0), 0);
    assert_eq!(isqrt(1), 1);
    assert_eq!(isqrt(2), 1);
    assert_eq!(isqrt(16), 4);
    assert_eq!(isqrt(99), 9);
    assert_eq!(isqrt(1_000_000_000_000_000_000_000_000u128), 1_000_000_000_000);
    assert_eq!(isqrt(u128::MAX), (1u128 << 64) - 1);
}

#[test]
fn signal_rejects_malformed_sources() {
    assert_eq!(Signal::new(vec![0, 1, -1], 0).err(), Some(DetectError::Load));
    assert_eq!(Signal::new(vec![0, 40000], 4000).err(), Some(DetectError::Load));
    assert_eq!(Signal::new(vec![0, -40000], 4000).err(), Some(DetectError::Load));
    assert!(Signal::new(vec![0, 32768, -32768], 4000).is_ok());
}

#[test]
fn config_rejects_degenerate_ranges() {
    assert_eq!(SweepConfig::new(0, 100, 0, RATE), Err(DetectError::Domain));
    assert_eq!(SweepConfig::new(200, 100, 1, RATE), Err(DetectError::Domain));
    assert_eq!(SweepConfig::new(0, 2001, 1, RATE), Err(DetectError::Domain));
    assert!(SweepConfig::new(0, 2000, 1, RATE).is_ok());
}

#[test]
fn empty_signal_is_domain_error() {
    let sig = Signal::new(Vec::new(), RATE).unwrap();
    assert_eq!(measure_for_candidate(&sig, 200), Err(DetectError::Domain));
    assert_eq!(evaluate(&Vec::new()), Err(DetectError::Domain));
    let cfg = SweepConfig::new(0, 2000, 1, RATE).unwrap();
    assert_eq!(sweep_sequential(&sig, &cfg), Err(DetectError::Domain));
    assert_eq!(sweep_parallel(&sig, &cfg), Err(DetectError::Domain));
}

#[test]
fn zero_signal_has_zero_magnitude_everywhere() {
    let sig = Signal::new(vec![0; 500], RATE).unwrap();
    for f in [0u32, 1, 200, 1999] {
        assert_eq!(measure_for_candidate(&sig, f), Ok(0));
    }
}

#[test]
fn tie_break_returns_lowest_frequency() {
    // All candidates of an all-zero signal tie at measure zero; the sweep
    // must return the first candidate of the range.
    let sig = Signal::new(vec![0; 500], RATE).unwrap();
    let cfg = SweepConfig::new(100, 300, 50, RATE).unwrap();
    let seq = sweep_sequential(&sig, &cfg).unwrap();
    assert_eq!(seq.frequency, 100);
    assert_eq!(seq.measure, 0);
    let par = sweep_parallel(&sig, &cfg).unwrap();
    assert_eq!(par.frequency, 100);
}

#[test]
fn evaluator_is_scale_covariant() {
    let base: Vec<i64> = vec![100, -2500, 3000, 777, -1234, 0, 999, -40];
    let scaled: Vec<i64> = base.iter().map(|a| a * 5).collect();
    let s1 = Signal::new(base, RATE).unwrap();
    let s2 = Signal::new(scaled, RATE).unwrap();
    for f in [0u32, 3, 200, 1500] {
        assert_eq!(measure(&s2, f), 25 * measure(&s1, f));
    }
}

#[test]
fn projector_then_evaluator_matches_fused_measure() {
    let sig = sine_signal(&[200.0], 0.1, RATE);
    for f in [0u32, 150, 200, 600] {
        let pts = phasor_points(&sig, f);
        assert_eq!(evaluate(&pts), measure_for_candidate(&sig, f));
    }
}

#[test]
fn strategies_agree_exactly() {
    let sig = sine_signal(&[200.0, 600.0], 0.25, RATE);
    let cfg = SweepConfig::new(0, 2000, 1, RATE).unwrap();
    let seq = sweep_sequential(&sig, &cfg).unwrap();
    let par = sweep_parallel(&sig, &cfg).unwrap();
    assert_eq!(seq, par);
}

#[test]
fn pure_sine_sweep_finds_the_tone() {
    // One-second 200 Hz tone, full sweep of [0, Nyquist] at a 1 Hz step.
    let sig = sine_signal(&[200.0], 1.0, RATE);
    let cfg = SweepConfig::new(0, 2000, 1, RATE).unwrap();
    let best = sweep_sequential(&sig, &cfg).unwrap();
    assert!(best.frequency >= 199 && best.frequency <= 201);
    // The winner towers over off-harmonic neighbors: more than 10x in
    // magnitude, hence more than 100x in squared measure.
    let m_best = best.measure;
    for off in [150u32, 250] {
        let m_off = measure(&sig, off);
        assert!(m_best > 100 * m_off);
        assert!(best.magnitude_fx() > 10 * isqrt(m_off));
    }
    // The default full-range detector agrees.
    let default_best = detect_frequency_cpu(&sig).unwrap();
    assert_eq!(default_best.frequency, best.frequency);
    assert_eq!(default_best.measure, best.measure);
}

#[test]
fn two_tone_sweep_reports_both_peaks() {
    let sig = sine_signal(&[200.0, 600.0], 1.0, RATE);
    let cfg = SweepConfig::new(0, 2000, 1, RATE).unwrap();
    let best = sweep_sequential(&sig, &cfg).unwrap();
    // Local maxima near both tones.
    for peak in [200u32, 600] {
        let m_peak = measure(&sig, peak);
        assert!(m_peak > 100 * measure(&sig, peak - 10));
        assert!(m_peak > 100 * measure(&sig, peak + 10));
    }
    // The single winner is near one of the two tones and is verified
    // against a direct computation of every candidate's measure.
    assert!(
        (best.frequency >= 199 && best.frequency <= 201) || (best.frequency >= 599
            && best.frequency <= 601)
    );
    let all = compute_all_measures(&sig, &cfg).unwrap();
    let (direct_idx, direct_m) = max_scan(&all).unwrap();
    assert_eq!(best.frequency, direct_idx as u32);
    assert_eq!(best.measure, direct_m);
    for m in &all {
        assert!(best.measure >= *m);
    }
}

#[test]
fn dispatch_resolution_uses_complete_slots() {
    let sig = Signal::new(vec![5, -5, 5, -5], RATE).unwrap();
    let cfg = SweepConfig::new(100, 300, 50, RATE).unwrap();
    // Five slots for five candidates; first maximum wins, lowest index on a tie.
    let slots: Vec<u128> = vec![7, 9, 9, 3, 1];
    let out = resolve_dispatch(&sig, &cfg, Ok(slots)).unwrap();
    assert_eq!(out.frequency, 150);
    assert_eq!(out.measure, 9);
}

#[test]
fn dispatch_resolution_falls_back_to_sequential() {
    let sig = sine_signal(&[200.0], 0.1, RATE);
    let cfg = SweepConfig::new(150, 250, 1, RATE).unwrap();
    let seq = sweep_sequential(&sig, &cfg).unwrap();
    // Backend unavailable: recovered by the sequential strategy.
    let out = resolve_dispatch(&sig, &cfg, Err(BackendFailure::Unavailable)).unwrap();
    assert_eq!(out, seq);
    // A fault mid-dispatch: retried sequentially.
    let out = resolve_dispatch(&sig, &cfg, Err(BackendFailure::Fault)).unwrap();
    assert_eq!(out, seq);
    // A slot array of the wrong size is not trusted either.
    let out = resolve_dispatch(&sig, &cfg, Ok(vec![1, 2, 3])).unwrap();
    assert_eq!(out, seq);
}

#[test]
fn dispatch_fault_on_degenerate_signal_is_fatal() {
    let sig = Signal::new(Vec::new(), RATE).unwrap();
    let cfg = SweepConfig::new(100, 300, 50, RATE).unwrap();
    // The sequential retry after a fault fails too: the fault is surfaced.
    assert_eq!(
        resolve_dispatch(&sig, &cfg, Err(BackendFailure::Fault)),
        Err(DetectError::ComputeFault)
    );
    // Without a fault the degenerate signal is a plain domain error.
    assert_eq!(
        resolve_dispatch(&sig, &cfg, Err(BackendFailure::Unavailable)),
        Err(DetectError::Domain)
    );
    assert_eq!(resolve_dispatch(&sig, &cfg, Ok(vec![0; 5])), Err(DetectError::Domain));
}
