//! Behavioural tests of the punch stage, driven through the public API
//! with amplitudes written as Q16 fixed-point values.

use punch_dsp::clip::{apply_clipping, hard_clip, soft_clip_cubic, soft_clip_tanh, ClipMode};
use punch_dsp::envelope::EnvelopeFollower;
use punch_dsp::fixed::{db_to_linear, FX_ONE};
use punch_dsp::oversample::Oversampler;
use punch_dsp::punch::{OversamplingFactor, PunchModule};
use punch_dsp::shape::apply_transient_shaping;
use punch_dsp::transient::TransientDetector;

/// A real value as Q16 fixed point.
fn fx(x: f64) -> i64 {
    (x * 65536.0).round() as i64
}

/// A Q16 fixed-point value as a real value.
fn fl(x: i64) -> f64 {
    x as f64 / 65536.0
}

#[test]
fn test_hard_clip_basic() {
    // Signal below threshold - should pass through
    assert!((fl(hard_clip(fx(0.5), fx(1.0))) - 0.5).abs() < 0.0001);

    // Signal at threshold - should pass through
    assert!((fl(hard_clip(fx(1.0), fx(1.0))) - 1.0).abs() < 0.0001);

    // Signal above threshold - should clip
    assert!((fl(hard_clip(fx(1.5), fx(1.0))) - 1.0).abs() < 0.0001);

    // Negative signal
    assert!((fl(hard_clip(fx(-1.5), fx(1.0))) - (-1.0)).abs() < 0.0001);
}

#[test]
fn test_soft_clip_tanh() {
    // Below threshold should pass through
    let result = soft_clip_tanh(fx(0.3), fx(1.0), fx(0.5));
    assert!((fl(result) - 0.3).abs() < 0.01);

    // Above threshold should be reduced but not hard clipped
    let result = soft_clip_tanh(fx(1.5), fx(1.0), fx(0.5));
    assert!(fl(result) < 1.5); // Should be reduced
    assert!(fl(result) > 0.8); // But not too much
}

#[test]
fn test_soft_clip_cubic() {
    // Below knee should pass through
    let result = soft_clip_cubic(fx(0.3), fx(1.0), fx(0.5));
    assert!((fl(result) - 0.3).abs() < 0.01);

    // In knee region should be smoothly limited
    let result = soft_clip_cubic(fx(1.2), fx(1.0), fx(0.5));
    assert!(fl(result) <= 1.0);
}

#[test]
fn test_envelope_follower() {
    let mut env = EnvelopeFollower::new(fx(44100.0), fx(1.0), fx(100.0));

    // Initial state should be 0
    assert!(fl(env.envelope) < 0.0001);

    // Process a step input
    for _ in 0..100 {
        env.process(fx(1.0));
    }

    // Envelope should have risen
    assert!(fl(env.envelope) > 0.5);
}

#[test]
fn test_transient_detector() {
    let mut detector = TransientDetector::new(fx(44100.0));

    // Process silence
    for _ in 0..100 {
        detector.process(0);
    }

    // Sharp transient should trigger detection
    let transient = detector.process(fx(1.0));

    // Continue with the transient - the peak detection comes shortly after
    let mut max_transient = transient;
    for _ in 0..50 {
        let t = detector.process(fx(1.0));
        max_transient = max_transient.max(t);
    }

    // max_transient should be positive (transient was detected)
    assert!(max_transient > 0, "Transient should be detected");

    // Now process much longer sustained signal - detector should settle
    for _ in 0..2000 {
        detector.process(fx(1.0));
    }
    let sustained = detector.process(fx(1.0));

    // After long sustained signal, transient activity should be very low
    // because fast and slow envelopes have converged
    assert!(sustained < max_transient, "Sustained should be less than peak transient");
}

#[test]
fn test_db_conversion() {
    // 0dB should be 1.0
    assert!((fl(db_to_linear(0)) - 1.0).abs() < 0.0001);

    // -6dB should be ~0.5
    assert!((fl(db_to_linear(fx(-6.0))) - 0.501).abs() < 0.01);

    // +6dB should be ~2.0
    assert!((fl(db_to_linear(fx(6.0))) - 1.995).abs() < 0.01);
}

#[test]
fn test_punch_module_creation() {
    let punch = PunchModule::new(fx(44100.0));
    assert!((fl(punch.params.clip_threshold) - 0.891).abs() < 0.01); // -1dB
    assert_eq!(punch.params.clip_mode, ClipMode::Hard);
}

#[test]
fn test_punch_module_update_parameters() {
    let mut punch = PunchModule::new(fx(44100.0));

    punch.update_parameters(
        fx(-3.0),                // threshold
        ClipMode::Soft,          // mode
        fx(0.5),                 // softness
        OversamplingFactor::X4,  // oversampling
        fx(0.5),                 // attack
        fx(-0.2),                // sustain
        fx(10.0),                // attack_time
        fx(200.0),               // release_time
        fx(0.7),                 // sensitivity
        0,                       // input gain
        0,                       // output gain
        fx(1.0),                 // mix
    );

    assert_eq!(punch.params.clip_mode, ClipMode::Soft);
    assert!((fl(punch.params.softness) - 0.5).abs() < 0.001);
    assert!((fl(punch.params.attack) - 0.5).abs() < 0.001);
}

#[test]
fn test_oversampler_factor_1() {
    let mut os = Oversampler::new(16, 1024);
    os.set_factor(1);

    let input = fx(0.5);
    let upsampled = os.upsample(input, 0);
    assert_eq!(upsampled.len(), 1);
    assert!((fl(upsampled[0]) - fl(input)).abs() < 0.001);

    // Copy values before calling downsample to avoid borrow conflict
    let upsampled_copy: Vec<i64> = upsampled.to_vec();
    let result = os.downsample(&upsampled_copy, 0);
    assert!((fl(result) - fl(input)).abs() < 0.001);
}

#[test]
fn test_oversampler_factor_4() {
    let mut os = Oversampler::new(16, 1024);
    os.set_factor(4);

    let input = fx(1.0);
    let upsampled = os.upsample(input, 1); // idx 1 to test interpolation
    assert_eq!(upsampled.len(), 4);

    // All values should be reasonable
    for &val in upsampled.iter() {
        assert!(fl(val).abs() <= 1.5);
    }
}

#[test]
fn hard_clip_is_exact_at_the_band_edges() {
    // Inside the band the input comes back bit for bit.
    assert_eq!(hard_clip(fx(0.891), fx(0.891)), fx(0.891));
    assert_eq!(hard_clip(fx(-0.891), fx(0.891)), fx(-0.891));
    assert_eq!(hard_clip(0, fx(0.891)), 0);
    // Outside it the signed threshold comes back exactly.
    assert_eq!(hard_clip(fx(2.0), fx(0.891)), fx(0.891));
    assert_eq!(hard_clip(fx(-2.0), fx(0.891)), fx(-0.891));
}

#[test]
fn cubic_clip_is_monotone_for_rising_inputs() {
    let threshold = fx(0.9);
    let softness = fx(0.7);
    let mut prev = soft_clip_cubic(0, threshold, softness);
    let mut x: i64 = 0;
    while x <= fx(3.0) {
        let y = soft_clip_cubic(x, threshold, softness);
        assert!(y >= prev, "cubic curve fell between {} and {}", x - fx(0.01), x);
        prev = y;
        x += fx(0.01);
    }
}

#[test]
fn envelope_rises_monotonically_and_converges_on_a_constant_input() {
    let mut env = EnvelopeFollower::new(fx(44100.0), fx(1.0), fx(100.0));
    let mut prev: i64 = env.envelope;
    for _ in 0..20000 {
        let e = env.process(fx(1.0));
        assert!(e >= prev, "envelope fell while the input held");
        assert!(e <= fx(1.0), "envelope overshot the input level");
        prev = e;
    }
    assert!((fl(prev) - 1.0).abs() < 0.001, "envelope did not converge: {}", fl(prev));
}

#[test]
fn zero_db_is_exactly_unity_and_minus_three_db_matches() {
    assert_eq!(db_to_linear(0), FX_ONE);
    assert!((fl(db_to_linear(fx(-3.0))) - 0.708).abs() < 0.01);
    assert!((fl(db_to_linear(fx(-1.0))) - 0.891).abs() < 0.01);
}

#[test]
fn update_parameters_clamps_out_of_range_fields() {
    let mut punch = PunchModule::new(fx(44100.0));
    punch.update_parameters(
        fx(10000.0),            // clamped to +24 dB
        ClipMode::Cubic,
        fx(7.0),                // clamped to 1.0
        OversamplingFactor::X1,
        fx(-9.0),               // clamped to -1.0
        fx(9.0),                // clamped to +1.0
        fx(0.0),                // clamped to 0.1 ms
        fx(100000.0),           // clamped to 500 ms
        fx(-3.0),               // clamped to 0.0
        fx(-10000.0),           // clamped to -96 dB
        0,
        fx(2.0),                // clamped to 1.0
    );
    assert!((fl(punch.params.clip_threshold) - 15.849).abs() < 0.05);
    assert_eq!(punch.params.softness, FX_ONE);
    assert_eq!(punch.params.attack, -FX_ONE);
    assert_eq!(punch.params.sustain, FX_ONE);
    assert_eq!(punch.params.attack_time_ms, fx(0.1));
    assert_eq!(punch.params.release_time_ms, fx(500.0));
    assert_eq!(punch.params.sensitivity, 0);
    assert!(punch.params.input_gain >= 1);
    assert!(fl(punch.params.input_gain) < 0.0001);
    assert_eq!(punch.params.output_gain, FX_ONE);
    assert_eq!(punch.params.mix, FX_ONE);
}

#[test]
fn hard_mode_with_inaudible_softness_is_a_pure_hard_clip() {
    // The blend threshold is a strict greater-than: softness exactly at
    // the boundary still selects the pure hard curve.
    let at_boundary = apply_clipping(fx(1.4), fx(1.0), 655, ClipMode::Hard);
    assert_eq!(at_boundary, hard_clip(fx(1.4), fx(1.0)));
    // Just above it the tanh curve is blended in and the result moves.
    let above = apply_clipping(fx(1.4), fx(1.0), 656, ClipMode::Hard);
    assert!(above != at_boundary);
}

#[test]
fn shaping_without_transient_or_gains_passes_the_sample_through() {
    // No transient detected and neutral gains: the clipped sample comes
    // back exactly.
    assert_eq!(apply_transient_shaping(fx(0.5), 0, 0, 0), fx(0.5));
    // A transient with a positive attack gain boosts the sample.
    let boosted = apply_transient_shaping(fx(0.5), FX_ONE, FX_ONE, 0);
    assert!(boosted > fx(0.5));
    // A transient with a negative attack gain cuts it.
    let cut = apply_transient_shaping(fx(0.5), FX_ONE, -FX_ONE, 0);
    assert!(cut < fx(0.5));
}

#[test]
fn silence_in_is_silence_out_and_the_meters_decay() {
    let mut punch = PunchModule::new(fx(44100.0));
    let mut left = vec![0i64; 512];
    let mut right = vec![0i64; 512];
    punch.process(&mut left, &mut right);
    assert!(left.iter().all(|&v| v == 0), "left channel left silence");
    assert!(right.iter().all(|&v| v == 0), "right channel left silence");

    // Drive the meters up with a loud block, then feed silence and watch
    // both decay toward zero.
    let mut loud_l = vec![fx(1.0); 512];
    let mut loud_r = vec![fx(1.0); 512];
    punch.process(&mut loud_l, &mut loud_r);
    let gr0 = punch.get_gain_reduction();
    let tr0 = punch.get_transient_activity();
    assert!(tr0 > 0, "a full-scale step should register transient activity");
    let mut gr_prev = gr0;
    let mut tr_prev = tr0;
    for _ in 0..40 {
        let mut l = vec![0i64; 512];
        let mut r = vec![0i64; 512];
        punch.process(&mut l, &mut r);
        assert!(punch.get_gain_reduction() <= gr_prev);
        assert!(punch.get_transient_activity() <= tr_prev);
        gr_prev = punch.get_gain_reduction();
        tr_prev = punch.get_transient_activity();
    }
    assert!(fl(gr_prev) < 0.05 * fl(gr0).max(0.001), "gain-reduction meter did not decay");
    assert!(fl(tr_prev) < 0.05 * fl(tr0), "transient meter did not decay");
}

#[test]
fn a_step_edge_peaks_above_its_sustained_level_with_full_attack() {
    let mut punch = PunchModule::new(fx(44100.0));
    punch.update_parameters(
        0,                       // threshold at 0 dBFS
        ClipMode::Hard,
        0,                       // no softness
        OversamplingFactor::X4,
        fx(1.0),                 // full attack boost
        0,                       // neutral sustain
        fx(5.0),
        fx(100.0),
        fx(0.5),
        0,
        0,
        fx(1.0),                 // fully wet
    );

    // A tenth of a second of silence settles the detectors.
    for _ in 0..5 {
        let mut l = vec![0i64; 1024];
        let mut r = vec![0i64; 1024];
        punch.process(&mut l, &mut r);
    }

    // Then a sustained full-scale step: 4096 samples is about 93 ms at
    // 44.1 kHz, well past the 50 ms the sustained level needs to settle.
    let mut l = vec![fx(1.0); 4096];
    let mut r = vec![fx(1.0); 4096];
    punch.process(&mut l, &mut r);

    let edge_peak = l[..441].iter().copied().max().unwrap();
    let sustained = l[4095];
    assert!(
        edge_peak > sustained,
        "edge peak {} did not exceed sustained level {}",
        fl(edge_peak),
        fl(sustained)
    );
}

#[test]
fn smoothing_coefficients_match_the_exponential_formula() {
    // coeff = e^(-1 / (t_ms * 0.001 * rate))
    for &(t, rate) in [(1.0f64, 44100.0f64), (5.0, 48000.0), (100.0, 44100.0), (0.5, 96000.0)]
        .iter()
    {
        let want = (-1.0 / (t * 0.001 * rate)).exp();
        let got = fl(punch_dsp::envelope::time_to_coeff(fx(t), fx(rate)));
        assert!((got - want).abs() < 0.001, "coeff({t} ms, {rate} Hz) = {got}, want {want}");
    }
    // Non-positive times pin the coefficient at one.
    assert_eq!(punch_dsp::envelope::time_to_coeff(0, fx(44100.0)), FX_ONE);
}

#[test]
fn the_tanh_curve_matches_its_normalized_formula() {
    // Above the knee: tanh((x/T) * drive) / tanh(drive) * T.
    let x = 1.5f64;
    let drive = 1.0 + 0.5 * 2.0;
    let want = (x * drive).tanh() / drive.tanh();
    let got = fl(soft_clip_tanh(fx(x), fx(1.0), fx(0.5)));
    assert!((got - want).abs() < 0.01, "tanh curve gave {got}, want {want}");
}

#[test]
fn oversampler_reset_clears_the_filter_history() {
    let mut os = Oversampler::new(16, 64);
    os.set_factor(4);
    let taps = os.upsample(fx(1.0), 0);
    let out = os.downsample(&taps, 0);
    assert!(out != 0);
    os.reset();
    assert_eq!(os.filter_state, 0);
    assert!(os.downsample_buffer.iter().all(|&v| v == 0));
}

#[test]
fn reset_clears_every_channel_and_meter() {
    let mut punch = PunchModule::new(fx(44100.0));
    let mut l = vec![fx(1.0); 256];
    let mut r = vec![fx(-1.0); 256];
    punch.process(&mut l, &mut r);
    punch.reset();
    assert_eq!(punch.get_gain_reduction(), 0);
    assert_eq!(punch.get_transient_activity(), 0);
    assert_eq!(punch.left.smooth, 0);
    assert_eq!(punch.right.smooth, 0);
    assert_eq!(punch.left.detector.smoothed_transient, 0);
    assert_eq!(punch.left.oversampler.filter_state, 0);
    // A silent block after the reset stays silent.
    let mut l2 = vec![0i64; 256];
    let mut r2 = vec![0i64; 256];
    punch.process(&mut l2, &mut r2);
    assert!(l2.iter().all(|&v| v == 0));
    assert!(r2.iter().all(|&v| v == 0));
}

#[test]
fn factor_one_round_trip_is_the_identity_even_with_history() {
    let mut os = Oversampler::new(16, 32);
    os.set_factor(4);
    // Leave some history in the filter state.
    let taps = os.upsample(fx(0.8), 0);
    os.downsample(&taps, 0);
    os.set_factor(1);
    for (i, &x) in [fx(0.25), fx(-0.75), 0, fx(1.5)].iter().enumerate() {
        let up = os.upsample(x, i);
        let back = os.downsample(&up.to_vec(), i);
        assert_eq!(back, x);
    }
}

#[test]
fn upsample_tap_counts_follow_the_factor() {
    let mut os = Oversampler::new(16, 32);
    for &(f, n) in [(1usize, 1usize), (4, 4), (8, 8), (16, 16)].iter() {
        os.set_factor(f);
        assert_eq!(os.upsample(fx(0.5), 3).len(), n);
    }
}
