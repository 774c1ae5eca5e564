use subsynth::filter::{
    FilterBank, FilterType, LowpassFilter, NotchFilter, StatevariableFilter, DCBlocker,
};
use subsynth::fixed::{fp_add, fp_clamp, fp_div, fp_mul, isqrt, FP_HALF, FP_SCALE, SIG_MAX};
use subsynth::modulator::{Modulator, OscillatorShape};
use subsynth::smoother::Smoother;
use subsynth::util::{midi_note_to_freq, note_phase_delta, permit_alloc};
use subsynth::voice::pan_gains;
use subsynth::waveform::{clip, fp_sin, generate_waveform, poly_blep, Waveform};

#[test]
fn fixed_point_arithmetic_basics() {
    assert_eq!(fp_mul(FP_SCALE, FP_SCALE), FP_SCALE);
    assert_eq!(fp_mul(FP_HALF, FP_HALF), FP_SCALE / 4);
    assert_eq!(fp_mul(-FP_HALF, FP_SCALE), -FP_HALF);
    assert_eq!(fp_div(FP_SCALE, 2 * FP_SCALE), FP_HALF);
    assert_eq!(fp_add(SIG_MAX, SIG_MAX), SIG_MAX);
    assert_eq!(fp_clamp(SIG_MAX + 5), SIG_MAX);
    assert_eq!(isqrt(4294967296), 65536);
    assert_eq!(isqrt(2147483648), 46340);
    assert_eq!(isqrt(0), 0);
}

#[test]
fn pan_gains_satisfy_equal_power_law() {
    // Hard left: all signal on the left channel.
    assert_eq!(pan_gains(0), (FP_SCALE, 0));
    // Hard right.
    assert_eq!(pan_gains(FP_SCALE), (0, FP_SCALE));
    // For every pan position the squared gains sum to one within the
    // quantization slack of the two integer square roots.
    for pan in [0i64, 1, 100, 16384, 32768, 50000, 65535, 65536] {
        let (l, r) = pan_gains(pan);
        let sum = (l as u64) * (l as u64) + (r as u64) * (r as u64);
        let unit = (FP_SCALE as u64) * (FP_SCALE as u64);
        assert!(sum <= unit);
        assert!(sum >= unit - 2 * ((l as u64) + (r as u64)));
    }
}

#[test]
fn sine_hits_exact_quarter_points() {
    assert_eq!(fp_sin(0), 0);
    assert_eq!(fp_sin(16384), FP_SCALE);
    assert_eq!(fp_sin(32768), 0);
    assert_eq!(fp_sin(49152), -FP_SCALE);
}

#[test]
fn waveform_shapes_yield_expected_samples() {
    assert_eq!(generate_waveform(Waveform::Sawtooth, 0, 0), -FP_SCALE);
    assert_eq!(generate_waveform(Waveform::Sawtooth, 32768, 0), 0);
    assert_eq!(generate_waveform(Waveform::Square, 0, 0), FP_SCALE);
    assert_eq!(generate_waveform(Waveform::Square, 40000, 0), -FP_SCALE);
    assert_eq!(generate_waveform(Waveform::Pulse, 0, 0), FP_SCALE);
    assert_eq!(generate_waveform(Waveform::Pulse, 32768, 0), -FP_SCALE);
    assert_eq!(generate_waveform(Waveform::Pulse, 60000, 0), FP_SCALE);
    assert_eq!(generate_waveform(Waveform::Triangle, 0, 0), FP_SCALE);
    assert_eq!(generate_waveform(Waveform::Triangle, 32768, 0), -FP_SCALE);
    // A noise sample is a pure function of the generator bits and stays in
    // range.
    for bits in [0u32, 1, 65536, 131072, 4294967295] {
        let n = generate_waveform(Waveform::Noise, 0, bits);
        assert!(n >= -FP_SCALE && n <= FP_SCALE);
        assert_eq!(n, generate_waveform(Waveform::Noise, 12345, bits));
    }
    assert_eq!(generate_waveform(Waveform::Noise, 0, 0), -FP_SCALE);
}

#[test]
fn poly_blep_cancels_the_sawtooth_wrap_jump() {
    let dt = 655i64;
    // At the very start of the cycle the correction equals the sawtooth's
    // starting value, so the corrected waveform starts at zero...
    assert_eq!(poly_blep(0, dt), -FP_SCALE);
    let corrected_start = generate_waveform(Waveform::Sawtooth, 0, 0) - poly_blep(0, dt);
    assert_eq!(corrected_start, 0);
    // ...and just before the wrap the corrected waveform has come back to
    // nearly zero: the two ends of the cycle meet.
    let t = FP_SCALE - 1;
    let corrected_end = generate_waveform(Waveform::Sawtooth, t, 0) - poly_blep(t, dt);
    assert!(corrected_end.abs() <= 2 * FP_SCALE / dt + 2);
    // The correction vanishes at the edges of its window, joining the
    // uncorrected middle of the cycle continuously.
    assert_eq!(poly_blep(dt, dt), 0);
    assert_eq!(poly_blep(FP_SCALE - dt, dt), 0);
    // No correction without a phase increment.
    assert_eq!(poly_blep(123, 0), 0);
}

#[test]
fn clip_limits_magnitude() {
    assert_eq!(clip(100, 50), 50);
    assert_eq!(clip(-100, 50), -50);
    assert_eq!(clip(30, 50), 30);
}

#[test]
fn filter_coefficients_recomputed_at_most_once_when_cutoff_constant() {
    // 1000 samples at a constant cutoff: the cached coefficient never
    // changes after construction.
    let mut f = LowpassFilter::new(1000, FP_HALF, 48000);
    let c0 = f.c;
    let cut0 = f.cutoff;
    for _ in 0..1000 {
        f.set_cutoff(1000);
        f.set_resonance(FP_HALF);
        f.process(FP_SCALE / 10);
    }
    assert_eq!(f.c, c0);
    assert_eq!(f.cutoff, cut0);
    // A move within epsilon is ignored too.
    f.set_cutoff(1001);
    assert_eq!(f.c, c0);
    // A real change recomputes.
    f.set_cutoff(1200);
    assert_ne!(f.cutoff, cut0);
    let sv = StatevariableFilter::new(1000, FP_HALF, 48000);
    let f0 = sv.f;
    let mut sv2 = sv;
    for _ in 0..1000 {
        sv2.set_cutoff(1000);
        sv2.process(FP_SCALE / 10);
    }
    assert_eq!(sv2.f, f0);
    let mut n = NotchFilter::new(2000, FP_HALF, 48000);
    let coeffs0 = (n.a0, n.a1, n.a2, n.b1, n.b2);
    for _ in 0..1000 {
        n.set_cutoff(2000);
        n.set_resonance(FP_HALF);
        n.process(FP_SCALE / 10);
    }
    assert_eq!((n.a0, n.a1, n.a2, n.b1, n.b2), coeffs0);
}

#[test]
fn lowpass_follows_its_recurrence() {
    let mut f = LowpassFilter::new(1000, FP_HALF, 48000);
    let c = f.c;
    let x = FP_SCALE / 4;
    let y1 = f.process(x);
    // out = c * in + res * prev, with prev starting at 0.
    assert_eq!(y1, fp_mul(c, x));
    let y2 = f.process(x);
    assert_eq!(y2, fp_add(fp_mul(c, x), fp_mul(FP_HALF, y1)));
}

#[test]
fn bypass_filter_passes_input_through() {
    let mut bank = FilterBank::new(1000, FP_HALF, 48000);
    let x = 12345i64;
    let y = subsynth::filter::generate_filter(
        FilterType::Bypass,
        1000,
        FP_HALF,
        FP_SCALE,
        FP_SCALE,
        x,
        48000,
        &mut bank,
    );
    assert_eq!(y, x);
}

#[test]
fn dc_blocker_follows_its_recurrence() {
    let mut dc = DCBlocker::new();
    let x = FP_SCALE;
    let y1 = dc.process(x);
    assert_eq!(y1, FP_SCALE);
    let y2 = dc.process(x);
    // y = x - x1 + r * y1 with the fixed pole 0.995.
    assert_eq!(y2, fp_mul(65208, y1));
}

#[test]
fn modulator_square_at_half_turn_per_sample() {
    // 2 Hz at 4 samples per second: half a turn per sample.
    let mut m = Modulator::new(2 * FP_SCALE, FP_SCALE, 0, OscillatorShape::Square);
    assert_eq!(m.get_modulation(4), -FP_SCALE);
    assert_eq!(m.get_modulation(4), FP_SCALE);
    assert_eq!(m.get_modulation(4), -FP_SCALE);
}

#[test]
fn modulator_intensity_ramps_over_attack() {
    // A square LFO far slower than the sample rate stays on its positive
    // half; the ramp scales the peak linearly over the attack.
    let mut m = Modulator::new(FP_SCALE, FP_SCALE, 10, OscillatorShape::Square);
    let first = m.get_modulation(48000);
    assert_eq!(first, FP_SCALE / 10);
    let second = m.get_modulation(48000);
    assert_eq!(second, FP_SCALE * 2 / 10);
    for _ in 0..20 {
        m.get_modulation(48000);
    }
    assert_eq!(m.get_modulation(48000), FP_SCALE);
}

#[test]
fn smoother_ramps_linearly_to_target() {
    let mut s = Smoother::constant(100);
    assert_eq!(s.current(), 100);
    s.set_target(4, 200);
    assert_eq!(s.next(), 125);
    assert_eq!(s.next(), 150);
    assert_eq!(s.next(), 175);
    assert_eq!(s.next(), 200);
    assert_eq!(s.next(), 200);
    s.reset(-50);
    assert_eq!(s.current(), -50);
}

#[test]
fn smoother_next_block_fills_consecutive_values() {
    let mut s = Smoother::constant(0);
    s.set_target(4, 400);
    let mut buf = vec![0i64; 6];
    s.next_block(&mut buf, 6);
    assert_eq!(buf, vec![100, 200, 300, 400, 400, 400]);
}

#[test]
fn midi_note_frequencies_match_equal_temperament() {
    // A4 = 440 Hz exactly.
    assert_eq!(midi_note_to_freq(69), 440 * FP_SCALE);
    // Middle C (note 60) is about 261.63 Hz.
    let c4 = midi_note_to_freq(60) as f64 / FP_SCALE as f64;
    assert!((c4 - 261.6256).abs() < 0.01);
    // One octave doubles the frequency.
    assert_eq!(midi_note_to_freq(81), 2 * midi_note_to_freq(69));
    // The phase increment at 48 kHz for note 60 is about 0.00545 cycles.
    let delta = note_phase_delta(60, 48000);
    assert_eq!(delta, midi_note_to_freq(60) / 48000);
    let delta_f = delta as f64 / FP_SCALE as f64;
    assert!((delta_f - 0.00545).abs() < 0.0002);
}

#[test]
fn permit_alloc_passes_the_closure_result_through() {
    let v = permit_alloc(|| 41 + 1);
    assert_eq!(v, 42);
}
