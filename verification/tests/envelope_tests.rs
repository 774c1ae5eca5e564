use subsynth::envelope::{ADSREnvelope, ADSREnvelopeState};
use subsynth::fixed::FP_SCALE;

const HALF: i64 = 32768;

#[test]
fn zero_attack_and_decay_jump_to_sustain_then_release_linearly() {
    // attack = 0, decay = 0, sustain = 0.5, release = 10 ms at 48 kHz.
    let mut env = ADSREnvelope::new(0, 0, 0, HALF, 480, FP_SCALE);
    env.trigger();
    // With a zero attack the output jumps straight to full scale.
    assert_eq!(env.previous_value(), FP_SCALE);
    // One sample later the empty attack and decay stages have fallen
    // through to sustain at 0.5.
    env.advance();
    assert_eq!(env.get_state(), ADSREnvelopeState::Sustain);
    assert_eq!(env.previous_value(), HALF);
    // Release ramps linearly from the captured level to 0 over exactly
    // 480 samples (10 ms).
    env.release();
    assert_eq!(env.previous_value(), HALF);
    for _ in 0..240 {
        env.advance();
    }
    assert_eq!(env.get_state(), ADSREnvelopeState::Release);
    assert_eq!(env.previous_value(), HALF * 240 / 480);
    for _ in 0..240 {
        env.advance();
    }
    assert_eq!(env.get_state(), ADSREnvelopeState::Idle);
    assert_eq!(env.previous_value(), 0);
}

#[test]
fn attack_ramps_linearly_to_full_scale() {
    let mut env = ADSREnvelope::new(100, 0, 50, HALF, 50, FP_SCALE);
    env.trigger();
    assert_eq!(env.previous_value(), 0);
    for _ in 0..25 {
        env.advance();
    }
    assert_eq!(env.get_state(), ADSREnvelopeState::Attack);
    assert_eq!(env.previous_value(), FP_SCALE * 25 / 100);
    for _ in 0..50 {
        env.advance();
    }
    assert_eq!(env.previous_value(), FP_SCALE * 75 / 100);
}

#[test]
fn decay_never_falls_below_sustain() {
    let mut env = ADSREnvelope::new(4, 0, 100, HALF, 100, FP_SCALE);
    env.trigger();
    let mut seen_decay = false;
    for _ in 0..200 {
        env.advance();
        let v = env.previous_value();
        assert!(v >= 0 && v <= FP_SCALE);
        if env.get_state() == ADSREnvelopeState::Decay {
            seen_decay = true;
            assert!(v >= HALF);
        }
    }
    assert!(seen_decay);
    assert_eq!(env.get_state(), ADSREnvelopeState::Sustain);
}

#[test]
fn hold_stage_keeps_full_scale_before_decay() {
    let mut env = ADSREnvelope::new(2, 10, 10, HALF, 10, FP_SCALE);
    env.trigger();
    env.advance();
    env.advance();
    assert_eq!(env.get_state(), ADSREnvelopeState::Hold);
    assert_eq!(env.previous_value(), FP_SCALE);
    for _ in 0..10 {
        env.advance();
    }
    assert_eq!(env.get_state(), ADSREnvelopeState::Decay);
}

#[test]
fn release_before_attack_completes_still_reaches_idle() {
    // The round trip of the termination law, on concrete values: trigger,
    // release mid-attack, and the envelope must still reach Idle within
    // its release duration plus one sample.
    let mut env = ADSREnvelope::new(1000, 0, 100, HALF, 30, FP_SCALE);
    env.trigger();
    for _ in 0..5 {
        env.advance();
    }
    assert_eq!(env.get_state(), ADSREnvelopeState::Attack);
    env.release();
    for _ in 0..31 {
        env.advance();
    }
    assert_eq!(env.get_state(), ADSREnvelopeState::Idle);
    assert_eq!(env.previous_value(), 0);
}

#[test]
fn release_level_is_captured_at_release_time() {
    let mut env = ADSREnvelope::new(100, 0, 100, HALF, 100, FP_SCALE);
    env.trigger();
    for _ in 0..50 {
        env.advance();
    }
    let level = env.previous_value();
    assert_eq!(level, FP_SCALE * 50 / 100);
    env.release();
    // Immediately after release the output restarts the ramp from the
    // captured level.
    assert_eq!(env.previous_value(), level);
    for _ in 0..50 {
        env.advance();
    }
    assert_eq!(env.previous_value(), level * 50 / 100);
}

#[test]
fn idle_envelope_stays_idle_on_release() {
    let mut env = ADSREnvelope::new(10, 0, 10, HALF, 10, FP_SCALE);
    env.set_envelope_stage(ADSREnvelopeState::Idle);
    env.release();
    assert_eq!(env.get_state(), ADSREnvelopeState::Idle);
    assert_eq!(env.previous_value(), 0);
}

#[test]
fn output_scale_multiplies_value_without_changing_timing() {
    let mut env = ADSREnvelope::new(0, 0, 0, FP_SCALE, 100, FP_SCALE);
    env.trigger();
    env.set_scale(HALF);
    // Pre-scale value is full scale; the scaled output is half.
    assert_eq!(env.previous_value(), FP_SCALE);
    assert_eq!(env.get_value(), HALF);
}

#[test]
fn set_velocity_scales_durations() {
    let mut env = ADSREnvelope::new(100, 40, 60, HALF, 80, FP_SCALE);
    env.set_velocity(HALF);
    assert_eq!(env.get_attack(), 50);
    assert_eq!(env.get_decay(), 30);
    assert_eq!(env.get_release(), 40);
    assert_eq!(env.get_sustain(), HALF);
}
