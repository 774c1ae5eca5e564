use subsynth::engine::{
    compute_fallback_voice_id, EngineParams, NoteEvent, SubSynth, NUM_VOICES,
};
use subsynth::filter::FilterType;
use subsynth::fixed::FP_SCALE;
use subsynth::modulator::OscillatorShape;
use subsynth::util::midi_note_to_freq;
use subsynth::waveform::Waveform;

fn test_params() -> EngineParams {
    EngineParams {
        gain: FP_SCALE,
        gain_min: 0,
        gain_max: FP_SCALE,
        gain_norm: FP_SCALE,
        gain_smooth_samples: 0,
        amp_attack: 0,
        amp_hold: 0,
        amp_decay: 0,
        amp_sustain: FP_SCALE,
        amp_release: 48,
        cut_attack: 0,
        cut_hold: 0,
        cut_decay: 0,
        cut_sustain: FP_SCALE,
        cut_release: 48,
        res_attack: 0,
        res_hold: 0,
        res_decay: 0,
        res_sustain: FP_SCALE,
        res_release: 48,
        waveform: Waveform::Sine,
        filter_type: FilterType::Bypass,
        filter_cut: 10000,
        filter_res: FP_SCALE / 2,
        filter_amount: 0,
        vibrato_rate: 0,
        vibrato_peak: 0,
        vibrato_attack: 0,
        vibrato_shape: OscillatorShape::Sine,
        tremolo_rate: 0,
        tremolo_peak: 0,
        tremolo_attack: 0,
        tremolo_shape: OscillatorShape::Sine,
    }
}

fn velocity_08() -> i64 {
    // 0.8 in fixed point.
    52429
}

#[test]
fn note_on_mid_buffer_starts_silent_and_sets_phase_delta() {
    // NoteOn(note 60, velocity 0.8) at sample 10 of a 64-sample buffer at
    // 48 kHz.
    let mut engine = SubSynth::new();
    let params = test_params();
    let events = vec![NoteEvent::NoteOn {
        timing: 10,
        voice_id: None,
        channel: 0,
        note: 60,
        velocity: velocity_08(),
    }];
    let mut left = vec![7777i64; 64];
    let mut right = vec![-7777i64; 64];
    let terminated = engine.process(&mut left, &mut right, 48000, &events, &params);
    assert!(terminated.is_empty());
    // Before the event's sample offset the voice contributes nothing.
    for i in 0..10 {
        assert_eq!(left[i], 0, "sample {} must be silent", i);
        assert_eq!(right[i], 0, "sample {} must be silent", i);
    }
    // The created voice's phase increment is its note's frequency over the
    // sample rate: about 0.00545 cycles per sample.
    let voice = engine
        .voices
        .iter()
        .flatten()
        .find(|v| v.note == 60)
        .expect("the voice must be live");
    assert_eq!(voice.phase_delta, midi_note_to_freq(60) / 48000);
    let delta = voice.phase_delta as f64 / FP_SCALE as f64;
    assert!((delta - 0.00545).abs() < 0.0002);
    // The voice does sound after its onset (pan 0: left channel).
    assert!(left[10..].iter().any(|&s| s != 0));
}

#[test]
fn seventeenth_note_steals_the_oldest_voice_with_one_notification() {
    let mut engine = SubSynth::new();
    let params = test_params();
    let mut events = Vec::new();
    for n in 0..17u8 {
        events.push(NoteEvent::NoteOn {
            timing: 0,
            voice_id: None,
            channel: 0,
            note: 40 + n,
            velocity: FP_SCALE,
        });
    }
    let mut left = vec![0i64; 8];
    let mut right = vec![0i64; 8];
    let terminated = engine.process(&mut left, &mut right, 48000, &events, &params);
    // Exactly one voice was stolen: the oldest (the first note), and its
    // termination was notified exactly once.
    assert_eq!(terminated.len(), 1);
    assert_eq!(terminated[0].note, 40);
    assert_eq!(terminated[0].channel, 0);
    assert_eq!(terminated[0].voice_id, Some(compute_fallback_voice_id(40, 0)));
    // The pool still holds its full capacity, no more.
    assert_eq!(engine.voices.len(), NUM_VOICES);
    let live = engine.voices.iter().flatten().count();
    assert_eq!(live, NUM_VOICES);
    // The first note's slot now carries the newest note.
    assert!(engine.voices.iter().flatten().any(|v| v.note == 56));
    assert!(engine.voices.iter().flatten().all(|v| v.note != 40));
}

#[test]
fn empty_render_call_is_silent() {
    let mut engine = SubSynth::new();
    let params = test_params();
    let events: Vec<NoteEvent> = Vec::new();
    let mut left = vec![123i64; 100];
    let mut right = vec![-55i64; 100];
    let terminated = engine.process(&mut left, &mut right, 48000, &events, &params);
    assert!(terminated.is_empty());
    assert!(left.iter().all(|&s| s == 0));
    assert!(right.iter().all(|&s| s == 0));
}

#[test]
fn zero_samples_and_no_events_is_a_no_op() {
    let mut engine = SubSynth::new();
    let params = test_params();
    let events: Vec<NoteEvent> = Vec::new();
    let mut left: Vec<i64> = Vec::new();
    let mut right: Vec<i64> = Vec::new();
    let terminated = engine.process(&mut left, &mut right, 48000, &events, &params);
    assert!(terminated.is_empty());
    assert!(left.is_empty());
}

#[test]
fn choke_clears_the_voice_at_once_with_a_notification() {
    let mut engine = SubSynth::new();
    let params = test_params();
    let events = vec![
        NoteEvent::NoteOn { timing: 0, voice_id: None, channel: 3, note: 64, velocity: FP_SCALE },
        NoteEvent::Choke { timing: 4, voice_id: None, channel: 3, note: 64 },
    ];
    let mut left = vec![0i64; 16];
    let mut right = vec![0i64; 16];
    let terminated = engine.process(&mut left, &mut right, 48000, &events, &params);
    assert_eq!(terminated.len(), 1);
    assert_eq!(terminated[0].note, 64);
    assert_eq!(terminated[0].channel, 3);
    assert_eq!(engine.voices.iter().flatten().count(), 0);
}

#[test]
fn note_off_releases_and_the_voice_is_reaped_after_its_release() {
    let mut engine = SubSynth::new();
    let params = test_params();
    // Release lasts 48 samples; the buffer is long enough for the release
    // to finish, so the voice must be reaped and notified.
    let events = vec![
        NoteEvent::NoteOn { timing: 0, voice_id: None, channel: 0, note: 72, velocity: FP_SCALE },
        NoteEvent::NoteOff { timing: 8, voice_id: None, channel: 0, note: 72, velocity: 0 },
    ];
    let mut left = vec![0i64; 256];
    let mut right = vec![0i64; 256];
    let terminated = engine.process(&mut left, &mut right, 48000, &events, &params);
    assert_eq!(terminated.len(), 1);
    assert_eq!(terminated[0].note, 72);
    assert_eq!(terminated[0].voice_id, Some(compute_fallback_voice_id(72, 0)));
    assert_eq!(engine.voices.iter().flatten().count(), 0);
}

#[test]
fn voices_match_by_explicit_id_when_supplied() {
    let mut engine = SubSynth::new();
    let params = test_params();
    let events = vec![
        NoteEvent::NoteOn {
            timing: 0,
            voice_id: Some(901),
            channel: 0,
            note: 60,
            velocity: FP_SCALE,
        },
        // A note-off carrying a different explicit id must not touch the
        // voice, even though channel and note agree.
        NoteEvent::NoteOff {
            timing: 2,
            voice_id: Some(902),
            channel: 0,
            note: 60,
            velocity: 0,
        },
    ];
    let mut left = vec![0i64; 16];
    let mut right = vec![0i64; 16];
    let terminated = engine.process(&mut left, &mut right, 48000, &events, &params);
    assert!(terminated.is_empty());
    let v = engine.voices.iter().flatten().find(|v| v.voice_id == 901).unwrap();
    assert!(!v.releasing);
}

#[test]
fn poly_pan_event_creates_the_missing_voice_and_sets_pan() {
    let mut engine = SubSynth::new();
    let params = test_params();
    let stolen = engine.handle_poly_pan_event(0, None, 2, 50, FP_SCALE / 4, &params, 48000);
    assert!(stolen.is_none());
    let v = engine
        .voices
        .iter()
        .flatten()
        .find(|v| v.channel == 2 && v.note == 50)
        .expect("a voice must have been created for the expression event");
    assert_eq!(v.pan, FP_SCALE / 4);
    // A second pan event for the same (channel, note) reuses that voice.
    let before = engine.voices.iter().flatten().count();
    engine.handle_poly_pan_event(0, None, 2, 50, FP_SCALE / 2, &params, 48000);
    assert_eq!(engine.voices.iter().flatten().count(), before);
    let v = engine
        .voices
        .iter()
        .flatten()
        .find(|v| v.channel == 2 && v.note == 50)
        .unwrap();
    assert_eq!(v.pan, FP_SCALE / 2);
}

#[test]
fn poly_modulation_attaches_a_per_voice_gain_smoother() {
    let mut engine = SubSynth::new();
    let params = test_params();
    let events = vec![
        NoteEvent::NoteOn {
            timing: 0,
            voice_id: Some(7),
            channel: 0,
            note: 60,
            velocity: FP_SCALE,
        },
        NoteEvent::PolyModulation {
            timing: 0,
            voice_id: 7,
            poly_modulation_id: 0,
            normalized_offset: -FP_SCALE / 2,
        },
    ];
    let mut left = vec![0i64; 8];
    let mut right = vec![0i64; 8];
    engine.process(&mut left, &mut right, 48000, &events, &params);
    let v = engine.voices.iter().flatten().find(|v| v.voice_id == 7).unwrap();
    let (offset, _) = v.voice_gain.expect("the voice must carry its modulation smoother");
    assert_eq!(offset, -FP_SCALE / 2);
}

#[test]
fn unknown_modulation_target_is_ignored() {
    let mut engine = SubSynth::new();
    let params = test_params();
    let events = vec![
        NoteEvent::NoteOn {
            timing: 0,
            voice_id: Some(7),
            channel: 0,
            note: 60,
            velocity: FP_SCALE,
        },
        NoteEvent::PolyModulation {
            timing: 0,
            voice_id: 7,
            poly_modulation_id: 99,
            normalized_offset: FP_SCALE / 2,
        },
        NoteEvent::MonoAutomation { timing: 0, poly_modulation_id: 99, normalized_value: 0 },
    ];
    let mut left = vec![0i64; 8];
    let mut right = vec![0i64; 8];
    let terminated = engine.process(&mut left, &mut right, 48000, &events, &params);
    assert!(terminated.is_empty());
    let v = engine.voices.iter().flatten().find(|v| v.voice_id == 7).unwrap();
    assert!(v.voice_gain.is_none());
}

#[test]
fn reset_clears_the_pool_and_restarts_numbering() {
    let mut engine = SubSynth::new();
    let params = test_params();
    let events = vec![NoteEvent::NoteOn {
        timing: 0,
        voice_id: None,
        channel: 0,
        note: 60,
        velocity: FP_SCALE,
    }];
    let mut left = vec![0i64; 8];
    let mut right = vec![0i64; 8];
    engine.process(&mut left, &mut right, 48000, &events, &params);
    assert_eq!(engine.voices.iter().flatten().count(), 1);
    engine.reset();
    assert_eq!(engine.voices.iter().flatten().count(), 0);
    assert_eq!(engine.next_internal_voice_id, 0);
}

#[test]
fn fallback_voice_id_packs_note_and_channel() {
    assert_eq!(compute_fallback_voice_id(60, 0), 60);
    assert_eq!(compute_fallback_voice_id(60, 1), 60 + 65536);
    assert_eq!(compute_fallback_voice_id(0, 15), 15 * 65536);
}

#[test]
fn pool_occupancy_never_exceeds_capacity() {
    let mut engine = SubSynth::new();
    let params = test_params();
    let mut events = Vec::new();
    for n in 0..100u8 {
        events.push(NoteEvent::NoteOn {
            timing: 0,
            voice_id: None,
            channel: 1,
            note: n,
            velocity: FP_SCALE,
        });
    }
    let mut left = vec![0i64; 8];
    let mut right = vec![0i64; 8];
    engine.process(&mut left, &mut right, 48000, &events, &params);
    assert_eq!(engine.voices.len(), NUM_VOICES);
    assert!(engine.voices.iter().flatten().count() <= NUM_VOICES);
    // No two live voices share a creation sequence number.
    let mut ids: Vec<u64> = engine.voices.iter().flatten().map(|v| v.internal_voice_id).collect();
    let n_live = ids.len();
    ids.sort();
    ids.dedup();
    assert_eq!(ids.len(), n_live);
}

#[test]
fn find_voice_requires_all_supplied_identity_fields_to_agree() {
    let mut engine = SubSynth::new();
    let params = test_params();
    let events = vec![NoteEvent::NoteOn {
        timing: 0,
        voice_id: Some(11),
        channel: 4,
        note: 70,
        velocity: FP_SCALE,
    }];
    let mut left = vec![0i64; 8];
    let mut right = vec![0i64; 8];
    engine.process(&mut left, &mut right, 48000, &events, &params);
    assert!(engine.find_voice(Some(11), 4, 70).is_some());
    assert!(engine.find_voice(None, 4, 70).is_some());
    assert!(engine.find_voice(Some(12), 4, 70).is_none());
    assert!(engine.find_voice(Some(11), 4, 71).is_none());
    assert!(engine.find_voice(None, 5, 70).is_none());
}

#[test]
fn normalized_positions_map_linearly_onto_the_gain_range() {
    let mut params = test_params();
    params.gain_min = 100;
    params.gain_max = 1100;
    params.gain_norm = FP_SCALE / 2;
    assert_eq!(subsynth::engine::preview_plain(&params, 0), 100);
    assert_eq!(subsynth::engine::preview_plain(&params, FP_SCALE), 1100);
    assert_eq!(subsynth::engine::preview_plain(&params, FP_SCALE / 2), 600);
    // Out-of-range positions clamp to the ends of the range.
    assert_eq!(subsynth::engine::preview_plain(&params, -FP_SCALE), 100);
    assert_eq!(subsynth::engine::preview_plain(&params, 2 * FP_SCALE), 1100);
    // A per-voice offset is applied to the current normalized position.
    assert_eq!(subsynth::engine::preview_modulated(&params, FP_SCALE / 2), 1100);
    assert_eq!(subsynth::engine::preview_modulated(&params, -FP_SCALE / 2), 100);
}

#[test]
fn filtered_render_stays_in_the_signal_range() {
    let mut engine = SubSynth::new();
    let mut params = test_params();
    params.waveform = Waveform::Square;
    params.filter_type = FilterType::Statevariable;
    params.filter_amount = FP_SCALE;
    params.filter_cut = 2000;
    params.filter_res = FP_SCALE / 2;
    let events = vec![NoteEvent::NoteOn {
        timing: 0,
        voice_id: None,
        channel: 0,
        note: 60,
        velocity: FP_SCALE,
    }];
    let mut left = vec![0i64; 512];
    let mut right = vec![0i64; 512];
    engine.process(&mut left, &mut right, 48000, &events, &params);
    let sig_max = subsynth::fixed::SIG_MAX;
    assert!(left.iter().all(|&s| -sig_max <= s && s <= sig_max));
    assert!(right.iter().all(|&s| -sig_max <= s && s <= sig_max));
    assert!(left.iter().any(|&s| s != 0));
}

#[test]
fn noise_voice_renders_within_bounds() {
    let mut engine = SubSynth::new();
    let mut params = test_params();
    params.waveform = Waveform::Noise;
    let events = vec![NoteEvent::NoteOn {
        timing: 0,
        voice_id: None,
        channel: 0,
        note: 60,
        velocity: FP_SCALE,
    }];
    let mut left = vec![0i64; 128];
    let mut right = vec![0i64; 128];
    engine.process(&mut left, &mut right, 48000, &events, &params);
    let sig_max = subsynth::fixed::SIG_MAX;
    assert!(left.iter().all(|&s| -sig_max <= s && s <= sig_max));
    assert!(left.iter().any(|&s| s != 0));
}

#[test]
fn stealing_keeps_the_slot_filter_memory() {
    // Build up filter and DC-blocker memory in a full pool, then steal:
    // the newcomer must inherit the slot's feedback state, not a cleared
    // one.
    let mut engine = SubSynth::new();
    let mut params = test_params();
    params.waveform = Waveform::Square;
    params.filter_type = FilterType::Statevariable;
    params.filter_amount = FP_SCALE;
    params.filter_cut = 2000;
    params.filter_res = FP_SCALE / 2;
    let mut events = Vec::new();
    for n in 0..16u8 {
        events.push(NoteEvent::NoteOn {
            timing: 0,
            voice_id: None,
            channel: 0,
            note: 40 + n,
            velocity: FP_SCALE,
        });
    }
    let mut left = vec![0i64; 128];
    let mut right = vec![0i64; 128];
    engine.process(&mut left, &mut right, 48000, &events, &params);
    // The oldest voice occupies the slot about to be stolen.
    let slot = (0..16)
        .min_by_key(|&i| engine.voices[i].as_ref().unwrap().internal_voice_id)
        .unwrap();
    let prior = engine.voices[slot].unwrap();
    assert_ne!(prior.filters.statevariable.bandpass_output, 0);
    let stolen = engine.start_voice(
        0,
        None,
        0,
        99,
        FP_SCALE,
        0,
        FP_SCALE,
        FP_SCALE,
        0,
        0,
        &params,
        48000,
    );
    assert!(stolen.is_some());
    let newcomer = engine.voices[slot].unwrap();
    assert_eq!(newcomer.note, 99);
    // The feedback memory carried over; the envelopes are fresh.
    assert_eq!(
        newcomer.filters.statevariable.bandpass_output,
        prior.filters.statevariable.bandpass_output
    );
    assert_eq!(
        newcomer.filters.statevariable.lowpass_output,
        prior.filters.statevariable.lowpass_output
    );
    assert_eq!(newcomer.filters.lowpass.prev_output, prior.filters.lowpass.prev_output);
    assert_eq!(newcomer.dc_blocker.y1, prior.dc_blocker.y1);
    assert_eq!(newcomer.dc_blocker.x1, prior.dc_blocker.x1);
    assert_eq!(newcomer.amp_envelope.time, 0);
}

#[test]
fn poly_pressure_records_the_pressure_and_rescales_velocity() {
    let mut engine = SubSynth::new();
    let params = test_params();
    let events = vec![NoteEvent::NoteOn {
        timing: 0,
        voice_id: None,
        channel: 0,
        note: 61,
        velocity: FP_SCALE,
    }];
    let mut left = vec![0i64; 4];
    let mut right = vec![0i64; 4];
    engine.process(&mut left, &mut right, 48000, &events, &params);
    let half = FP_SCALE / 2;
    engine.handle_poly_pressure_event(0, None, 0, 61, half, &params, 48000);
    let v = engine.voices.iter().flatten().find(|v| v.note == 61).unwrap();
    assert_eq!(v.pressure, half);
    assert_eq!(v.velocity, half);
    assert_eq!(v.amp_envelope.velocity, half);
}
