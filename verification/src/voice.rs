//! One sounding note: its identity, performance state, modulation state and
//! DSP state, and the per-sample render chain that turns them into a stereo
//! sample pair.
//!
//! Per sample the voice advances its three envelopes and two LFOs, generates
//! the oscillator sample at its phase, subtracts the band-limiting step
//! correction, runs the selected filter, scales by velocity, block gain,
//! amplitude envelope and tremolo, removes DC, and splits the result into
//! left and right by the equal-power law `left = sqrt(1 - pan)`,
//! `right = sqrt(pan)`.

use vstd::prelude::*;

use crate::envelope::ADSREnvelope;
use crate::filter::{generate_filter, DCBlocker, FilterBank, FilterType};
use crate::fixed::{fp_add, fp_add_spec, fp_clamp, fp_in_sig, fp_mul, fp_mul_spec, isqrt, FP_SCALE};
use crate::modulator::Modulator;
use crate::smoother::Smoother;
use crate::waveform::{generate_waveform, phase_ok, poly_blep, Waveform};

verus! {

/// Largest tuning offset a voice accepts: 48 semitones, fixed point.
pub const TUNING_MAX: i64 = 3145728;

/// One sounding note.
#[derive(Clone, Copy, Debug)]
pub struct Voice {
    /// The host-assigned or synthesized voice id.
    pub voice_id: i32,
    /// MIDI channel.
    pub channel: u8,
    /// MIDI note number.
    pub note: u8,
    /// Creation sequence number; only relative order matters.
    pub internal_voice_id: u64,
    /// Velocity, fixed point in `[0, FP_SCALE]`.
    pub velocity: i64,
    /// Square root of the velocity (perceptual amplitude scaling).
    pub velocity_sqrt: i64,
    /// Oscillator phase in `[0, FP_SCALE)`.
    pub phase: i64,
    /// Phase increment per sample, in `[0, FP_SCALE)`.
    pub phase_delta: i64,
    /// Whether a note-off has been received.
    pub releasing: bool,
    /// The amplitude envelope.
    pub amp_envelope: ADSREnvelope,
    /// Per-voice gain modulation: the normalized offset and the smoother,
    /// present only when polyphonic modulation targets this voice.
    pub voice_gain: Option<(i64, Smoother)>,
    /// The filter-cutoff modulation envelope.
    pub filter_cut_envelope: ADSREnvelope,
    /// The filter-resonance modulation envelope.
    pub filter_res_envelope: ADSREnvelope,
    /// The currently selected filter algorithm, if any.
    pub filter: Option<FilterType>,
    /// One persistent instance of every filter algorithm.
    pub filters: FilterBank,
    /// The per-voice DC blocker.
    pub dc_blocker: DCBlocker,
    /// The vibrato (pitch) LFO.
    pub vibrato_lfo: Modulator,
    /// The tremolo (amplitude) LFO.
    pub tremolo_lfo: Modulator,
    /// Pan, fixed point: 0 is left, `FP_SCALE` is right.
    pub pan: i64,
    /// Pressure, fixed point in `[0, FP_SCALE]`.
    pub pressure: i64,
    /// Tuning offset in fixed-point semitones, in
    /// `[-TUNING_MAX, TUNING_MAX]`.
    pub tuning: i64,
    /// Vibrato amount, fixed point in `[0, FP_SCALE]`.
    pub vibrato: i64,
    /// Expression, fixed point in `[0, FP_SCALE]`.
    pub expression: i64,
    /// Brightness, fixed point in `[0, FP_SCALE]`.
    pub brightness: i64,
}

impl Voice {
    /// The voice's internal invariant.
    pub open spec fn wf(self) -> bool {
        &&& 0 <= self.velocity <= FP_SCALE
        &&& 0 <= self.velocity_sqrt <= FP_SCALE
        &&& phase_ok(self.phase)
        &&& 0 <= self.phase_delta < FP_SCALE
        &&& self.amp_envelope.wf()
        &&& self.filter_cut_envelope.wf()
        &&& self.filter_res_envelope.wf()
        &&& match self.voice_gain {
            Some((off, sm)) => -FP_SCALE <= off <= FP_SCALE && sm.wf(),
            None => true,
        }
        &&& self.filters.wf()
        &&& self.dc_blocker.wf()
        &&& self.vibrato_lfo.wf()
        &&& self.tremolo_lfo.wf()
        &&& 0 <= self.pan <= FP_SCALE
        &&& 0 <= self.pressure <= FP_SCALE
        &&& -TUNING_MAX <= self.tuning <= TUNING_MAX
        &&& 0 <= self.vibrato <= FP_SCALE
        &&& 0 <= self.expression <= FP_SCALE
        &&& 0 <= self.brightness <= FP_SCALE
    }
}

/// The two equal-power pan gains: `left = sqrt(1 - pan)` and
/// `right = sqrt(pan)`, each the integer square root of the exact
/// fixed-point square.
pub fn pan_gains(pan: i64) -> (g: (i64, i64))
    requires
        0 <= pan <= FP_SCALE,
    ensures
        0 <= g.0 <= FP_SCALE,
        0 <= g.1 <= FP_SCALE,
        g.0 * g.0 <= (FP_SCALE - pan) * FP_SCALE < (g.0 + 1) * (g.0 + 1),
        g.1 * g.1 <= pan * FP_SCALE < (g.1 + 1) * (g.1 + 1),
{
    proof {
        assert((FP_SCALE - pan) * FP_SCALE <= 65536 * 65536 && 0 <= (FP_SCALE - pan) * FP_SCALE
            && pan * FP_SCALE <= 65536 * 65536 && 0 <= pan * FP_SCALE) by (nonlinear_arith)
            requires
                0 <= pan <= 65536,
        ;
    }
    let left_sq: u64 = ((FP_SCALE - pan) as u64) * (FP_SCALE as u64);
    let right_sq: u64 = (pan as u64) * (FP_SCALE as u64);
    let left = isqrt(left_sq);
    let right = isqrt(right_sq);
    (left as i64, right as i64)
}

/// The equal-power law: for any pan position, the pan gains' squares sum to
/// one, up to the quantization slack of the two integer square roots
/// (at most two units in the last place of each gain).
pub proof fn lemma_pan_equal_power(pan: int, left: int, right: int)
    requires
        0 <= pan <= FP_SCALE,
        0 <= left,
        0 <= right,
        left * left <= (FP_SCALE - pan) * FP_SCALE < (left + 1) * (left + 1),
        right * right <= pan * FP_SCALE < (right + 1) * (right + 1),
    ensures
        FP_SCALE * FP_SCALE - 2 * (left + right) <= left * left + right * right,
        left * left + right * right <= FP_SCALE * FP_SCALE,
{
    assert((FP_SCALE - pan) * FP_SCALE + pan * FP_SCALE == FP_SCALE * FP_SCALE)
        by (nonlinear_arith);
    assert(left * left >= (FP_SCALE - pan) * FP_SCALE - 2 * left) by (nonlinear_arith)
        requires
            (FP_SCALE - pan) * FP_SCALE < (left + 1) * (left + 1),
    ;
    assert(right * right >= pan * FP_SCALE - 2 * right) by (nonlinear_arith)
        requires
            pan * FP_SCALE < (right + 1) * (right + 1),
    ;
}

impl Voice {
    /// Renders one sample: advances the envelopes, LFOs and phase, runs the
    /// DSP chain, and yields the left and right contributions.
    ///
    /// The whole step is one spec function: the new voice and the two
    /// outputs equal [`Self::rendered_voice_spec`] of the old voice. The
    /// envelopes and LFOs take their per-sample transition before their
    /// values are read (the transition rule is evaluated after the time
    /// accumulator advances); the outputs are the DC-blocked chain output
    /// split by the equal-power pan gains; the phase advances by the
    /// vibrato-modulated increment and wraps.
    pub fn render_sample(
        &mut self,
        waveform: Waveform,
        filter_type: FilterType,
        cutoff: i64,
        resonance: i64,
        filter_amount: i64,
        gain: i64,
        sample_rate: u32,
        noise_bits: u32,
    ) -> (out: (i64, i64))
        requires
            old(self).wf(),
            crate::filter::cutoff_ok(cutoff),
            crate::filter::resonance_ok(resonance),
            0 <= filter_amount <= FP_SCALE,
            0 <= gain <= FP_SCALE,
            crate::filter::rate_ok(sample_rate),
        ensures
            final(self).wf(),
            fp_in_sig(out.0),
            fp_in_sig(out.1),
            ({
                let (nv, l, r) = old(self).rendered_voice_spec(
                    waveform,
                    filter_type,
                    cutoff as int,
                    resonance as int,
                    filter_amount as int,
                    gain as int,
                    sample_rate,
                    noise_bits,
                );
                &&& *final(self) == nv
                &&& out.0 == l
                &&& out.1 == r
            }),
    {
        // Per-sample transitions first: each envelope's and LFO's value is
        // read after its time accumulator has advanced.
        let vib = self.vibrato_lfo.get_modulation(sample_rate);
        self.amp_envelope.advance();
        self.filter_cut_envelope.advance();
        self.filter_res_envelope.advance();

        // Pitch modulation: the vibrato LFO bends the phase increment.
        let bend = fp_mul(self.phase_delta, fp_mul(self.vibrato, vib));
        let delta_raw = fp_add(self.phase_delta, bend);
        let delta = if delta_raw < 0 {
            0
        } else if delta_raw > FP_SCALE - 1 {
            FP_SCALE - 1
        } else {
            delta_raw
        };

        // The oscillator sample at the current phase, with the band-limiting
        // correction subtracted near the wrap.
        let raw = generate_waveform(waveform, self.phase, noise_bits);
        let corrected = fp_clamp(raw - poly_blep(self.phase, delta));

        // Envelope-modulated filtering, blended dry/wet by the filter
        // amount.
        let cut_env = self.filter_cut_envelope.get_value();
        let res_env = self.filter_res_envelope.get_value();
        let wet = generate_filter(
            filter_type,
            cutoff,
            resonance,
            cut_env,
            res_env,
            corrected,
            sample_rate,
            &mut self.filters,
        );
        let blended = fp_add(
            fp_mul(corrected, FP_SCALE - filter_amount),
            fp_mul(wet, filter_amount),
        );

        // Amplitude: velocity (perceptual), block gain, amplitude envelope,
        // tremolo.
        let amp_env = self.amp_envelope.get_value();
        let trem = self.tremolo_lfo.get_modulation(sample_rate);
        let a1 = fp_mul(self.velocity_sqrt, gain);
        let a2 = fp_mul(a1, amp_env);
        let a3 = fp_mul(a2, fp_add(trem, FP_SCALE));
        let scaled = fp_mul(blended, a3);

        // Remove any DC offset, then pan.
        let blocked = self.dc_blocker.process(scaled);
        let gains = pan_gains(self.pan);
        let left = fp_mul(blocked, gains.0);
        let right = fp_mul(blocked, gains.1);

        // Advance the phase.
        self.phase = if self.phase + delta >= FP_SCALE {
            self.phase + delta - FP_SCALE
        } else {
            self.phase + delta
        };

        proof {
            lemma_sqrt_floor_unique(
                (((FP_SCALE - self.pan) * FP_SCALE) as nat),
                gains.0 as nat,
            );
            lemma_sqrt_floor_unique(((self.pan * FP_SCALE) as nat), gains.1 as nat);
        }
        (left, right)
    }

    /// The phase increment this sample uses: the base increment bent by
    /// the vibrato LFO's output scaled by the vibrato amount, kept inside
    /// one cycle.
    pub open spec fn bent_delta_spec(self, vib_out: int) -> int {
        let bend = fp_mul_spec(self.phase_delta as int, fp_mul_spec(self.vibrato as int, vib_out));
        let raw = fp_add_spec(self.phase_delta as int, bend);
        if raw < 0 {
            0
        } else if raw > FP_SCALE - 1 {
            FP_SCALE - 1
        } else {
            raw
        }
    }

    /// The band-limited oscillator sample at the current phase: the raw
    /// waveform with the step correction for this sample's phase increment
    /// subtracted.
    pub open spec fn corrected_sample_spec(
        self,
        waveform: Waveform,
        sample_rate: u32,
        noise_bits: u32,
    ) -> int {
        let delta = self.bent_delta_spec(self.vibrato_lfo.step_spec(sample_rate).output_spec());
        let raw = crate::waveform::waveform_spec(waveform, self.phase as int, noise_bits);
        crate::fixed::clamp_spec(
            raw - crate::waveform::poly_blep_spec(self.phase as int, delta),
            -crate::fixed::SIG_MAX as int,
            crate::fixed::SIG_MAX as int,
        )
    }

    /// This sample's cutoff-envelope output: the envelope's value after its
    /// per-sample transition, under its output scale.
    pub open spec fn cut_env_out_spec(self) -> int {
        let e = self.filter_cut_envelope.step_spec();
        e.value_spec() * e.scale / (FP_SCALE as int)
    }

    /// This sample's resonance-envelope output.
    pub open spec fn res_env_out_spec(self) -> int {
        let e = self.filter_res_envelope.step_spec();
        e.value_spec() * e.scale / (FP_SCALE as int)
    }

    /// This sample's amplitude-envelope output.
    pub open spec fn amp_env_out_spec(self) -> int {
        let e = self.amp_envelope.step_spec();
        e.value_spec() * e.scale / (FP_SCALE as int)
    }

    /// The scaled sample this voice hands its DC blocker: the band-limited
    /// oscillator sample, filtered and blended dry/wet, scaled by
    /// perceptual velocity, block gain, the amplitude envelope and the
    /// tremolo LFO.
    pub open spec fn chain_sample_spec(
        self,
        waveform: Waveform,
        filter_type: FilterType,
        cutoff: int,
        resonance: int,
        filter_amount: int,
        gain: int,
        sample_rate: u32,
        noise_bits: u32,
    ) -> int {
        let corrected = self.corrected_sample_spec(waveform, sample_rate, noise_bits);
        let wet = crate::filter::filtered_sample_spec(
            self.filters,
            filter_type,
            cutoff,
            resonance,
            self.cut_env_out_spec(),
            self.res_env_out_spec(),
            corrected,
            sample_rate as int,
        );
        let blended = fp_add_spec(
            fp_mul_spec(corrected, FP_SCALE - filter_amount),
            fp_mul_spec(wet, filter_amount),
        );
        let trem = self.tremolo_lfo.step_spec(sample_rate).output_spec();
        let amp = fp_mul_spec(
            fp_mul_spec(
                fp_mul_spec(self.velocity_sqrt as int, gain),
                self.amp_env_out_spec(),
            ),
            fp_add_spec(trem, FP_SCALE as int),
        );
        fp_mul_spec(blended, amp)
    }

    /// One whole render step: the voice after the sample and its left and
    /// right output contributions.
    pub open spec fn rendered_voice_spec(
        self,
        waveform: Waveform,
        filter_type: FilterType,
        cutoff: int,
        resonance: int,
        filter_amount: int,
        gain: int,
        sample_rate: u32,
        noise_bits: u32,
    ) -> (Voice, i64, i64) {
        let vib1 = self.vibrato_lfo.step_spec(sample_rate);
        let delta = self.bent_delta_spec(vib1.output_spec());
        let scaled = self.chain_sample_spec(
            waveform,
            filter_type,
            cutoff,
            resonance,
            filter_amount,
            gain,
            sample_rate,
            noise_bits,
        );
        let blocked = self.dc_blocker.step_spec(scaled);
        let nv = Voice {
            phase: (if self.phase + delta >= FP_SCALE {
                self.phase + delta - FP_SCALE
            } else {
                self.phase + delta
            }) as i64,
            amp_envelope: self.amp_envelope.step_spec(),
            filter_cut_envelope: self.filter_cut_envelope.step_spec(),
            filter_res_envelope: self.filter_res_envelope.step_spec(),
            vibrato_lfo: vib1,
            tremolo_lfo: self.tremolo_lfo.step_spec(sample_rate),
            filters: crate::filter::filtered_bank_spec(
                self.filters,
                filter_type,
                cutoff,
                resonance,
                self.cut_env_out_spec(),
                self.res_env_out_spec(),
                self.corrected_sample_spec(waveform, sample_rate, noise_bits),
                sample_rate as int,
            ),
            dc_blocker: DCBlocker { x1: scaled as i64, y1: blocked as i64 },
            ..self
        };
        (
            nv,
            fp_mul_spec(blocked, self.pan_left_gain()) as i64,
            fp_mul_spec(blocked, self.pan_right_gain()) as i64,
        )
    }

    /// The left equal-power gain for this voice's pan, as a mathematical
    /// value: the integer square root of `(1 - pan) * FP_SCALE`.
    pub open spec fn pan_left_gain(self) -> int {
        sqrt_floor(((FP_SCALE - self.pan) * FP_SCALE) as nat) as int
    }

    /// The right equal-power gain for this voice's pan.
    pub open spec fn pan_right_gain(self) -> int {
        sqrt_floor((self.pan * FP_SCALE) as nat) as int
    }
}

/// The integer square root, as a mathematical function.
pub open spec fn sqrt_floor(x: nat) -> nat {
    choose|r: nat| #[trigger] (r * r) <= x < (r + 1) * (r + 1)
}

/// The integer square root exists and is unique, so `sqrt_floor` names the
/// one value with its defining property.
pub proof fn lemma_sqrt_floor_unique(x: nat, r: nat)
    requires
        r * r <= x < (r + 1) * (r + 1),
    ensures
        sqrt_floor(x) == r,
{
    let w = sqrt_floor(x);
    assert(w * w <= x < (w + 1) * (w + 1));
    if w < r {
        assert((w + 1) * (w + 1) <= r * r) by (nonlinear_arith)
            requires
                w + 1 <= r,
        ;
    } else if r < w {
        assert((r + 1) * (r + 1) <= w * w) by (nonlinear_arith)
            requires
                r + 1 <= w,
        ;
    }
}

} // verus!
