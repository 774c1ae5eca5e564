//! The modulation LFO: an attack-ramped low-frequency oscillator used for
//! vibrato (pitch) and tremolo (amplitude).
//!
//! On `trigger` the internal clock and phase reset. Each sample the phase
//! advances by `rate / sample_rate` of a turn, while the ramp clock is
//! clamped to the attack duration: the intensity ramps linearly from 0 to
//! the peak over the attack and then stays there, but the oscillator phase
//! keeps advancing. The output is the shape's sample at the current phase,
//! scaled by the current intensity.

use vstd::prelude::*;

use crate::envelope::MAX_DUR;
use crate::fixed::{fp_mul, fp_mul_spec, FP_SCALE};
use crate::waveform::{
    fp_sin, phase_ok, sawtooth_spec, sine_spec, square_spec, triangle_spec,
};

verus! {

/// The shape of a modulation LFO.
#[derive(Clone, Copy, PartialEq, Eq, Structural, Debug)]
pub enum OscillatorShape {
    Sine,
    Triangle,
    Sawtooth,
    Square,
}

/// An attack-ramped low-frequency oscillator.
#[derive(Clone, Copy, Debug)]
pub struct Modulator {
    /// Oscillation rate in fixed-point Hz, in `[0, FP_SCALE * 1000]`.
    pub modulation_rate: i64,
    /// Peak intensity, fixed point in `[0, FP_SCALE]`.
    pub peak_intensity: i64,
    /// Intensity ramp duration in samples.
    pub attack_duration: u64,
    /// The LFO's waveform.
    pub oscillator_shape: OscillatorShape,
    /// Samples since the last trigger, clamped to the attack duration.
    pub current_time: u64,
    /// Oscillator phase in `[0, FP_SCALE)`.
    pub phase: i64,
}

/// Largest fixed-point rate a modulator accepts (1000 Hz).
pub const MAX_MOD_RATE: i64 = 65536000;

impl Modulator {
    /// The modulator's internal invariant.
    pub open spec fn wf(self) -> bool {
        &&& 0 <= self.modulation_rate <= MAX_MOD_RATE
        &&& 0 <= self.peak_intensity <= FP_SCALE
        &&& self.attack_duration <= MAX_DUR
        &&& self.current_time <= self.attack_duration
        &&& phase_ok(self.phase)
    }

    /// The waveform sample at the current phase.
    pub open spec fn wave_spec(self) -> int {
        match self.oscillator_shape {
            OscillatorShape::Sine => sine_spec(self.phase as int),
            OscillatorShape::Triangle => triangle_spec(self.phase as int),
            OscillatorShape::Sawtooth => sawtooth_spec(self.phase as int),
            OscillatorShape::Square => square_spec(self.phase as int),
        }
    }

    /// The intensity at the current ramp clock: the peak scaled by how far
    /// through the attack the clock is.
    pub open spec fn intensity_spec(self) -> int {
        if self.attack_duration == 0 || self.current_time >= self.attack_duration {
            self.peak_intensity as int
        } else {
            self.peak_intensity * self.current_time / (self.attack_duration as int)
        }
    }

    /// The output: the waveform sample scaled by the ramped intensity.
    pub open spec fn output_spec(self) -> int {
        fp_mul_spec(self.wave_spec(), self.intensity_spec())
    }

    /// One sample's advance: the ramp clock moves toward the attack
    /// duration, the phase advances by `rate / sample_rate` of a turn and
    /// wraps.
    pub open spec fn step_spec(self, sample_rate: u32) -> Modulator {
        let t = if self.current_time < self.attack_duration {
            (self.current_time + 1) as u64
        } else {
            self.current_time
        };
        let inc = (self.modulation_rate as int) / (sample_rate as int);
        let p = if inc >= FP_SCALE {
            self.phase as int
        } else if self.phase + inc >= FP_SCALE {
            self.phase + inc - FP_SCALE
        } else {
            self.phase + inc
        };
        Modulator { current_time: t, phase: p as i64, ..self }
    }

    /// Builds a modulator resting at the start of its ramp.
    pub fn new(
        modulation_rate: i64,
        peak_intensity: i64,
        attack_duration: u64,
        oscillator_shape: OscillatorShape,
    ) -> (r: Modulator)
        requires
            0 <= modulation_rate <= MAX_MOD_RATE,
            0 <= peak_intensity <= FP_SCALE,
            attack_duration <= MAX_DUR,
        ensures
            r.wf(),
            r == (Modulator {
                modulation_rate,
                peak_intensity,
                attack_duration,
                oscillator_shape,
                current_time: 0,
                phase: 0,
            }),
    {
        Modulator {
            modulation_rate,
            peak_intensity,
            attack_duration,
            oscillator_shape,
            current_time: 0,
            phase: 0,
        }
    }

    /// Resets the ramp clock and the phase.
    pub fn trigger(&mut self)
        requires
            old(self).wf(),
        ensures
            final(self).wf(),
            *final(self) == (Modulator { current_time: 0, phase: 0, ..*old(self) }),
    {
        self.current_time = 0;
        self.phase = 0;
    }

    /// Advances the modulator by one sample and yields its output.
    pub fn get_modulation(&mut self, sample_rate: u32) -> (r: i64)
        requires
            old(self).wf(),
            sample_rate >= 1,
        ensures
            final(self).wf(),
            *final(self) == old(self).step_spec(sample_rate),
            r == final(self).output_spec(),
            -FP_SCALE <= r <= FP_SCALE,
    {
        if self.current_time < self.attack_duration {
            self.current_time = self.current_time + 1;
        }
        let inc: i64 = self.modulation_rate / (sample_rate as i64);
        if inc < FP_SCALE {
            self.phase = self.phase + inc;
            if self.phase >= FP_SCALE {
                self.phase = self.phase - FP_SCALE;
            }
        }
        let wave = match self.oscillator_shape {
            OscillatorShape::Sine => fp_sin(self.phase),
            OscillatorShape::Triangle => {
                if self.phase >= crate::fixed::FP_HALF {
                    4 * (self.phase - crate::fixed::FP_HALF) - FP_SCALE
                } else {
                    4 * (crate::fixed::FP_HALF - self.phase) - FP_SCALE
                }
            },
            OscillatorShape::Sawtooth => 2 * self.phase - FP_SCALE,
            OscillatorShape::Square => {
                if self.phase < crate::fixed::FP_HALF {
                    FP_SCALE
                } else {
                    -FP_SCALE
                }
            },
        };
        let intensity: i64 = if self.attack_duration == 0 || self.current_time
            >= self.attack_duration {
            self.peak_intensity
        } else {
            proof {
                assert(self.peak_intensity * self.current_time <= 65536 * (MAX_DUR as int))
                    by (nonlinear_arith)
                    requires
                        0 <= self.peak_intensity <= 65536,
                        self.current_time <= MAX_DUR,
                ;
                crate::fixed::lemma_ramp_bounds(
                    self.peak_intensity as int,
                    self.current_time as int,
                    self.attack_duration as int,
                );
            }
            ((self.peak_intensity as u64 * self.current_time)
                / self.attack_duration) as i64
        };
        let r = fp_mul(wave, intensity);
        proof {
            assert(fp_mul_spec(wave as int, intensity as int) <= FP_SCALE
                && fp_mul_spec(wave as int, intensity as int) >= -FP_SCALE) by (nonlinear_arith)
                requires
                    -65536 <= wave as int <= 65536,
                    0 <= intensity as int <= 65536,
            ;
        }
        r
    }
}

} // verus!
