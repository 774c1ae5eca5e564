//! The oscillator: a pure function from (shape, phase) to a sample.
//!
//! Phase lives in `[0, FP_SCALE)` (one cycle) and samples in
//! `[-FP_SCALE, FP_SCALE]`. The sine is the classical rational approximation
//! of `sin` on a half turn (exact at 0, 1/2 and 1, within 0.2% elsewhere),
//! chosen because it needs only one multiplication and one division per
//! sample. The sawtooth rises from -1 to 1 over the cycle, the one
//! orientation under which subtracting the polynomial step correction
//! ([`poly_blep`]) cancels the jump at the phase wrap. Noise is derived
//! from caller-supplied generator bits so that the sample is a function of
//! its arguments alone.

use vstd::prelude::*;

use crate::fixed::{FP_HALF, FP_SCALE};

verus! {

/// The available oscillator waveforms.
#[derive(Clone, Copy, PartialEq, Eq, Structural, Debug)]
pub enum Waveform {
    Sine,
    Triangle,
    Sawtooth,
    Square,
    Pulse,
    Noise,
}

/// A valid oscillator phase: inside `[0, FP_SCALE)`.
pub open spec fn phase_ok(p: i64) -> bool {
    0 <= p < FP_SCALE
}

/// `sin(pi * x / FP_SCALE)` on a half turn, `x` in `[0, FP_SCALE]`,
/// by the rational approximation `16t / (5 - 4t)` with `t = x(1 - x)`.
pub open spec fn half_sine_spec(x: int) -> int {
    let t = x * (FP_SCALE - x) / (FP_SCALE as int);
    16 * t * FP_SCALE / (5 * FP_SCALE - 4 * t)
}

/// A full sine cycle over the phase: positive half turn, then the mirrored
/// negative half turn.
pub open spec fn sine_spec(p: int) -> int {
    if p < FP_HALF {
        half_sine_spec(2 * p)
    } else {
        -half_sine_spec(2 * (p - FP_HALF))
    }
}

/// Triangle: 1 at the cycle ends, -1 in the middle.
pub open spec fn triangle_spec(p: int) -> int {
    if p >= FP_HALF {
        4 * (p - FP_HALF) - FP_SCALE
    } else {
        4 * (FP_HALF - p) - FP_SCALE
    }
}

/// Sawtooth rising linearly from -1 to 1 over the cycle.
pub open spec fn sawtooth_spec(p: int) -> int {
    2 * p - FP_SCALE
}

/// Square: 1 on the first half cycle, -1 on the second.
pub open spec fn square_spec(p: int) -> int {
    if p < FP_HALF {
        FP_SCALE as int
    } else {
        -FP_SCALE as int
    }
}

/// Pulse: 1 on the outer quarters of the cycle, -1 in between.
pub open spec fn pulse_spec(p: int) -> int {
    if p < FP_SCALE / 4 || p >= 3 * (FP_SCALE / 4) {
        FP_SCALE as int
    } else {
        -FP_SCALE as int
    }
}

/// A noise sample derived from generator bits, uniform over
/// `[-FP_SCALE, FP_SCALE]`.
pub open spec fn noise_spec(bits: u32) -> int {
    (bits as int) % (2 * FP_SCALE + 1) - FP_SCALE
}

/// The sample each waveform yields at a phase, given generator bits for
/// noise.
pub open spec fn waveform_spec(waveform: Waveform, p: int, bits: u32) -> int {
    match waveform {
        Waveform::Sine => sine_spec(p),
        Waveform::Triangle => triangle_spec(p),
        Waveform::Sawtooth => sawtooth_spec(p),
        Waveform::Square => square_spec(p),
        Waveform::Pulse => pulse_spec(p),
        Waveform::Noise => noise_spec(bits),
    }
}

fn half_sine(x: i64) -> (r: i64)
    requires
        0 <= x <= FP_SCALE,
    ensures
        r == half_sine_spec(x as int),
        0 <= r <= FP_SCALE,
{
    proof {
        assert(x * (FP_SCALE - x) <= 16384 * 65536 && 0 <= x * (FP_SCALE - x))
            by (nonlinear_arith)
            requires
                0 <= x <= 65536,
        ;
    }
    let t: i64 = (x * (FP_SCALE - x)) / FP_SCALE;
    let num: i64 = 16 * t;
    let den: i64 = 5 * FP_SCALE - 4 * t;
    proof {
        assert(num <= den);
        vstd::arithmetic::mul::lemma_mul_inequality(num as int, den as int, FP_SCALE as int);
        assert(num * FP_SCALE == num * FP_SCALE);
        assert(den * FP_SCALE == FP_SCALE * den) by (nonlinear_arith);
        vstd::arithmetic::div_mod::lemma_div_is_ordered(
            num * FP_SCALE,
            FP_SCALE * den,
            den as int,
        );
        vstd::arithmetic::div_mod::lemma_div_multiples_vanish(FP_SCALE as int, den as int);
        vstd::arithmetic::mul::lemma_mul_nonnegative(num as int, FP_SCALE as int);
        vstd::arithmetic::div_mod::lemma_div_pos_is_pos(num * FP_SCALE, den as int);
    }
    (num * FP_SCALE) / den
}

/// The sine sample at a phase.
pub fn fp_sin(p: i64) -> (r: i64)
    requires
        phase_ok(p),
    ensures
        r == sine_spec(p as int),
        -FP_SCALE <= r <= FP_SCALE,
{
    if p < FP_HALF {
        half_sine(2 * p)
    } else {
        -half_sine(2 * (p - FP_HALF))
    }
}

/// The sample the given waveform yields at the given phase; a noise sample
/// is computed from the supplied generator bits.
pub fn generate_waveform(waveform: Waveform, phase: i64, noise_bits: u32) -> (r: i64)
    requires
        phase_ok(phase),
    ensures
        r == waveform_spec(waveform, phase as int, noise_bits),
        -FP_SCALE <= r <= FP_SCALE,
{
    match waveform {
        Waveform::Sine => fp_sin(phase),
        Waveform::Triangle => {
            if phase >= FP_HALF {
                4 * (phase - FP_HALF) - FP_SCALE
            } else {
                4 * (FP_HALF - phase) - FP_SCALE
            }
        },
        Waveform::Sawtooth => 2 * phase - FP_SCALE,
        Waveform::Square => {
            if phase < FP_HALF {
                FP_SCALE
            } else {
                -FP_SCALE
            }
        },
        Waveform::Pulse => {
            if phase < FP_SCALE / 4 || phase >= 3 * (FP_SCALE / 4) {
                FP_SCALE
            } else {
                -FP_SCALE
            }
        },
        Waveform::Noise => {
            let m: u32 = (noise_bits % 131073);
            (m as i64) - FP_SCALE
        },
    }
}

/// The polynomial band-limited step correction near the phase wrap:
/// a parabolic piece on `[0, dt)`, a mirrored piece on `(1 - dt, 1]`,
/// zero in between.
pub open spec fn poly_blep_spec(t: int, dt: int) -> int {
    if dt == 0 {
        0
    } else if t < dt {
        let u = t * FP_SCALE / dt;
        2 * u - u * u / (FP_SCALE as int) - FP_SCALE
    } else if t > FP_SCALE - dt {
        let m = (FP_SCALE - t) * FP_SCALE / dt;
        m * m / (FP_SCALE as int) - 2 * m + FP_SCALE
    } else {
        0
    }
}

/// The step correction at a phase `t`, for a per-sample phase increment
/// `dt`.
pub fn poly_blep(t: i64, dt: i64) -> (r: i64)
    requires
        0 <= t < FP_SCALE,
        0 <= dt < FP_SCALE,
    ensures
        r == poly_blep_spec(t as int, dt as int),
        -FP_SCALE <= r <= FP_SCALE,
{
    if dt == 0 {
        0
    } else if t < dt {
        let u: i64 = (t * FP_SCALE) / dt;
        proof {
            crate::fixed::lemma_ramp_bounds(FP_SCALE as int, t as int, dt as int);
            assert(t * FP_SCALE == FP_SCALE * t) by (nonlinear_arith);
            assert(0 <= u * u <= u * FP_SCALE) by (nonlinear_arith)
                requires
                    0 <= u <= FP_SCALE,
            ;
            assert((u as int) * FP_SCALE / (FP_SCALE as int) == u as int) by {
                vstd::arithmetic::div_mod::lemma_div_by_multiple(u as int, FP_SCALE as int);
            }
            vstd::arithmetic::div_mod::lemma_div_is_ordered(
                u * u,
                u * FP_SCALE,
                FP_SCALE as int,
            );
            vstd::arithmetic::div_mod::lemma_div_pos_is_pos(u * u, FP_SCALE as int);
        }
        2 * u - (u * u) / FP_SCALE - FP_SCALE
    } else if t > FP_SCALE - dt {
        let m: i64 = ((FP_SCALE - t) * FP_SCALE) / dt;
        proof {
            crate::fixed::lemma_ramp_bounds(FP_SCALE as int, FP_SCALE - t, dt as int);
            assert((FP_SCALE - t) * FP_SCALE == FP_SCALE * (FP_SCALE - t)) by (nonlinear_arith);
            assert(0 <= m * m <= m * FP_SCALE) by (nonlinear_arith)
                requires
                    0 <= m <= FP_SCALE,
            ;
            assert((m as int) * FP_SCALE / (FP_SCALE as int) == m as int) by {
                vstd::arithmetic::div_mod::lemma_div_by_multiple(m as int, FP_SCALE as int);
            }
            vstd::arithmetic::div_mod::lemma_div_is_ordered(
                m * m,
                m * FP_SCALE,
                FP_SCALE as int,
            );
            vstd::arithmetic::div_mod::lemma_div_pos_is_pos(m * m, FP_SCALE as int);
        }
        (m * m) / FP_SCALE - 2 * m + FP_SCALE
    } else {
        0
    }
}

/// The corrected sawtooth takes the same value at both representations of
/// the wrap point: the correction's jump cancels the waveform's jump, so the
/// corrected cycle joins up continuously. At the edges of the correction
/// window the correction vanishes, joining the uncorrected middle of the
/// cycle continuously as well.
pub proof fn lemma_poly_blep_wrap_continuity(dt: int)
    requires
        0 < dt <= FP_HALF,
    ensures
        poly_blep_spec(0, dt) == -FP_SCALE,
        poly_blep_spec(FP_SCALE as int, dt) == FP_SCALE,
        sawtooth_spec(0) - poly_blep_spec(0, dt) == 0,
        sawtooth_spec(FP_SCALE as int) - poly_blep_spec(FP_SCALE as int, dt) == 0,
        poly_blep_spec(dt, dt) == 0,
        poly_blep_spec(FP_SCALE - dt, dt) == 0,
{
    assert(0 * FP_SCALE / dt == 0) by {
        vstd::arithmetic::div_mod::lemma_div_of0(dt);
    }
    assert((FP_SCALE - FP_SCALE) * FP_SCALE / dt == 0) by {
        vstd::arithmetic::div_mod::lemma_div_of0(dt);
    }
    assert(0 as int * 0 as int / (FP_SCALE as int) == 0) by {
        vstd::arithmetic::div_mod::lemma_div_of0(FP_SCALE as int);
    }
}

/// Hard clipping to `[-limit, limit]`.
pub fn clip(input: i64, limit: i64) -> (r: i64)
    requires
        limit >= 0,
    ensures
        r == crate::fixed::clamp_spec(input as int, -limit as int, limit as int),
{
    if input > limit {
        limit
    } else if input < -limit {
        -limit
    } else {
        input
    }
}

} // verus!
