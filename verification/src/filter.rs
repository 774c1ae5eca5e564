//! The filter bank: five interchangeable filter algorithms plus a
//! DC-blocking filter.
//!
//! Each algorithm owns its own feedback memory, which persists across
//! samples, and caches its derived coefficients. A cached coefficient is
//! recomputed only when the cutoff or resonance it was derived from moves by
//! more than a small epsilon, so holding the parameters steady costs no
//! per-sample coefficient work. Cutoff is carried in plain Hz, resonance as
//! a fixed-point fraction of one, signals in the fixed-point signal range
//! (see [`crate::fixed`]). Every arithmetic step saturates, so each
//! algorithm's state stays inside the signal range whatever parameter
//! automation it sees.

use vstd::prelude::*;

use crate::fixed::{
    clamp_spec, fp_add, fp_add_spec, fp_clamp, fp_div, fp_div_spec, fp_in_sig, fp_mul,
    fp_mul_spec, FP_SCALE, SIG_MAX,
};

verus! {

/// Two pi in fixed point.
pub const TWO_PI_FP: i64 = 411775;

/// Lowest cutoff frequency, in Hz.
pub const CUT_MIN: i64 = 20;

/// Highest cutoff frequency the types store, in Hz.
pub const CUT_MAX: i64 = 192000;

/// Highest audible cutoff, in Hz: the modulated cutoff is clamped here.
pub const AUDIO_CUT_MAX: i64 = 20000;

/// Lowest accepted sample rate, in Hz.
pub const RATE_MIN: u32 = 40;

/// Highest accepted sample rate, in Hz.
pub const RATE_MAX: u32 = 192000;

/// Cutoff changes of at most this many Hz leave coefficients untouched.
pub const CUTOFF_EPS: i64 = 1;

/// Resonance changes of at most this much (about 0.001) leave coefficients
/// untouched.
pub const RES_EPS: i64 = 65;

/// The floor (about 0.01) the state-variable filter keeps its resonance
/// above, to avoid dividing by zero.
pub const RES_FLOOR: i64 = 655;

/// The DC blocker's fixed pole, 0.995 in fixed point.
pub const R_DC: i64 = 65208;

/// The selectable filter algorithms.
#[derive(Clone, Copy, PartialEq, Eq, Structural, Debug)]
pub enum FilterType {
    Bypass,
    Lowpass,
    Bandpass,
    Highpass,
    Notch,
    Statevariable,
}

/// A valid stored cutoff.
pub open spec fn cutoff_ok(c: i64) -> bool {
    CUT_MIN <= c <= CUT_MAX
}

/// A valid stored resonance.
pub open spec fn resonance_ok(r: i64) -> bool {
    0 <= r <= FP_SCALE
}

/// A valid sample rate.
pub open spec fn rate_ok(r: u32) -> bool {
    RATE_MIN <= r <= RATE_MAX
}

/// The one-pole coefficient `1 / (2 pi cutoff / rate)`, in fixed point,
/// saturated to the signal range.
pub open spec fn onepole_coeff_spec(cutoff: int, rate: int) -> int {
    clamp_spec(
        rate * FP_SCALE * FP_SCALE / (TWO_PI_FP * cutoff),
        -SIG_MAX as int,
        SIG_MAX as int,
    )
}

fn onepole_coeff(cutoff: i64, rate: u32) -> (c: i64)
    requires
        cutoff_ok(cutoff),
        rate_ok(rate),
    ensures
        c == onepole_coeff_spec(cutoff as int, rate as int),
        fp_in_sig(c),
{
    let numer: i64 = (rate as i64) * FP_SCALE * FP_SCALE;
    let denom: i64 = TWO_PI_FP * cutoff;
    fp_clamp(numer / denom)
}

/// Whether a requested parameter is within epsilon of the cached one.
pub open spec fn within_eps(req: int, cached: int, eps: int) -> bool {
    -eps <= req - cached <= eps
}

/// The parameter a filter ends up caching: the old one if the request is
/// within epsilon of it, else the request.
pub open spec fn eps_keep(cached: int, req: int, eps: int) -> int {
    if within_eps(req, cached, eps) {
        cached
    } else {
        req
    }
}

/// A one-pole lowpass: `out' = c * in + res * out`.
#[derive(Clone, Copy, Debug)]
pub struct LowpassFilter {
    /// Cached cutoff in Hz.
    pub cutoff: i64,
    /// Cached resonance (the feedback term), fixed point.
    pub resonance: i64,
    /// Cached sample rate in Hz.
    pub sample_rate: u32,
    /// The coefficient derived from the cached cutoff and rate.
    pub c: i64,
    /// Feedback memory: the previous output.
    pub prev_output: i64,
}

impl LowpassFilter {
    /// The filter's invariant: the cached coefficient belongs to the cached
    /// cutoff and rate, and the memory is a signal.
    pub open spec fn wf(self) -> bool {
        &&& cutoff_ok(self.cutoff)
        &&& resonance_ok(self.resonance)
        &&& rate_ok(self.sample_rate)
        &&& self.c == onepole_coeff_spec(self.cutoff as int, self.sample_rate as int)
        &&& fp_in_sig(self.prev_output)
    }

    /// One processing step: the new output, which is also the new memory.
    pub open spec fn step_spec(self, input: int) -> int {
        fp_add_spec(
            fp_mul_spec(self.c as int, input),
            fp_mul_spec(self.resonance as int, self.prev_output as int),
        )
    }

    /// The filter after it adopts a sample rate, cutoff and resonance, each
    /// parameter kept when the request is within its epsilon.
    pub open spec fn tuned_spec(self, cutoff: int, resonance: int, rate: int) -> LowpassFilter {
        let ck = eps_keep(self.cutoff as int, cutoff, CUTOFF_EPS as int);
        let rk = eps_keep(self.resonance as int, resonance, RES_EPS as int);
        LowpassFilter {
            cutoff: ck as i64,
            resonance: rk as i64,
            sample_rate: rate as u32,
            c: onepole_coeff_spec(ck, rate) as i64,
            prev_output: self.prev_output,
        }
    }

    /// Builds a lowpass with cleared memory.
    pub fn new(cutoff: i64, resonance: i64, sample_rate: u32) -> (r: LowpassFilter)
        requires
            cutoff_ok(cutoff),
            resonance_ok(resonance),
            rate_ok(sample_rate),
        ensures
            r.wf(),
            r.cutoff == cutoff,
            r.resonance == resonance,
            r.sample_rate == sample_rate,
            r.prev_output == 0,
    {
        let c = onepole_coeff(cutoff, sample_rate);
        LowpassFilter { cutoff, resonance, sample_rate, c, prev_output: 0 }
    }

    /// Adopts a new cutoff; a move within epsilon leaves the filter, and in
    /// particular its coefficient, untouched.
    pub fn set_cutoff(&mut self, cutoff: i64)
        requires
            old(self).wf(),
            cutoff_ok(cutoff),
        ensures
            final(self).wf(),
            within_eps(cutoff as int, old(self).cutoff as int, CUTOFF_EPS as int) ==> *final(self) == *old(self),
            !within_eps(cutoff as int, old(self).cutoff as int, CUTOFF_EPS as int) ==> *final(self) == (LowpassFilter {
                cutoff,
                c: onepole_coeff_spec(cutoff as int, old(self).sample_rate as int) as i64,
                ..*old(self)
            }),
    {
        let d = if cutoff >= self.cutoff {
            cutoff - self.cutoff
        } else {
            self.cutoff - cutoff
        };
        if d > CUTOFF_EPS {
            self.cutoff = cutoff;
            self.c = onepole_coeff(cutoff, self.sample_rate);
        }
    }

    /// Adopts a new resonance; a move within epsilon is ignored.
    pub fn set_resonance(&mut self, resonance: i64)
        requires
            old(self).wf(),
            resonance_ok(resonance),
        ensures
            final(self).wf(),
            within_eps(resonance as int, old(self).resonance as int, RES_EPS as int) ==> *final(self) == *old(self),
            !within_eps(resonance as int, old(self).resonance as int, RES_EPS as int) ==> *final(self) == (LowpassFilter { resonance, ..*old(self) }),
    {
        let d = if resonance >= self.resonance {
            resonance - self.resonance
        } else {
            self.resonance - resonance
        };
        if d > RES_EPS {
            self.resonance = resonance;
        }
    }

    /// Adopts a new sample rate; the same rate leaves the filter untouched.
    pub fn set_sample_rate(&mut self, sample_rate: u32)
        requires
            old(self).wf(),
            rate_ok(sample_rate),
        ensures
            final(self).wf(),
            sample_rate == old(self).sample_rate ==> *final(self) == *old(self),
            sample_rate != old(self).sample_rate ==> *final(self) == (LowpassFilter {
                sample_rate,
                c: onepole_coeff_spec(old(self).cutoff as int, sample_rate as int) as i64,
                ..*old(self)
            }),
    {
        if sample_rate != self.sample_rate {
            self.sample_rate = sample_rate;
            self.c = onepole_coeff(self.cutoff, sample_rate);
        }
    }

    /// Processes one sample.
    pub fn process(&mut self, input: i64) -> (r: i64)
        requires
            old(self).wf(),
            fp_in_sig(input),
        ensures
            final(self).wf(),
            r == old(self).step_spec(input as int),
            *final(self) == (LowpassFilter { prev_output: r, ..*old(self) }),
            fp_in_sig(r),
    {
        let out = fp_add(fp_mul(self.c, input), fp_mul(self.resonance, self.prev_output));
        self.prev_output = out;
        out
    }
}

/// A one-pole highpass: `out' = c * (in - prev_in + (1 - res) * out)`.
#[derive(Clone, Copy, Debug)]
pub struct HighpassFilter {
    /// Cached cutoff in Hz.
    pub cutoff: i64,
    /// Cached resonance, fixed point.
    pub resonance: i64,
    /// Cached sample rate in Hz.
    pub sample_rate: u32,
    /// The coefficient derived from the cached cutoff and rate.
    pub c: i64,
    /// Feedback memory: the previous input.
    pub prev_input: i64,
    /// Feedback memory: the previous output.
    pub prev_output: i64,
}

impl HighpassFilter {
    /// The filter's invariant.
    pub open spec fn wf(self) -> bool {
        &&& cutoff_ok(self.cutoff)
        &&& resonance_ok(self.resonance)
        &&& rate_ok(self.sample_rate)
        &&& self.c == onepole_coeff_spec(self.cutoff as int, self.sample_rate as int)
        &&& fp_in_sig(self.prev_input)
        &&& fp_in_sig(self.prev_output)
    }

    /// One processing step: the new output.
    pub open spec fn step_spec(self, input: int) -> int {
        fp_mul_spec(
            self.c as int,
            fp_add_spec(
                clamp_spec(input - self.prev_input, -SIG_MAX as int, SIG_MAX as int),
                fp_mul_spec(FP_SCALE - self.resonance, self.prev_output as int),
            ),
        )
    }

    /// The filter after it adopts a sample rate, cutoff and resonance, each
    /// parameter kept when the request is within its epsilon.
    pub open spec fn tuned_spec(self, cutoff: int, resonance: int, rate: int) -> HighpassFilter {
        let ck = eps_keep(self.cutoff as int, cutoff, CUTOFF_EPS as int);
        let rk = eps_keep(self.resonance as int, resonance, RES_EPS as int);
        HighpassFilter {
            cutoff: ck as i64,
            resonance: rk as i64,
            sample_rate: rate as u32,
            c: onepole_coeff_spec(ck, rate) as i64,
            prev_input: self.prev_input,
            prev_output: self.prev_output,
        }
    }

    /// Builds a highpass with cleared memory.
    pub fn new(cutoff: i64, resonance: i64, sample_rate: u32) -> (r: HighpassFilter)
        requires
            cutoff_ok(cutoff),
            resonance_ok(resonance),
            rate_ok(sample_rate),
        ensures
            r.wf(),
            r.cutoff == cutoff,
            r.resonance == resonance,
            r.sample_rate == sample_rate,
            r.prev_input == 0,
            r.prev_output == 0,
    {
        let c = onepole_coeff(cutoff, sample_rate);
        HighpassFilter { cutoff, resonance, sample_rate, c, prev_input: 0, prev_output: 0 }
    }

    /// Adopts a new cutoff; a move within epsilon leaves the filter
    /// untouched.
    pub fn set_cutoff(&mut self, cutoff: i64)
        requires
            old(self).wf(),
            cutoff_ok(cutoff),
        ensures
            final(self).wf(),
            within_eps(cutoff as int, old(self).cutoff as int, CUTOFF_EPS as int) ==> *final(self) == *old(self),
            !within_eps(cutoff as int, old(self).cutoff as int, CUTOFF_EPS as int) ==> *final(self) == (HighpassFilter {
                cutoff,
                c: onepole_coeff_spec(cutoff as int, old(self).sample_rate as int) as i64,
                ..*old(self)
            }),
    {
        let d = if cutoff >= self.cutoff {
            cutoff - self.cutoff
        } else {
            self.cutoff - cutoff
        };
        if d > CUTOFF_EPS {
            self.cutoff = cutoff;
            self.c = onepole_coeff(cutoff, self.sample_rate);
        }
    }

    /// Adopts a new resonance; a move within epsilon is ignored.
    pub fn set_resonance(&mut self, resonance: i64)
        requires
            old(self).wf(),
            resonance_ok(resonance),
        ensures
            final(self).wf(),
            within_eps(resonance as int, old(self).resonance as int, RES_EPS as int) ==> *final(self) == *old(self),
            !within_eps(resonance as int, old(self).resonance as int, RES_EPS as int) ==> *final(self) == (HighpassFilter { resonance, ..*old(self) }),
    {
        let d = if resonance >= self.resonance {
            resonance - self.resonance
        } else {
            self.resonance - resonance
        };
        if d > RES_EPS {
            self.resonance = resonance;
        }
    }

    /// Adopts a new sample rate; the same rate leaves the filter untouched.
    pub fn set_sample_rate(&mut self, sample_rate: u32)
        requires
            old(self).wf(),
            rate_ok(sample_rate),
        ensures
            final(self).wf(),
            sample_rate == old(self).sample_rate ==> *final(self) == *old(self),
            sample_rate != old(self).sample_rate ==> *final(self) == (HighpassFilter {
                sample_rate,
                c: onepole_coeff_spec(old(self).cutoff as int, sample_rate as int) as i64,
                ..*old(self)
            }),
    {
        if sample_rate != self.sample_rate {
            self.sample_rate = sample_rate;
            self.c = onepole_coeff(self.cutoff, sample_rate);
        }
    }

    /// Processes one sample.
    pub fn process(&mut self, input: i64) -> (r: i64)
        requires
            old(self).wf(),
            fp_in_sig(input),
        ensures
            final(self).wf(),
            r == old(self).step_spec(input as int),
            *final(self) == (HighpassFilter { prev_input: input, prev_output: r, ..*old(self) }),
            fp_in_sig(r),
    {
        let d = fp_clamp(input - self.prev_input);
        let fb = fp_mul(FP_SCALE - self.resonance, self.prev_output);
        let out = fp_mul(self.c, fp_add(d, fb));
        self.prev_input = input;
        self.prev_output = out;
        out
    }
}

/// A one-pole bandpass: `out' = c * (in - out) + (1 - res) * out`.
#[derive(Clone, Copy, Debug)]
pub struct BandpassFilter {
    /// Cached cutoff in Hz.
    pub cutoff: i64,
    /// Cached resonance, fixed point.
    pub resonance: i64,
    /// Cached sample rate in Hz.
    pub sample_rate: u32,
    /// The coefficient derived from the cached cutoff and rate.
    pub c: i64,
    /// Feedback memory: the previous input.
    pub prev_input: i64,
    /// Feedback memory: the previous output.
    pub prev_output: i64,
}

impl BandpassFilter {
    /// The filter's invariant.
    pub open spec fn wf(self) -> bool {
        &&& cutoff_ok(self.cutoff)
        &&& resonance_ok(self.resonance)
        &&& rate_ok(self.sample_rate)
        &&& self.c == onepole_coeff_spec(self.cutoff as int, self.sample_rate as int)
        &&& fp_in_sig(self.prev_input)
        &&& fp_in_sig(self.prev_output)
    }

    /// One processing step: the new output.
    pub open spec fn step_spec(self, input: int) -> int {
        fp_add_spec(
            fp_mul_spec(
                self.c as int,
                clamp_spec(input - self.prev_output, -SIG_MAX as int, SIG_MAX as int),
            ),
            fp_mul_spec(FP_SCALE - self.resonance, self.prev_output as int),
        )
    }

    /// The filter after it adopts a sample rate, cutoff and resonance, each
    /// parameter kept when the request is within its epsilon.
    pub open spec fn tuned_spec(self, cutoff: int, resonance: int, rate: int) -> BandpassFilter {
        let ck = eps_keep(self.cutoff as int, cutoff, CUTOFF_EPS as int);
        let rk = eps_keep(self.resonance as int, resonance, RES_EPS as int);
        BandpassFilter {
            cutoff: ck as i64,
            resonance: rk as i64,
            sample_rate: rate as u32,
            c: onepole_coeff_spec(ck, rate) as i64,
            prev_input: self.prev_input,
            prev_output: self.prev_output,
        }
    }

    /// Builds a bandpass with cleared memory.
    pub fn new(cutoff: i64, resonance: i64, sample_rate: u32) -> (r: BandpassFilter)
        requires
            cutoff_ok(cutoff),
            resonance_ok(resonance),
            rate_ok(sample_rate),
        ensures
            r.wf(),
            r.cutoff == cutoff,
            r.resonance == resonance,
            r.sample_rate == sample_rate,
            r.prev_input == 0,
            r.prev_output == 0,
    {
        let c = onepole_coeff(cutoff, sample_rate);
        BandpassFilter { cutoff, resonance, sample_rate, c, prev_input: 0, prev_output: 0 }
    }

    /// Adopts a new cutoff; a move within epsilon leaves the filter
    /// untouched.
    pub fn set_cutoff(&mut self, cutoff: i64)
        requires
            old(self).wf(),
            cutoff_ok(cutoff),
        ensures
            final(self).wf(),
            within_eps(cutoff as int, old(self).cutoff as int, CUTOFF_EPS as int) ==> *final(self) == *old(self),
            !within_eps(cutoff as int, old(self).cutoff as int, CUTOFF_EPS as int) ==> *final(self) == (BandpassFilter {
                cutoff,
                c: onepole_coeff_spec(cutoff as int, old(self).sample_rate as int) as i64,
                ..*old(self)
            }),
    {
        let d = if cutoff >= self.cutoff {
            cutoff - self.cutoff
        } else {
            self.cutoff - cutoff
        };
        if d > CUTOFF_EPS {
            self.cutoff = cutoff;
            self.c = onepole_coeff(cutoff, self.sample_rate);
        }
    }

    /// Adopts a new resonance; a move within epsilon is ignored.
    pub fn set_resonance(&mut self, resonance: i64)
        requires
            old(self).wf(),
            resonance_ok(resonance),
        ensures
            final(self).wf(),
            within_eps(resonance as int, old(self).resonance as int, RES_EPS as int) ==> *final(self) == *old(self),
            !within_eps(resonance as int, old(self).resonance as int, RES_EPS as int) ==> *final(self) == (BandpassFilter { resonance, ..*old(self) }),
    {
        let d = if resonance >= self.resonance {
            resonance - self.resonance
        } else {
            self.resonance - resonance
        };
        if d > RES_EPS {
            self.resonance = resonance;
        }
    }

    /// Adopts a new sample rate; the same rate leaves the filter untouched.
    pub fn set_sample_rate(&mut self, sample_rate: u32)
        requires
            old(self).wf(),
            rate_ok(sample_rate),
        ensures
            final(self).wf(),
            sample_rate == old(self).sample_rate ==> *final(self) == *old(self),
            sample_rate != old(self).sample_rate ==> *final(self) == (BandpassFilter {
                sample_rate,
                c: onepole_coeff_spec(old(self).cutoff as int, sample_rate as int) as i64,
                ..*old(self)
            }),
    {
        if sample_rate != self.sample_rate {
            self.sample_rate = sample_rate;
            self.c = onepole_coeff(self.cutoff, sample_rate);
        }
    }

    /// Processes one sample.
    pub fn process(&mut self, input: i64) -> (r: i64)
        requires
            old(self).wf(),
            fp_in_sig(input),
        ensures
            final(self).wf(),
            r == old(self).step_spec(input as int),
            *final(self) == (BandpassFilter { prev_input: input, prev_output: r, ..*old(self) }),
            fp_in_sig(r),
    {
        let d = fp_clamp(input - self.prev_output);
        let out = fp_add(fp_mul(self.c, d), fp_mul(FP_SCALE - self.resonance, self.prev_output));
        self.prev_input = input;
        self.prev_output = out;
        out
    }
}

/// The identity filter, used when no filtering is selected.
#[derive(Clone, Copy, Debug)]
pub struct NoneFilter {
    /// Stored cutoff in Hz (unused by processing).
    pub cutoff: i64,
    /// Stored resonance (unused by processing).
    pub resonance: i64,
    /// Stored sample rate in Hz (unused by processing).
    pub sample_rate: u32,
}

impl NoneFilter {
    /// Builds a passthrough filter.
    pub fn new(cutoff: i64, resonance: i64, sample_rate: u32) -> (r: NoneFilter)
        ensures
            r == (NoneFilter { cutoff, resonance, sample_rate }),
    {
        NoneFilter { cutoff, resonance, sample_rate }
    }

    /// Stores a cutoff.
    pub fn set_cutoff(&mut self, cutoff: i64)
        ensures
            *final(self) == (NoneFilter { cutoff, ..*old(self) }),
    {
        self.cutoff = cutoff;
    }

    /// Stores a resonance.
    pub fn set_resonance(&mut self, resonance: i64)
        ensures
            *final(self) == (NoneFilter { resonance, ..*old(self) }),
    {
        self.resonance = resonance;
    }

    /// Stores a sample rate.
    pub fn set_sample_rate(&mut self, sample_rate: u32)
        ensures
            *final(self) == (NoneFilter { sample_rate, ..*old(self) }),
    {
        self.sample_rate = sample_rate;
    }

    /// Passes the input through unchanged.
    pub fn process(&mut self, input: i64) -> (r: i64)
        ensures
            r == input,
            *final(self) == *old(self),
    {
        input
    }
}

/// A DC blocker: the single-pole high-pass
/// `y' = x - x1 + R_DC * y1` with its fixed pole, applied after mixing to
/// remove constant offset.
#[derive(Clone, Copy, Debug)]
pub struct DCBlocker {
    /// The previous input.
    pub x1: i64,
    /// The previous output.
    pub y1: i64,
}

impl DCBlocker {
    /// The blocker's invariant: its memory is a signal.
    pub open spec fn wf(self) -> bool {
        fp_in_sig(self.x1) && fp_in_sig(self.y1)
    }

    /// One processing step: the new output.
    pub open spec fn step_spec(self, input: int) -> int {
        fp_add_spec(
            clamp_spec(input - self.x1, -SIG_MAX as int, SIG_MAX as int),
            fp_mul_spec(R_DC as int, self.y1 as int),
        )
    }

    /// Builds a DC blocker with cleared memory.
    pub fn new() -> (r: DCBlocker)
        ensures
            r.wf(),
            r == (DCBlocker { x1: 0, y1: 0 }),
    {
        DCBlocker { x1: 0, y1: 0 }
    }

    /// Processes one sample.
    pub fn process(&mut self, input: i64) -> (r: i64)
        requires
            old(self).wf(),
            fp_in_sig(input),
        ensures
            final(self).wf(),
            r == old(self).step_spec(input as int),
            *final(self) == (DCBlocker { x1: input, y1: r }),
            fp_in_sig(r),
    {
        let out = fp_add(fp_clamp(input - self.x1), fp_mul(R_DC, self.y1));
        self.x1 = input;
        self.y1 = out;
        out
    }
}


/// The cutoff as a fraction of the sample rate, in fixed point, clamped to
/// less than one turn.
pub open spec fn turns_spec(cutoff: int, rate: int) -> int {
    clamp_spec(cutoff * FP_SCALE / rate, 0, FP_SCALE - 1)
}

fn turns(cutoff: i64, rate: u32) -> (t: i64)
    requires
        cutoff_ok(cutoff),
        rate_ok(rate),
    ensures
        t == turns_spec(cutoff as int, rate as int),
        0 <= t < FP_SCALE,
{
    proof {
        assert(cutoff * FP_SCALE <= 192000 * 65536 && cutoff * FP_SCALE >= 0)
            by (nonlinear_arith)
            requires
                20 <= cutoff <= 192000,
        ;
        vstd::arithmetic::div_mod::lemma_div_pos_is_pos(cutoff * FP_SCALE, rate as int);
    }
    let raw: i64 = (cutoff * FP_SCALE) / (rate as i64);
    if raw > FP_SCALE - 1 {
        FP_SCALE - 1
    } else {
        raw
    }
}

/// The sine of the cutoff angle `2 pi cutoff / rate`.
pub open spec fn angle_sin_spec(cutoff: int, rate: int) -> int {
    crate::waveform::sine_spec(turns_spec(cutoff, rate))
}

/// The cosine of the cutoff angle, read off the sine a quarter turn on.
pub open spec fn angle_cos_spec(cutoff: int, rate: int) -> int {
    let t = turns_spec(cutoff, rate);
    let tq = if t + 16384 >= FP_SCALE {
        t + 16384 - FP_SCALE
    } else {
        t + 16384
    };
    crate::waveform::sine_spec(tq)
}

/// The notch bandwidth parameter: half of `sin(angle)` scaled by the
/// normalized bandwidth.
pub open spec fn notch_alpha_spec(cutoff: int, bandwidth: int, rate: int) -> int {
    crate::fixed::tdiv(fp_mul_spec(angle_sin_spec(cutoff, rate), bandwidth), 2)
}

/// The notch normalization factor `1 / (1 + alpha)`.
pub open spec fn notch_norm_spec(cutoff: int, bandwidth: int, rate: int) -> int {
    fp_div_spec(FP_SCALE as int, FP_SCALE + notch_alpha_spec(cutoff, bandwidth, rate))
}

/// The notch feedforward/feedback midcoefficient `-2 cos(angle) / (1 + alpha)`.
pub open spec fn notch_a1_spec(cutoff: int, bandwidth: int, rate: int) -> int {
    fp_mul_spec(-2 * angle_cos_spec(cutoff, rate), notch_norm_spec(cutoff, bandwidth, rate))
}

/// The notch trailing feedback coefficient `(1 - alpha) / (1 + alpha)`.
pub open spec fn notch_b2_spec(cutoff: int, bandwidth: int, rate: int) -> int {
    fp_mul_spec(
        FP_SCALE - notch_alpha_spec(cutoff, bandwidth, rate),
        notch_norm_spec(cutoff, bandwidth, rate),
    )
}

/// A biquad notch: center from the cutoff, width from the bandwidth, both
/// renormalized whenever either drifts past its epsilon.
#[derive(Clone, Copy, Debug)]
pub struct NotchFilter {
    /// Cached center frequency in Hz.
    pub cutoff: i64,
    /// Cached normalized bandwidth, fixed point.
    pub bandwidth: i64,
    /// Cached sample rate in Hz.
    pub sample_rate: u32,
    /// Feedback memory.
    pub buf0: i64,
    /// Feedback memory, one sample older.
    pub buf1: i64,
    /// Leading feedforward coefficient.
    pub a0: i64,
    /// Middle feedforward coefficient.
    pub a1: i64,
    /// Trailing feedforward coefficient.
    pub a2: i64,
    /// Middle feedback coefficient.
    pub b1: i64,
    /// Trailing feedback coefficient.
    pub b2: i64,
}

impl NotchFilter {
    /// The filter's invariant: the coefficients belong to the cached
    /// parameters.
    pub open spec fn wf(self) -> bool {
        &&& cutoff_ok(self.cutoff)
        &&& resonance_ok(self.bandwidth)
        &&& rate_ok(self.sample_rate)
        &&& self.a0 == notch_norm_spec(
            self.cutoff as int,
            self.bandwidth as int,
            self.sample_rate as int,
        )
        &&& self.a1 == notch_a1_spec(
            self.cutoff as int,
            self.bandwidth as int,
            self.sample_rate as int,
        )
        &&& self.a2 == self.a0
        &&& self.b1 == self.a1
        &&& self.b2 == notch_b2_spec(
            self.cutoff as int,
            self.bandwidth as int,
            self.sample_rate as int,
        )
        &&& fp_in_sig(self.buf0)
        &&& fp_in_sig(self.buf1)
        &&& fp_in_sig(self.a0)
        &&& fp_in_sig(self.a1)
        &&& fp_in_sig(self.a2)
        &&& fp_in_sig(self.b1)
        &&& fp_in_sig(self.b2)
    }

    /// One processing step: the new output.
    pub open spec fn step_spec(self, input: int) -> int {
        fp_add_spec(
            fp_add_spec(
                fp_add_spec(
                    fp_mul_spec(self.a0 as int, input),
                    fp_mul_spec(self.a1 as int, self.buf0 as int),
                ),
                fp_mul_spec(self.a2 as int, self.buf1 as int),
            ),
            fp_add_spec(
                -fp_mul_spec(self.b1 as int, self.buf0 as int),
                -fp_mul_spec(self.b2 as int, self.buf1 as int),
            ),
        )
    }

    /// The filter after it adopts a sample rate, center and bandwidth, each
    /// parameter kept when the request is within its epsilon.
    pub open spec fn tuned_spec(self, cutoff: int, resonance: int, rate: int) -> NotchFilter {
        let ck = eps_keep(self.cutoff as int, cutoff, CUTOFF_EPS as int);
        let bk = eps_keep(self.bandwidth as int, resonance, RES_EPS as int);
        NotchFilter {
            cutoff: ck as i64,
            bandwidth: bk as i64,
            sample_rate: rate as u32,
            buf0: self.buf0,
            buf1: self.buf1,
            a0: notch_norm_spec(ck, bk, rate) as i64,
            a1: notch_a1_spec(ck, bk, rate) as i64,
            a2: notch_norm_spec(ck, bk, rate) as i64,
            b1: notch_a1_spec(ck, bk, rate) as i64,
            b2: notch_b2_spec(ck, bk, rate) as i64,
        }
    }

    /// Builds a notch with cleared memory and freshly computed
    /// coefficients.
    pub fn new(cutoff: i64, bandwidth: i64, sample_rate: u32) -> (r: NotchFilter)
        requires
            cutoff_ok(cutoff),
            resonance_ok(bandwidth),
            rate_ok(sample_rate),
        ensures
            r.wf(),
            r.cutoff == cutoff,
            r.bandwidth == bandwidth,
            r.sample_rate == sample_rate,
            r.buf0 == 0,
            r.buf1 == 0,
    {
        let mut filter = NotchFilter {
            cutoff,
            bandwidth,
            sample_rate,
            buf0: 0,
            buf1: 0,
            a0: 0,
            a1: 0,
            a2: 0,
            b1: 0,
            b2: 0,
        };
        filter.calculate_coefficients();
        filter
    }

    /// Recomputes the biquad coefficients from the cached center, bandwidth
    /// and rate.
    pub fn calculate_coefficients(&mut self)
        requires
            cutoff_ok(old(self).cutoff),
            resonance_ok(old(self).bandwidth),
            rate_ok(old(self).sample_rate),
            fp_in_sig(old(self).buf0),
            fp_in_sig(old(self).buf1),
        ensures
            final(self).wf(),
            final(self).cutoff == old(self).cutoff,
            final(self).bandwidth == old(self).bandwidth,
            final(self).sample_rate == old(self).sample_rate,
            final(self).buf0 == old(self).buf0,
            final(self).buf1 == old(self).buf1,
    {
        let t = turns(self.cutoff, self.sample_rate);
        let sin_wc = crate::waveform::fp_sin(t);
        let tq: i64 = if t + 16384 >= FP_SCALE {
            t + 16384 - FP_SCALE
        } else {
            t + 16384
        };
        let cos_wc = crate::waveform::fp_sin(tq);
        let prod = fp_mul(sin_wc, self.bandwidth);
        proof {
            assert(crate::fixed::fp_mul_spec(sin_wc as int, self.bandwidth as int) <= FP_SCALE
                && crate::fixed::fp_mul_spec(sin_wc as int, self.bandwidth as int) >= -FP_SCALE)
                by (nonlinear_arith)
                requires
                    -65536 <= sin_wc as int <= 65536,
                    0 <= self.bandwidth as int <= 65536,
            ;
        }
        let alpha: i64 = if prod >= 0 {
            prod / 2
        } else {
            -((-prod) / 2)
        };
        let norm = fp_div(FP_SCALE, FP_SCALE + alpha);
        let mc: i64 = -(cos_wc + cos_wc);
        self.a0 = norm;
        self.a1 = fp_mul(mc, norm);
        self.a2 = norm;
        self.b1 = self.a1;
        self.b2 = fp_mul(FP_SCALE - alpha, norm);
    }

    /// Adopts a new center frequency; a move within epsilon leaves the
    /// filter untouched.
    pub fn set_cutoff(&mut self, cutoff: i64)
        requires
            old(self).wf(),
            cutoff_ok(cutoff),
        ensures
            final(self).wf(),
            within_eps(cutoff as int, old(self).cutoff as int, CUTOFF_EPS as int) ==> *final(self) == *old(self),
            !within_eps(cutoff as int, old(self).cutoff as int, CUTOFF_EPS as int) ==> {
                &&& final(self).cutoff == cutoff
                &&& final(self).bandwidth == old(self).bandwidth
                &&& final(self).sample_rate == old(self).sample_rate
                &&& final(self).buf0 == old(self).buf0
                &&& final(self).buf1 == old(self).buf1
            },
    {
        let d = if cutoff >= self.cutoff {
            cutoff - self.cutoff
        } else {
            self.cutoff - cutoff
        };
        if d > CUTOFF_EPS {
            self.cutoff = cutoff;
            self.calculate_coefficients();
        }
    }

    /// Adopts a new bandwidth; a move within epsilon leaves the filter
    /// untouched.
    pub fn set_resonance(&mut self, resonance: i64)
        requires
            old(self).wf(),
            resonance_ok(resonance),
        ensures
            final(self).wf(),
            within_eps(resonance as int, old(self).bandwidth as int, RES_EPS as int) ==> *final(self) == *old(self),
            !within_eps(resonance as int, old(self).bandwidth as int, RES_EPS as int) ==> {
                &&& final(self).cutoff == old(self).cutoff
                &&& final(self).bandwidth == resonance
                &&& final(self).sample_rate == old(self).sample_rate
                &&& final(self).buf0 == old(self).buf0
                &&& final(self).buf1 == old(self).buf1
            },
    {
        let d = if resonance >= self.bandwidth {
            resonance - self.bandwidth
        } else {
            self.bandwidth - resonance
        };
        if d > RES_EPS {
            self.bandwidth = resonance;
            self.calculate_coefficients();
        }
    }

    /// Adopts a new sample rate; the same rate leaves the filter untouched.
    pub fn set_sample_rate(&mut self, sample_rate: u32)
        requires
            old(self).wf(),
            rate_ok(sample_rate),
        ensures
            final(self).wf(),
            sample_rate == old(self).sample_rate ==> *final(self) == *old(self),
            sample_rate != old(self).sample_rate ==> {
                &&& final(self).cutoff == old(self).cutoff
                &&& final(self).bandwidth == old(self).bandwidth
                &&& final(self).sample_rate == sample_rate
                &&& final(self).buf0 == old(self).buf0
                &&& final(self).buf1 == old(self).buf1
            },
    {
        if sample_rate != self.sample_rate {
            self.sample_rate = sample_rate;
            self.calculate_coefficients();
        }
    }

    /// Processes one sample.
    pub fn process(&mut self, input: i64) -> (r: i64)
        requires
            old(self).wf(),
            fp_in_sig(input),
        ensures
            final(self).wf(),
            r == old(self).step_spec(input as int),
            *final(self) == (NotchFilter { buf0: r, buf1: old(self).buf0, ..*old(self) }),
            fp_in_sig(r),
    {
        let feed = fp_add(
            fp_add(fp_mul(self.a0, input), fp_mul(self.a1, self.buf0)),
            fp_mul(self.a2, self.buf1),
        );
        let back = fp_add(-fp_mul(self.b1, self.buf0), -fp_mul(self.b2, self.buf1));
        let out = fp_add(feed, back);
        self.buf1 = self.buf0;
        self.buf0 = out;
        out
    }
}

/// The state-variable frequency coefficient `cutoff / rate`.
pub open spec fn svf_f_spec(cutoff: int, rate: int) -> int {
    turns_spec(cutoff, rate)
}

/// The state-variable damping `1 / (2 res)`, the resonance floored away
/// from zero.
pub open spec fn svf_q_spec(resonance: int) -> int {
    let res = if resonance < RES_FLOOR {
        RES_FLOOR as int
    } else {
        resonance
    };
    fp_div_spec(FP_SCALE as int, 2 * res)
}

/// A state-variable filter: a coupled two-integrator loop producing
/// simultaneous low/high/band outputs; only the bandpass output is exposed.
#[derive(Clone, Copy, Debug)]
pub struct StatevariableFilter {
    /// Cached cutoff in Hz.
    pub cutoff: i64,
    /// Cached resonance, fixed point.
    pub resonance: i64,
    /// Cached sample rate in Hz.
    pub sample_rate: u32,
    /// The cached frequency coefficient.
    pub f: i64,
    /// The cached damping coefficient.
    pub q: i64,
    /// The previous input.
    pub prev_input: i64,
    /// The lowpass integrator state.
    pub lowpass_output: i64,
    /// The highpass node state.
    pub highpass_output: i64,
    /// The bandpass integrator state, which is the exposed output.
    pub bandpass_output: i64,
}

impl StatevariableFilter {
    /// The filter's invariant.
    pub open spec fn wf(self) -> bool {
        &&& cutoff_ok(self.cutoff)
        &&& resonance_ok(self.resonance)
        &&& rate_ok(self.sample_rate)
        &&& self.f == svf_f_spec(self.cutoff as int, self.sample_rate as int)
        &&& self.q == svf_q_spec(self.resonance as int)
        &&& fp_in_sig(self.f)
        &&& fp_in_sig(self.q)
        &&& fp_in_sig(self.prev_input)
        &&& fp_in_sig(self.lowpass_output)
        &&& fp_in_sig(self.highpass_output)
        &&& fp_in_sig(self.bandpass_output)
    }

    /// One processing step: the whole new state.
    pub open spec fn step_spec(self, input: int) -> StatevariableFilter {
        let lp = fp_add_spec(
            self.lowpass_output as int,
            fp_mul_spec(self.f as int, self.bandpass_output as int),
        );
        let d = clamp_spec(input - self.highpass_output, -SIG_MAX as int, SIG_MAX as int);
        let hp = fp_add_spec(
            fp_add_spec(d, -fp_mul_spec(lp, self.q as int)),
            -self.bandpass_output as int,
        );
        let bp = fp_add_spec(fp_mul_spec(self.f as int, hp), self.bandpass_output as int);
        StatevariableFilter {
            prev_input: input as i64,
            lowpass_output: lp as i64,
            highpass_output: hp as i64,
            bandpass_output: bp as i64,
            ..self
        }
    }

    /// The filter after it adopts a sample rate, cutoff and resonance, each
    /// parameter kept when the request is within its epsilon.
    pub open spec fn tuned_spec(self, cutoff: int, resonance: int, rate: int) -> StatevariableFilter {
        let ck = eps_keep(self.cutoff as int, cutoff, CUTOFF_EPS as int);
        let rk = eps_keep(self.resonance as int, resonance, RES_EPS as int);
        StatevariableFilter {
            cutoff: ck as i64,
            resonance: rk as i64,
            sample_rate: rate as u32,
            f: svf_f_spec(ck, rate) as i64,
            q: svf_q_spec(rk) as i64,
            prev_input: self.prev_input,
            lowpass_output: self.lowpass_output,
            highpass_output: self.highpass_output,
            bandpass_output: self.bandpass_output,
        }
    }

    /// Builds a state-variable filter with cleared memory.
    pub fn new(cutoff: i64, resonance: i64, sample_rate: u32) -> (r: StatevariableFilter)
        requires
            cutoff_ok(cutoff),
            resonance_ok(resonance),
            rate_ok(sample_rate),
        ensures
            r.wf(),
            r.cutoff == cutoff,
            r.resonance == resonance,
            r.sample_rate == sample_rate,
            r.prev_input == 0,
            r.lowpass_output == 0,
            r.highpass_output == 0,
            r.bandpass_output == 0,
    {
        let f = turns(cutoff, sample_rate);
        let res = if resonance < RES_FLOOR {
            RES_FLOOR
        } else {
            resonance
        };
        let q = fp_div(FP_SCALE, 2 * res);
        StatevariableFilter {
            cutoff,
            resonance,
            sample_rate,
            f,
            q,
            prev_input: 0,
            lowpass_output: 0,
            highpass_output: 0,
            bandpass_output: 0,
        }
    }

    /// Adopts a new cutoff; a move within epsilon leaves the filter
    /// untouched.
    pub fn set_cutoff(&mut self, cutoff: i64)
        requires
            old(self).wf(),
            cutoff_ok(cutoff),
        ensures
            final(self).wf(),
            within_eps(cutoff as int, old(self).cutoff as int, CUTOFF_EPS as int) ==> *final(self) == *old(self),
            !within_eps(cutoff as int, old(self).cutoff as int, CUTOFF_EPS as int) ==> *final(self) == (StatevariableFilter {
                cutoff,
                f: svf_f_spec(cutoff as int, old(self).sample_rate as int) as i64,
                ..*old(self)
            }),
    {
        let d = if cutoff >= self.cutoff {
            cutoff - self.cutoff
        } else {
            self.cutoff - cutoff
        };
        if d > CUTOFF_EPS {
            self.cutoff = cutoff;
            self.f = turns(cutoff, self.sample_rate);
        }
    }

    /// Adopts a new resonance; a move within epsilon leaves the filter
    /// untouched.
    pub fn set_resonance(&mut self, resonance: i64)
        requires
            old(self).wf(),
            resonance_ok(resonance),
        ensures
            final(self).wf(),
            within_eps(resonance as int, old(self).resonance as int, RES_EPS as int) ==> *final(self) == *old(self),
            !within_eps(resonance as int, old(self).resonance as int, RES_EPS as int) ==> *final(self) == (StatevariableFilter {
                resonance,
                q: svf_q_spec(resonance as int) as i64,
                ..*old(self)
            }),
    {
        let d = if resonance >= self.resonance {
            resonance - self.resonance
        } else {
            self.resonance - resonance
        };
        if d > RES_EPS {
            self.resonance = resonance;
            let res = if resonance < RES_FLOOR {
                RES_FLOOR
            } else {
                resonance
            };
            self.q = fp_div(FP_SCALE, 2 * res);
        }
    }

    /// Adopts a new sample rate; the same rate leaves the filter untouched.
    pub fn set_sample_rate(&mut self, sample_rate: u32)
        requires
            old(self).wf(),
            rate_ok(sample_rate),
        ensures
            final(self).wf(),
            sample_rate == old(self).sample_rate ==> *final(self) == *old(self),
            sample_rate != old(self).sample_rate ==> *final(self) == (StatevariableFilter {
                sample_rate,
                f: svf_f_spec(old(self).cutoff as int, sample_rate as int) as i64,
                ..*old(self)
            }),
    {
        if sample_rate != self.sample_rate {
            self.sample_rate = sample_rate;
            self.f = turns(self.cutoff, sample_rate);
        }
    }

    /// Processes one sample, yielding the bandpass output.
    pub fn process(&mut self, input: i64) -> (r: i64)
        requires
            old(self).wf(),
            fp_in_sig(input),
        ensures
            final(self).wf(),
            *final(self) == old(self).step_spec(input as int),
            r == final(self).bandpass_output,
            fp_in_sig(r),
    {
        let lp = fp_add(self.lowpass_output, fp_mul(self.f, self.bandpass_output));
        let d = fp_clamp(input - self.highpass_output);
        let hp = fp_add(fp_add(d, -fp_mul(lp, self.q)), -self.bandpass_output);
        let bp = fp_add(fp_mul(self.f, hp), self.bandpass_output);
        self.prev_input = input;
        self.lowpass_output = lp;
        self.highpass_output = hp;
        self.bandpass_output = bp;
        bp
    }
}


/// Where the modulated cutoff is capped: the audible ceiling or the Nyquist
/// frequency, whichever is lower, but never below the cutoff floor.
pub open spec fn nyquist_cap_spec(rate: int) -> int {
    let ny = rate / 2;
    if ny < CUT_MIN {
        CUT_MIN as int
    } else if ny > AUDIO_CUT_MAX {
        AUDIO_CUT_MAX as int
    } else {
        ny
    }
}

/// The cutoff the filter sees for one sample: the base cutoff scaled by the
/// cutoff envelope, clamped to the valid range.
pub open spec fn effective_cutoff_spec(cutoff: int, env: int, rate: int) -> int {
    clamp_spec(cutoff * env / (FP_SCALE as int), CUT_MIN as int, nyquist_cap_spec(rate))
}

/// The resonance the filter sees for one sample: the base resonance scaled
/// by the resonance envelope, clamped below one: full resonance would turn
/// the one-pole feedback into a pure integrator.
pub open spec fn effective_resonance_spec(res: int, env: int) -> int {
    clamp_spec(res * env / (FP_SCALE as int), 0, FP_SCALE - 1)
}

/// The cutoff the filter sees for one sample.
pub fn effective_cutoff(cutoff: i64, env: i64, rate: u32) -> (r: i64)
    requires
        cutoff_ok(cutoff),
        0 <= env <= FP_SCALE,
        rate_ok(rate),
    ensures
        r == effective_cutoff_spec(cutoff as int, env as int, rate as int),
        cutoff_ok(r),
{
    proof {
        assert(0 <= cutoff * env <= 192000 * 65536) by (nonlinear_arith)
            requires
                20 <= cutoff <= 192000,
                0 <= env <= 65536,
        ;
        vstd::arithmetic::div_mod::lemma_div_pos_is_pos(cutoff * env, FP_SCALE as int);
    }
    let scaled: i64 = (cutoff * env) / FP_SCALE;
    let ny: i64 = (rate / 2) as i64;
    let hi: i64 = if ny < CUT_MIN {
        CUT_MIN
    } else if ny > AUDIO_CUT_MAX {
        AUDIO_CUT_MAX
    } else {
        ny
    };
    if scaled < CUT_MIN {
        CUT_MIN
    } else if scaled > hi {
        hi
    } else {
        scaled
    }
}

/// The resonance the filter sees for one sample.
pub fn effective_resonance(res: i64, env: i64) -> (r: i64)
    requires
        resonance_ok(res),
        0 <= env <= FP_SCALE,
    ensures
        r == effective_resonance_spec(res as int, env as int),
        0 <= r < FP_SCALE,
{
    proof {
        assert(0 <= res * env <= 65536 * 65536) by (nonlinear_arith)
            requires
                0 <= res <= 65536,
                0 <= env <= 65536,
        ;
        vstd::arithmetic::div_mod::lemma_div_pos_is_pos(res * env, FP_SCALE as int);
    }
    let scaled: i64 = (res * env) / FP_SCALE;
    if scaled > FP_SCALE - 1 {
        FP_SCALE - 1
    } else {
        scaled
    }
}

/// One persistent instance of every filter algorithm, so that switching the
/// selected algorithm mid-note loses no state and allocates nothing.
#[derive(Clone, Copy, Debug)]
pub struct FilterBank {
    /// The one-pole lowpass instance.
    pub lowpass: LowpassFilter,
    /// The one-pole highpass instance.
    pub highpass: HighpassFilter,
    /// The one-pole bandpass instance.
    pub bandpass: BandpassFilter,
    /// The biquad notch instance.
    pub notch: NotchFilter,
    /// The state-variable instance.
    pub statevariable: StatevariableFilter,
    /// The passthrough instance.
    pub none: NoneFilter,
}

/// The bank a construction call yields: every algorithm at the given
/// parameters with cleared memory and freshly computed coefficients.
pub open spec fn bank_new_spec(cutoff: int, res: int, rate: int) -> FilterBank {
    FilterBank {
        lowpass: LowpassFilter {
            cutoff: cutoff as i64,
            resonance: res as i64,
            sample_rate: rate as u32,
            c: onepole_coeff_spec(cutoff, rate) as i64,
            prev_output: 0,
        },
        highpass: HighpassFilter {
            cutoff: cutoff as i64,
            resonance: res as i64,
            sample_rate: rate as u32,
            c: onepole_coeff_spec(cutoff, rate) as i64,
            prev_input: 0,
            prev_output: 0,
        },
        bandpass: BandpassFilter {
            cutoff: cutoff as i64,
            resonance: res as i64,
            sample_rate: rate as u32,
            c: onepole_coeff_spec(cutoff, rate) as i64,
            prev_input: 0,
            prev_output: 0,
        },
        notch: NotchFilter {
            cutoff: cutoff as i64,
            bandwidth: res as i64,
            sample_rate: rate as u32,
            buf0: 0,
            buf1: 0,
            a0: notch_norm_spec(cutoff, res, rate) as i64,
            a1: notch_a1_spec(cutoff, res, rate) as i64,
            a2: notch_norm_spec(cutoff, res, rate) as i64,
            b1: notch_a1_spec(cutoff, res, rate) as i64,
            b2: notch_b2_spec(cutoff, res, rate) as i64,
        },
        statevariable: StatevariableFilter {
            cutoff: cutoff as i64,
            resonance: res as i64,
            sample_rate: rate as u32,
            f: svf_f_spec(cutoff, rate) as i64,
            q: svf_q_spec(res) as i64,
            prev_input: 0,
            lowpass_output: 0,
            highpass_output: 0,
            bandpass_output: 0,
        },
        none: NoneFilter { cutoff: cutoff as i64, resonance: res as i64, sample_rate: rate as u32 },
    }
}

impl FilterBank {
    /// Every algorithm's instance is well formed.
    pub open spec fn wf(self) -> bool {
        &&& self.lowpass.wf()
        &&& self.highpass.wf()
        &&& self.bandpass.wf()
        &&& self.notch.wf()
        &&& self.statevariable.wf()
    }

    /// Builds a bank with all memories cleared.
    pub fn new(cutoff: i64, resonance: i64, sample_rate: u32) -> (r: FilterBank)
        requires
            cutoff_ok(cutoff),
            resonance_ok(resonance),
            rate_ok(sample_rate),
        ensures
            r.wf(),
            r == bank_new_spec(cutoff as int, resonance as int, sample_rate as int),
    {
        FilterBank {
            lowpass: LowpassFilter::new(cutoff, resonance, sample_rate),
            highpass: HighpassFilter::new(cutoff, resonance, sample_rate),
            bandpass: BandpassFilter::new(cutoff, resonance, sample_rate),
            notch: NotchFilter::new(cutoff, resonance, sample_rate),
            statevariable: StatevariableFilter::new(cutoff, resonance, sample_rate),
            none: NoneFilter::new(cutoff, resonance, sample_rate),
        }
    }
}

/// The sample the selected algorithm of a bank yields for one input, after
/// the bank adopts the sample rate and the envelope-modulated parameters.
pub open spec fn filtered_sample_spec(
    bank: FilterBank,
    ft: FilterType,
    cutoff: int,
    res: int,
    cenv: int,
    renv: int,
    input: int,
    rate: int,
) -> int {
    let ec = effective_cutoff_spec(cutoff, cenv, rate);
    let er = effective_resonance_spec(res, renv);
    match ft {
        FilterType::Bypass => input,
        FilterType::Lowpass => bank.lowpass.tuned_spec(ec, er, rate).step_spec(input),
        FilterType::Highpass => bank.highpass.tuned_spec(ec, er, rate).step_spec(input),
        FilterType::Bandpass => bank.bandpass.tuned_spec(ec, er, rate).step_spec(input),
        FilterType::Notch => bank.notch.tuned_spec(ec, er, rate).step_spec(input),
        FilterType::Statevariable => bank.statevariable.tuned_spec(ec, er, rate).step_spec(
            input,
        ).bandpass_output as int,
    }
}

/// The bank after the selected algorithm adopts the sample rate and the
/// envelope-modulated parameters and processes one input; the other
/// instances keep their state.
pub open spec fn filtered_bank_spec(
    bank: FilterBank,
    ft: FilterType,
    cutoff: int,
    res: int,
    cenv: int,
    renv: int,
    input: int,
    rate: int,
) -> FilterBank {
    let ec = effective_cutoff_spec(cutoff, cenv, rate);
    let er = effective_resonance_spec(res, renv);
    match ft {
        FilterType::Bypass => bank,
        FilterType::Lowpass => {
            let t = bank.lowpass.tuned_spec(ec, er, rate);
            FilterBank { lowpass: LowpassFilter { prev_output: t.step_spec(input) as i64, ..t }, ..bank }
        },
        FilterType::Highpass => {
            let t = bank.highpass.tuned_spec(ec, er, rate);
            FilterBank {
                highpass: HighpassFilter {
                    prev_input: input as i64,
                    prev_output: t.step_spec(input) as i64,
                    ..t
                },
                ..bank
            }
        },
        FilterType::Bandpass => {
            let t = bank.bandpass.tuned_spec(ec, er, rate);
            FilterBank {
                bandpass: BandpassFilter {
                    prev_input: input as i64,
                    prev_output: t.step_spec(input) as i64,
                    ..t
                },
                ..bank
            }
        },
        FilterType::Notch => {
            let t = bank.notch.tuned_spec(ec, er, rate);
            FilterBank {
                notch: NotchFilter { buf0: t.step_spec(input) as i64, buf1: t.buf0, ..t },
                ..bank
            }
        },
        FilterType::Statevariable => FilterBank {
            statevariable: bank.statevariable.tuned_spec(ec, er, rate).step_spec(input),
            ..bank
        },
    }
}

/// Runs one sample through the selected filter algorithm of a bank.
///
/// The base cutoff and resonance are scaled by the two modulation envelope
/// values and clamped to the filter's valid range; the selected instance
/// adopts the sample rate and the modulated parameters (recomputing its
/// coefficients only on a real change) and processes the sample. The other
/// instances keep their state untouched.
pub fn generate_filter(
    filter_type: FilterType,
    cutoff: i64,
    resonance: i64,
    filter_cut_env: i64,
    filter_res_env: i64,
    input: i64,
    sample_rate: u32,
    bank: &mut FilterBank,
) -> (r: i64)
    requires
        old(bank).wf(),
        cutoff_ok(cutoff),
        resonance_ok(resonance),
        0 <= filter_cut_env <= FP_SCALE,
        0 <= filter_res_env <= FP_SCALE,
        fp_in_sig(input),
        rate_ok(sample_rate),
    ensures
        final(bank).wf(),
        fp_in_sig(r),
        r == filtered_sample_spec(
            *old(bank),
            filter_type,
            cutoff as int,
            resonance as int,
            filter_cut_env as int,
            filter_res_env as int,
            input as int,
            sample_rate as int,
        ),
        *final(bank) == filtered_bank_spec(
            *old(bank),
            filter_type,
            cutoff as int,
            resonance as int,
            filter_cut_env as int,
            filter_res_env as int,
            input as int,
            sample_rate as int,
        ),
        filter_type is Bypass ==> r == input && *final(bank) == *old(bank),
        filter_type is Lowpass ==> ({
            let tuned = old(bank).lowpass.tuned_spec(
                effective_cutoff_spec(cutoff as int, filter_cut_env as int, sample_rate as int),
                effective_resonance_spec(resonance as int, filter_res_env as int),
                sample_rate as int,
            );
            &&& r == tuned.step_spec(input as int)
            &&& final(bank).lowpass == (LowpassFilter { prev_output: r, ..tuned })
            &&& final(bank).highpass == old(bank).highpass
            &&& final(bank).bandpass == old(bank).bandpass
            &&& final(bank).notch == old(bank).notch
            &&& final(bank).statevariable == old(bank).statevariable
        }),
        filter_type is Highpass ==> ({
            let tuned = old(bank).highpass.tuned_spec(
                effective_cutoff_spec(cutoff as int, filter_cut_env as int, sample_rate as int),
                effective_resonance_spec(resonance as int, filter_res_env as int),
                sample_rate as int,
            );
            &&& r == tuned.step_spec(input as int)
            &&& final(bank).highpass == (HighpassFilter {
                prev_input: input,
                prev_output: r,
                ..tuned
            })
            &&& final(bank).lowpass == old(bank).lowpass
            &&& final(bank).bandpass == old(bank).bandpass
            &&& final(bank).notch == old(bank).notch
            &&& final(bank).statevariable == old(bank).statevariable
        }),
        filter_type is Bandpass ==> ({
            let tuned = old(bank).bandpass.tuned_spec(
                effective_cutoff_spec(cutoff as int, filter_cut_env as int, sample_rate as int),
                effective_resonance_spec(resonance as int, filter_res_env as int),
                sample_rate as int,
            );
            &&& r == tuned.step_spec(input as int)
            &&& final(bank).bandpass == (BandpassFilter {
                prev_input: input,
                prev_output: r,
                ..tuned
            })
            &&& final(bank).lowpass == old(bank).lowpass
            &&& final(bank).highpass == old(bank).highpass
            &&& final(bank).notch == old(bank).notch
            &&& final(bank).statevariable == old(bank).statevariable
        }),
        filter_type is Notch ==> ({
            let tuned = old(bank).notch.tuned_spec(
                effective_cutoff_spec(cutoff as int, filter_cut_env as int, sample_rate as int),
                effective_resonance_spec(resonance as int, filter_res_env as int),
                sample_rate as int,
            );
            &&& r == tuned.step_spec(input as int)
            &&& final(bank).notch == (NotchFilter { buf0: r, buf1: tuned.buf0, ..tuned })
            &&& final(bank).lowpass == old(bank).lowpass
            &&& final(bank).highpass == old(bank).highpass
            &&& final(bank).bandpass == old(bank).bandpass
            &&& final(bank).statevariable == old(bank).statevariable
        }),
        filter_type is Statevariable ==> ({
            let tuned = old(bank).statevariable.tuned_spec(
                effective_cutoff_spec(cutoff as int, filter_cut_env as int, sample_rate as int),
                effective_resonance_spec(resonance as int, filter_res_env as int),
                sample_rate as int,
            );
            &&& final(bank).statevariable == tuned.step_spec(input as int)
            &&& r == final(bank).statevariable.bandpass_output
            &&& final(bank).lowpass == old(bank).lowpass
            &&& final(bank).highpass == old(bank).highpass
            &&& final(bank).bandpass == old(bank).bandpass
            &&& final(bank).notch == old(bank).notch
        }),
{
    let ec = effective_cutoff(cutoff, filter_cut_env, sample_rate);
    let er = effective_resonance(resonance, filter_res_env);
    match filter_type {
        FilterType::Bypass => input,
        FilterType::Lowpass => {
            self_tune_lowpass(&mut bank.lowpass, ec, er, sample_rate);
            bank.lowpass.process(input)
        },
        FilterType::Highpass => {
            self_tune_highpass(&mut bank.highpass, ec, er, sample_rate);
            bank.highpass.process(input)
        },
        FilterType::Bandpass => {
            self_tune_bandpass(&mut bank.bandpass, ec, er, sample_rate);
            bank.bandpass.process(input)
        },
        FilterType::Notch => {
            self_tune_notch(&mut bank.notch, ec, er, sample_rate);
            bank.notch.process(input)
        },
        FilterType::Statevariable => {
            self_tune_statevariable(&mut bank.statevariable, ec, er, sample_rate);
            bank.statevariable.process(input)
        },
    }
}

fn self_tune_lowpass(f: &mut LowpassFilter, cutoff: i64, resonance: i64, rate: u32)
    requires
        old(f).wf(),
        cutoff_ok(cutoff),
        resonance_ok(resonance),
        rate_ok(rate),
    ensures
        final(f).wf(),
        *final(f) == old(f).tuned_spec(cutoff as int, resonance as int, rate as int),
{
    f.set_sample_rate(rate);
    f.set_cutoff(cutoff);
    f.set_resonance(resonance);
}

fn self_tune_highpass(f: &mut HighpassFilter, cutoff: i64, resonance: i64, rate: u32)
    requires
        old(f).wf(),
        cutoff_ok(cutoff),
        resonance_ok(resonance),
        rate_ok(rate),
    ensures
        final(f).wf(),
        *final(f) == old(f).tuned_spec(cutoff as int, resonance as int, rate as int),
{
    f.set_sample_rate(rate);
    f.set_cutoff(cutoff);
    f.set_resonance(resonance);
}

fn self_tune_bandpass(f: &mut BandpassFilter, cutoff: i64, resonance: i64, rate: u32)
    requires
        old(f).wf(),
        cutoff_ok(cutoff),
        resonance_ok(resonance),
        rate_ok(rate),
    ensures
        final(f).wf(),
        *final(f) == old(f).tuned_spec(cutoff as int, resonance as int, rate as int),
{
    f.set_sample_rate(rate);
    f.set_cutoff(cutoff);
    f.set_resonance(resonance);
}

fn self_tune_notch(f: &mut NotchFilter, cutoff: i64, resonance: i64, rate: u32)
    requires
        old(f).wf(),
        cutoff_ok(cutoff),
        resonance_ok(resonance),
        rate_ok(rate),
    ensures
        final(f).wf(),
        *final(f) == old(f).tuned_spec(cutoff as int, resonance as int, rate as int),
{
    f.set_sample_rate(rate);
    f.set_cutoff(cutoff);
    f.set_resonance(resonance);
}

fn self_tune_statevariable(f: &mut StatevariableFilter, cutoff: i64, resonance: i64, rate: u32)
    requires
        old(f).wf(),
        cutoff_ok(cutoff),
        resonance_ok(resonance),
        rate_ok(rate),
    ensures
        final(f).wf(),
        *final(f) == old(f).tuned_spec(cutoff as int, resonance as int, rate as int),
{
    f.set_sample_rate(rate);
    f.set_cutoff(cutoff);
    f.set_resonance(resonance);
}

} // verus!
