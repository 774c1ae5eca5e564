//! The ADSR(H) envelope state machine.
//!
//! States advance in the fixed order Idle -> Attack -> Hold -> Decay ->
//! Sustain -> Release -> Idle; Release may be entered from any non-Idle state
//! on demand (note-off). Idle is the only terminal state and always yields
//! output 0. Durations are measured in whole samples; levels are fixed-point
//! values in `[0, FP_SCALE]` (see [`crate::fixed`]). A duration of 0 yields an
//! instantaneous jump to the stage's target level instead of a division by
//! zero.

use vstd::prelude::*;

use crate::fixed::{lemma_ramp_bounds, FP_SCALE};

verus! {

/// Largest duration, in samples, an envelope stage may have (2^40).
pub const MAX_DUR: u64 = 1099511627776;

/// The stage an [`ADSREnvelope`] is in.
#[derive(Clone, Copy, PartialEq, Eq, Structural, Debug)]
pub enum ADSREnvelopeState {
    Idle,
    Attack,
    Hold,
    Decay,
    Sustain,
    Release,
}

/// A five-or-six-stage envelope generator.
///
/// The output (see [`Self::value_spec`]) ramps linearly from 0 to full scale
/// over the attack, holds at full scale over the hold stage, ramps down to
/// the sustain level over the decay, holds at the sustain level until
/// released, and then ramps from the level captured at release time down
/// to 0 over the release.
#[derive(Clone, Copy, Debug)]
pub struct ADSREnvelope {
    /// Attack duration in samples.
    pub attack: u64,
    /// Hold duration in samples (0 means no hold stage).
    pub hold: u64,
    /// Decay duration in samples.
    pub decay: u64,
    /// Sustain level, fixed point in `[0, FP_SCALE]`.
    pub sustain: i64,
    /// Release duration in samples.
    pub release: u64,
    /// Current stage.
    pub state: ADSREnvelopeState,
    /// Samples spent in the current stage.
    pub time: u64,
    /// Output level captured when the release stage was entered.
    pub release_level: i64,
    /// Velocity factor, fixed point in `[0, FP_SCALE]`; scales durations.
    pub velocity: i64,
    /// Output scale factor, fixed point in `[0, FP_SCALE]`.
    pub scale: i64,
}

impl ADSREnvelope {
    /// The envelope's internal invariant.
    pub open spec fn wf(self) -> bool {
        &&& self.attack <= MAX_DUR
        &&& self.hold <= MAX_DUR
        &&& self.decay <= MAX_DUR
        &&& self.release <= MAX_DUR
        &&& 0 <= self.sustain <= FP_SCALE
        &&& 0 <= self.release_level <= FP_SCALE
        &&& 0 <= self.velocity <= FP_SCALE
        &&& 0 <= self.scale <= FP_SCALE
        &&& match self.state {
            ADSREnvelopeState::Attack => self.time <= self.attack,
            ADSREnvelopeState::Hold => self.time <= self.hold,
            ADSREnvelopeState::Decay => self.time <= self.decay,
            ADSREnvelopeState::Release => self.time <= self.release,
            _ => self.time == 0,
        }
    }

    pub open spec fn spec_state(self) -> ADSREnvelopeState {
        self.state
    }

    pub open spec fn spec_sustain(self) -> int {
        self.sustain as int
    }

    pub open spec fn spec_release(self) -> int {
        self.release as int
    }

    pub open spec fn spec_time(self) -> int {
        self.time as int
    }

    /// The envelope's output before the output-scale factor is applied.
    pub open spec fn value_spec(self) -> int {
        match self.state {
            ADSREnvelopeState::Idle => 0,
            ADSREnvelopeState::Attack => if self.attack == 0 {
                FP_SCALE as int
            } else {
                FP_SCALE * self.time / (self.attack as int)
            },
            ADSREnvelopeState::Hold => FP_SCALE as int,
            ADSREnvelopeState::Decay => if self.decay == 0 {
                self.sustain as int
            } else {
                FP_SCALE - (FP_SCALE - self.sustain) * self.time / (self.decay as int)
            },
            ADSREnvelopeState::Sustain => self.sustain as int,
            ADSREnvelopeState::Release => if self.release == 0 {
                0
            } else {
                self.release_level * (self.release - self.time) / (self.release as int)
            },
        }
    }

    /// The output of every well-formed envelope lies in `[0, FP_SCALE]`
    /// before output scaling; during Decay it never falls below the sustain
    /// level and never rises above full scale.
    pub proof fn lemma_output_bounded(self)
        requires
            self.wf(),
        ensures
            0 <= self.value_spec() <= FP_SCALE,
            self.state is Decay ==> self.value_spec() >= self.sustain,
    {
        match self.state {
            ADSREnvelopeState::Attack => {
                if self.attack != 0 {
                    lemma_ramp_bounds(FP_SCALE as int, self.time as int, self.attack as int);
                }
            },
            ADSREnvelopeState::Decay => {
                if self.decay != 0 {
                    lemma_ramp_bounds(
                        FP_SCALE - self.sustain,
                        self.time as int,
                        self.decay as int,
                    );
                }
            },
            ADSREnvelopeState::Release => {
                if self.release != 0 {
                    lemma_ramp_bounds(
                        self.release_level as int,
                        self.release - self.time,
                        self.release as int,
                    );
                }
            },
            _ => {},
        }
    }

    /// One sample's state transition: the time accumulator advances, and a
    /// stage whose duration has elapsed hands over to the next stage,
    /// falling through stages of length zero.
    pub open spec fn step_spec(self) -> ADSREnvelope {
        match self.state {
            ADSREnvelopeState::Idle => self,
            ADSREnvelopeState::Sustain => self,
            ADSREnvelopeState::Attack => if self.time + 1 >= self.attack {
                self.enter_hold_spec()
            } else {
                ADSREnvelope { time: (self.time + 1) as u64, ..self }
            },
            ADSREnvelopeState::Hold => if self.time + 1 >= self.hold {
                self.enter_decay_spec()
            } else {
                ADSREnvelope { time: (self.time + 1) as u64, ..self }
            },
            ADSREnvelopeState::Decay => if self.time + 1 >= self.decay {
                ADSREnvelope { state: ADSREnvelopeState::Sustain, time: 0, ..self }
            } else {
                ADSREnvelope { time: (self.time + 1) as u64, ..self }
            },
            ADSREnvelopeState::Release => if self.time + 1 >= self.release {
                ADSREnvelope { state: ADSREnvelopeState::Idle, time: 0, ..self }
            } else {
                ADSREnvelope { time: (self.time + 1) as u64, ..self }
            },
        }
    }

    /// Entering the hold stage, skipping it (and a zero decay) when empty.
    pub open spec fn enter_hold_spec(self) -> ADSREnvelope {
        if self.hold == 0 {
            self.enter_decay_spec()
        } else {
            ADSREnvelope { state: ADSREnvelopeState::Hold, time: 0, ..self }
        }
    }

    /// Entering the decay stage, skipping it when empty.
    pub open spec fn enter_decay_spec(self) -> ADSREnvelope {
        if self.decay == 0 {
            ADSREnvelope { state: ADSREnvelopeState::Sustain, time: 0, ..self }
        } else {
            ADSREnvelope { state: ADSREnvelopeState::Decay, time: 0, ..self }
        }
    }

    /// Restarting at the beginning of the attack stage.
    pub open spec fn trigger_spec(self) -> ADSREnvelope {
        ADSREnvelope { state: ADSREnvelopeState::Attack, time: 0, ..self }
    }

    /// Entering the release stage on demand, capturing the current output
    /// level; an Idle envelope stays Idle.
    pub open spec fn release_spec(self) -> ADSREnvelope {
        if self.state is Idle {
            self
        } else {
            ADSREnvelope {
                state: ADSREnvelopeState::Release,
                time: 0,
                release_level: self.value_spec() as i64,
                ..self
            }
        }
    }

    /// One sample's transition preserves the invariant.
    pub proof fn lemma_step_wf(self)
        requires
            self.wf(),
        ensures
            self.step_spec().wf(),
    {
    }

    /// Builds an envelope resting at the start of its attack stage.
    pub fn new(
        attack: u64,
        hold: u64,
        decay: u64,
        sustain: i64,
        release: u64,
        velocity: i64,
    ) -> (r: ADSREnvelope)
        requires
            attack <= MAX_DUR,
            hold <= MAX_DUR,
            decay <= MAX_DUR,
            release <= MAX_DUR,
            0 <= sustain <= FP_SCALE,
            0 <= velocity <= FP_SCALE,
        ensures
            r.wf(),
            r == (ADSREnvelope {
                attack,
                hold,
                decay,
                sustain,
                release,
                state: ADSREnvelopeState::Attack,
                time: 0,
                release_level: sustain,
                velocity,
                scale: FP_SCALE,
            }),
    {
        ADSREnvelope {
            attack,
            hold,
            decay,
            sustain,
            release,
            state: ADSREnvelopeState::Attack,
            time: 0,
            release_level: sustain,
            velocity,
            scale: FP_SCALE,
        }
    }

    /// Advances the envelope by one sample.
    pub fn advance(&mut self)
        requires
            old(self).wf(),
        ensures
            *final(self) == old(self).step_spec(),
            final(self).wf(),
    {
        match self.state {
            ADSREnvelopeState::Idle => {},
            ADSREnvelopeState::Sustain => {},
            ADSREnvelopeState::Attack => {
                self.time = self.time + 1;
                if self.time >= self.attack {
                    self.enter_hold();
                }
            },
            ADSREnvelopeState::Hold => {
                self.time = self.time + 1;
                if self.time >= self.hold {
                    self.enter_decay();
                }
            },
            ADSREnvelopeState::Decay => {
                self.time = self.time + 1;
                if self.time >= self.decay {
                    self.state = ADSREnvelopeState::Sustain;
                    self.time = 0;
                }
            },
            ADSREnvelopeState::Release => {
                self.time = self.time + 1;
                if self.time >= self.release {
                    self.state = ADSREnvelopeState::Idle;
                    self.time = 0;
                }
            },
        }
    }

    fn enter_hold(&mut self)
        ensures
            *final(self) == old(self).enter_hold_spec(),
    {
        if self.hold == 0 {
            self.enter_decay();
        } else {
            self.state = ADSREnvelopeState::Hold;
            self.time = 0;
        }
    }

    fn enter_decay(&mut self)
        ensures
            *final(self) == old(self).enter_decay_spec(),
    {
        if self.decay == 0 {
            self.state = ADSREnvelopeState::Sustain;
        } else {
            self.state = ADSREnvelopeState::Decay;
        }
        self.time = 0;
    }

    /// The output for the current sample, after the output-scale factor.
    pub fn get_value(&self) -> (r: i64)
        requires
            self.wf(),
        ensures
            r == self.value_spec() * self.scale / (FP_SCALE as int),
            0 <= r <= FP_SCALE,
    {
        let v = self.previous_value();
        proof {
            lemma_ramp_bounds(v as int, self.scale as int, FP_SCALE as int);
            assert(v * self.scale / (FP_SCALE as int) <= v) by {
                if self.scale < FP_SCALE {
                    vstd::arithmetic::mul::lemma_mul_inequality(
                        self.scale as int,
                        FP_SCALE as int,
                        v as int,
                    );
                    assert(v * self.scale == self.scale * v) by (nonlinear_arith);
                    assert(v * FP_SCALE == FP_SCALE * v) by (nonlinear_arith);
                    vstd::arithmetic::div_mod::lemma_div_is_ordered(
                        v * self.scale,
                        FP_SCALE * v,
                        FP_SCALE as int,
                    );
                    vstd::arithmetic::div_mod::lemma_div_multiples_vanish(
                        v as int,
                        FP_SCALE as int,
                    );
                }
            };
        }
        v * self.scale / FP_SCALE
    }

    /// The output for the current sample, before the output-scale factor.
    pub fn previous_value(&self) -> (r: i64)
        requires
            self.wf(),
        ensures
            r == self.value_spec(),
            0 <= r <= FP_SCALE,
    {
        proof {
            self.lemma_output_bounded();
        }
        match self.state {
            ADSREnvelopeState::Idle => 0,
            ADSREnvelopeState::Attack => {
                if self.attack == 0 {
                    FP_SCALE
                } else {
                    ((FP_SCALE as u64 * self.time) / self.attack) as i64
                }
            },
            ADSREnvelopeState::Hold => FP_SCALE,
            ADSREnvelopeState::Decay => {
                if self.decay == 0 {
                    self.sustain
                } else {
                    let drop: u64 = (FP_SCALE - self.sustain) as u64;
                    proof {
                        assert(drop * self.time <= 65536 * (MAX_DUR as int)) by (nonlinear_arith)
                            requires
                                drop <= 65536,
                                self.time <= MAX_DUR,
                        ;
                    }
                    FP_SCALE - ((drop * self.time) / self.decay) as i64
                }
            },
            ADSREnvelopeState::Sustain => self.sustain,
            ADSREnvelopeState::Release => {
                if self.release == 0 {
                    0
                } else {
                    let level: u64 = self.release_level as u64;
                    let left: u64 = self.release - self.time;
                    proof {
                        assert(level * left <= 65536 * (MAX_DUR as int)) by (nonlinear_arith)
                            requires
                                level <= 65536,
                                left <= MAX_DUR,
                        ;
                    }
                    ((level * left) / self.release) as i64
                }
            },
        }
    }

    /// Restarts the envelope at the beginning of its attack stage.
    pub fn trigger(&mut self)
        requires
            old(self).wf(),
        ensures
            *final(self) == (ADSREnvelope {
                state: ADSREnvelopeState::Attack,
                time: 0,
                ..*old(self)
            }),
            final(self).wf(),
    {
        self.state = ADSREnvelopeState::Attack;
        self.time = 0;
    }

    /// Enters the release stage from any non-Idle stage, capturing the
    /// current output level as the level the release ramps down from.
    /// An Idle envelope stays Idle.
    pub fn release(&mut self)
        requires
            old(self).wf(),
        ensures
            final(self).wf(),
            old(self).state is Idle ==> *final(self) == *old(self),
            !(old(self).state is Idle) ==> *final(self) == (ADSREnvelope {
                state: ADSREnvelopeState::Release,
                time: 0,
                release_level: old(self).value_spec() as i64,
                ..*old(self)
            }),
    {
        if !matches!(self.state, ADSREnvelopeState::Idle) {
            let level = self.previous_value();
            self.release_level = level;
            self.state = ADSREnvelopeState::Release;
            self.time = 0;
        }
    }

    /// The current stage.
    pub fn get_state(&self) -> (r: ADSREnvelopeState)
        ensures
            r == self.state,
    {
        self.state
    }

    /// The current stage, under its trait-style accessor name.
    pub fn get_envelope_stage(&self) -> (r: ADSREnvelopeState)
        ensures
            r == self.state,
    {
        self.state
    }

    /// Forces the envelope into a stage, resetting the stage clock.
    pub fn set_envelope_stage(&mut self, stage: ADSREnvelopeState)
        requires
            old(self).wf(),
        ensures
            final(self).wf(),
            *final(self) == (ADSREnvelope { state: stage, time: 0, ..*old(self) }),
    {
        self.state = stage;
        self.time = 0;
    }

    /// Samples spent in the current stage.
    pub fn get_time(&self) -> (r: u64)
        ensures
            r == self.time,
    {
        self.time
    }

    /// The envelope after a velocity factor is re-applied: each of the four
    /// durations scaled by it, and the stage clock clamped so it stays
    /// within its stage.
    pub open spec fn set_velocity_spec(self, velocity: i64) -> ADSREnvelope {
        let attack = (self.attack * velocity / (FP_SCALE as int)) as u64;
        let hold = (self.hold * velocity / (FP_SCALE as int)) as u64;
        let decay = (self.decay * velocity / (FP_SCALE as int)) as u64;
        let release = (self.release * velocity / (FP_SCALE as int)) as u64;
        let cap = match self.state {
            ADSREnvelopeState::Attack => attack,
            ADSREnvelopeState::Hold => hold,
            ADSREnvelopeState::Decay => decay,
            ADSREnvelopeState::Release => release,
            _ => 0,
        };
        ADSREnvelope {
            attack,
            hold,
            decay,
            release,
            velocity,
            time: if self.time > cap {
                cap
            } else {
                self.time
            },
            ..self
        }
    }

    /// Re-applies a velocity factor: each of the four durations is scaled by
    /// it, and the stage clock is clamped so it stays within its stage.
    pub fn set_velocity(&mut self, velocity: i64)
        requires
            old(self).wf(),
            0 <= velocity <= FP_SCALE,
        ensures
            final(self).wf(),
            *final(self) == old(self).set_velocity_spec(velocity),
            final(self).velocity == velocity,
            final(self).attack == old(self).attack * velocity / (FP_SCALE as int),
            final(self).hold == old(self).hold * velocity / (FP_SCALE as int),
            final(self).decay == old(self).decay * velocity / (FP_SCALE as int),
            final(self).release == old(self).release * velocity / (FP_SCALE as int),
            final(self).sustain == old(self).sustain,
            final(self).state == old(self).state,
            final(self).scale == old(self).scale,
    {
        self.velocity = velocity;
        self.attack = Self::scale_duration(self.attack, velocity);
        self.hold = Self::scale_duration(self.hold, velocity);
        self.decay = Self::scale_duration(self.decay, velocity);
        self.release = Self::scale_duration(self.release, velocity);
        let cap = match self.state {
            ADSREnvelopeState::Attack => self.attack,
            ADSREnvelopeState::Hold => self.hold,
            ADSREnvelopeState::Decay => self.decay,
            ADSREnvelopeState::Release => self.release,
            _ => 0,
        };
        if self.time > cap {
            self.time = cap;
        }
    }

    fn scale_duration(d: u64, factor: i64) -> (r: u64)
        requires
            d <= MAX_DUR,
            0 <= factor <= FP_SCALE,
        ensures
            r == d * factor / (FP_SCALE as int),
            r <= d,
    {
        proof {
            lemma_ramp_bounds(d as int, factor as int, FP_SCALE as int);
            assert(d * factor == factor * d) by (nonlinear_arith);
        }
        (d * (factor as u64)) / (FP_SCALE as u64)
    }

    /// Sets the output-scale factor, which multiplies the final output value
    /// without affecting timing.
    pub fn set_scale(&mut self, envelope_levels: i64)
        requires
            old(self).wf(),
            0 <= envelope_levels <= FP_SCALE,
        ensures
            final(self).wf(),
            *final(self) == (ADSREnvelope { scale: envelope_levels, ..*old(self) }),
    {
        self.scale = envelope_levels;
    }

    /// Sets the attack duration.
    pub fn set_attack(&mut self, attack: u64)
        requires
            old(self).wf(),
            attack <= MAX_DUR,
        ensures
            final(self).wf(),
            final(self).attack == attack,
            final(self).state == old(self).state,
    {
        self.attack = attack;
        if matches!(self.state, ADSREnvelopeState::Attack) && self.time > attack {
            self.time = attack;
        }
    }

    /// Sets the hold duration.
    pub fn set_hold(&mut self, hold: u64)
        requires
            old(self).wf(),
            hold <= MAX_DUR,
        ensures
            final(self).wf(),
            final(self).hold == hold,
            final(self).state == old(self).state,
    {
        self.hold = hold;
        if matches!(self.state, ADSREnvelopeState::Hold) && self.time > hold {
            self.time = hold;
        }
    }

    /// Sets the decay duration.
    pub fn set_decay(&mut self, decay: u64)
        requires
            old(self).wf(),
            decay <= MAX_DUR,
        ensures
            final(self).wf(),
            final(self).decay == decay,
            final(self).state == old(self).state,
    {
        self.decay = decay;
        if matches!(self.state, ADSREnvelopeState::Decay) && self.time > decay {
            self.time = decay;
        }
    }

    /// Sets the sustain level.
    pub fn set_sustain(&mut self, sustain: i64)
        requires
            old(self).wf(),
            0 <= sustain <= FP_SCALE,
        ensures
            final(self).wf(),
            *final(self) == (ADSREnvelope { sustain, ..*old(self) }),
    {
        self.sustain = sustain;
    }

    /// Sets the release duration.
    pub fn set_release(&mut self, release: u64)
        requires
            old(self).wf(),
            release <= MAX_DUR,
        ensures
            final(self).wf(),
            final(self).release == release,
            final(self).state == old(self).state,
    {
        self.release = release;
        if matches!(self.state, ADSREnvelopeState::Release) && self.time > release {
            self.time = release;
        }
    }

    /// The attack duration in samples.
    pub fn get_attack(&self) -> (r: u64)
        ensures
            r == self.attack,
    {
        self.attack
    }

    /// The decay duration in samples.
    pub fn get_decay(&self) -> (r: u64)
        ensures
            r == self.decay,
    {
        self.decay
    }

    /// The sustain level.
    pub fn get_sustain(&self) -> (r: i64)
        ensures
            r == self.sustain,
    {
        self.sustain
    }

    /// The release duration in samples.
    pub fn get_release(&self) -> (r: u64)
        ensures
            r == self.release,
    {
        self.release
    }
}


/// The envelope after `n` single-sample transitions.
pub open spec fn step_n(e: ADSREnvelope, n: nat) -> ADSREnvelope
    decreases n,
{
    if n == 0 {
        e
    } else {
        step_n(e, (n - 1) as nat).step_spec()
    }
}

/// Idle is terminal: stepping an Idle envelope changes nothing.
pub proof fn lemma_idle_terminal(e: ADSREnvelope, n: nat)
    requires
        e.state is Idle,
    ensures
        step_n(e, n) == e,
    decreases n,
{
    if n > 0 {
        lemma_idle_terminal(e, (n - 1) as nat);
    }
}

/// Iterated transitions preserve the invariant.
pub proof fn lemma_step_n_wf(e: ADSREnvelope, n: nat)
    requires
        e.wf(),
    ensures
        step_n(e, n).wf(),
    decreases n,
{
    if n > 0 {
        lemma_step_n_wf(e, (n - 1) as nat);
        step_n(e, (n - 1) as nat).lemma_step_wf();
    }
}

/// Transitions never change the configured stage durations.
pub proof fn lemma_step_n_keeps_durations(e: ADSREnvelope, n: nat)
    ensures
        step_n(e, n).release == e.release,
        step_n(e, n).attack == e.attack,
        step_n(e, n).hold == e.hold,
        step_n(e, n).decay == e.decay,
    decreases n,
{
    if n > 0 {
        lemma_step_n_keeps_durations(e, (n - 1) as nat);
    }
}

/// A releasing envelope reaches Idle within its remaining release time plus
/// one sample.
pub proof fn lemma_release_reaches_idle(e: ADSREnvelope, n: nat)
    requires
        e.wf(),
        e.state is Release,
        n >= e.release - e.time + 1,
    ensures
        step_n(e, n).state is Idle,
    decreases n,
{
    let e1 = e.step_spec();
    lemma_step_shift(e, (n - 1) as nat);
    assert(step_n(e, n) == step_n(e1, (n - 1) as nat));
    if e1.state is Idle {
        lemma_idle_terminal(e1, (n - 1) as nat);
    } else {
        e.lemma_step_wf();
        lemma_release_reaches_idle(e1, (n - 1) as nat);
    }
}

/// Stepping `n + 1` times is stepping once, then `n` times.
pub proof fn lemma_step_shift(e: ADSREnvelope, n: nat)
    ensures
        step_n(e, n + 1) == step_n(e.step_spec(), n),
    decreases n,
{
    if n == 0 {
        assert(step_n(e, 1) == step_n(e, 0).step_spec());
    } else {
        lemma_step_shift(e, (n - 1) as nat);
        assert(step_n(e, n + 1) == step_n(e, n).step_spec());
        assert(step_n(e.step_spec(), n) == step_n(e.step_spec(), (n - 1) as nat).step_spec());
    }
}

/// An envelope that is triggered and then released at any later sample --
/// in particular before its attack completes -- reaches Idle within its
/// release duration plus one sample: no stage can hold it back.
pub proof fn lemma_trigger_release_terminates(e: ADSREnvelope, k: nat, n: nat)
    requires
        e.wf(),
        n >= e.release + 1,
    ensures
        step_n(step_n(e.trigger_spec(), k).release_spec(), n).state is Idle,
{
    let t = e.trigger_spec();
    assert(t.wf());
    lemma_step_n_wf(t, k);
    lemma_step_n_keeps_durations(t, k);
    let r = step_n(t, k).release_spec();
    if step_n(t, k).state is Idle {
        lemma_idle_terminal(r, n);
    } else {
        step_n(t, k).lemma_output_bounded();
        assert(r.wf());
        lemma_release_reaches_idle(r, n);
    }
}

} // verus!
