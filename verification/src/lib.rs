//! A polyphonic voice-synthesis engine: a fixed-capacity voice pool with a
//! deterministic allocation and stealing policy, an event-driven
//! block-splitting scheduler, and a per-voice DSP chain (oscillator, ADSR
//! envelopes, filter bank, modulation LFOs, equal-power panning and mixing).
//!
//! All signal values are carried in a fixed-point format (see [`fixed`]) so
//! that every stage of the chain has an exact, machine-checked contract.
//! Converting to and from the host's floating-point buffers is left to the
//! unverified shell around this crate.

pub mod engine;
pub mod envelope;
pub mod filter;
pub mod fixed;
pub mod modulator;
pub mod rng;
pub mod smoother;
pub mod util;
pub mod voice;
pub mod waveform;
