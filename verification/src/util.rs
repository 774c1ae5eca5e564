//! Conversion helpers and small utilities around the engine.

use vstd::prelude::*;

use crate::fixed::FP_SCALE;

verus! {

/// Runs a closure and hands its result through.
///
/// The engine's callers use this to fence off the few places where a host
/// may allocate while the audio path runs; the library itself neither
/// allocates nor blocks inside it, so the closure's own contract is all
/// that holds of the result.
pub fn permit_alloc<T, F: FnOnce() -> T>(func: F) -> (r: T)
    requires
        call_requires(func, ()),
    ensures
        call_ensures(func, (), r),
{
    func()
}

/// `2^(r / 12)` in fixed point, for `r` in `[0, 12)`: the twelve equal-
/// temperament semitone ratios.
pub open spec fn semitone_ratio_spec(r: int) -> int {
    if r == 0 {
        65536
    } else if r == 1 {
        69433
    } else if r == 2 {
        73562
    } else if r == 3 {
        77936
    } else if r == 4 {
        82570
    } else if r == 5 {
        87480
    } else if r == 6 {
        92682
    } else if r == 7 {
        98193
    } else if r == 8 {
        104032
    } else if r == 9 {
        110218
    } else if r == 10 {
        116772
    } else {
        123715
    }
}

/// The equal-temperament frequency of a MIDI note, in fixed-point Hz, with
/// A4 = note 69 = 440 Hz: `440 * 2^((note - 69) / 12)`, the fractional part
/// of the exponent read from the semitone table and the whole octaves
/// applied as powers of two.
pub open spec fn midi_freq_spec(note: u8) -> int {
    let idx = note + 3;
    let q = idx / 12;
    let base = 440 * semitone_ratio_spec(idx % 12);
    if q == 0 {
        base / 64
    } else if q == 1 {
        base / 32
    } else if q == 2 {
        base / 16
    } else if q == 3 {
        base / 8
    } else if q == 4 {
        base / 4
    } else if q == 5 {
        base / 2
    } else if q == 6 {
        base
    } else if q == 7 {
        base * 2
    } else if q == 8 {
        base * 4
    } else if q == 9 {
        base * 8
    } else {
        base * 16
    }
}

/// Converts a MIDI note number to its equal-temperament frequency in
/// fixed-point Hz (A4 = 440 Hz, middle C = note 60).
pub fn midi_note_to_freq(note: u8) -> (r: i64)
    ensures
        r == midi_freq_spec(note),
        0 < r <= 871049920,
{
    let idx: i64 = note as i64 + 3;
    let q: i64 = idx / 12;
    let rem: i64 = idx % 12;
    let ratio: i64 = if rem == 0 {
        65536
    } else if rem == 1 {
        69433
    } else if rem == 2 {
        73562
    } else if rem == 3 {
        77936
    } else if rem == 4 {
        82570
    } else if rem == 5 {
        87480
    } else if rem == 6 {
        92682
    } else if rem == 7 {
        98193
    } else if rem == 8 {
        104032
    } else if rem == 9 {
        110218
    } else if rem == 10 {
        116772
    } else {
        123715
    };
    let base: i64 = 440 * ratio;
    if q == 0 {
        base / 64
    } else if q == 1 {
        base / 32
    } else if q == 2 {
        base / 16
    } else if q == 3 {
        base / 8
    } else if q == 4 {
        base / 4
    } else if q == 5 {
        base / 2
    } else if q == 6 {
        base
    } else if q == 7 {
        base * 2
    } else if q == 8 {
        base * 4
    } else if q == 9 {
        base * 8
    } else {
        base * 16
    }
}

/// The phase increment per sample for a MIDI note at a sample rate: the
/// note's frequency divided by the rate, in fixed-point cycles, kept below
/// one whole cycle.
pub open spec fn phase_delta_spec(note: u8, rate: int) -> int {
    let d = midi_freq_spec(note) / rate;
    if d >= FP_SCALE {
        FP_SCALE - 1
    } else {
        d
    }
}

/// The phase increment per sample for a MIDI note at a sample rate.
pub fn note_phase_delta(note: u8, sample_rate: u32) -> (r: i64)
    requires
        sample_rate >= 1,
    ensures
        r == phase_delta_spec(note, sample_rate as int),
        0 <= r < FP_SCALE,
{
    let f = midi_note_to_freq(note);
    let d = f / (sample_rate as i64);
    proof {
        vstd::arithmetic::div_mod::lemma_div_pos_is_pos(f as int, sample_rate as int);
    }
    if d >= FP_SCALE {
        FP_SCALE - 1
    } else {
        d
    }
}

} // verus!
