//! The voice engine: a fixed pool of `NUM_VOICES` optional voices with a
//! deterministic allocation and stealing policy, the per-(voice id |
//! channel+note) lookup, and the event-driven block-splitting render loop.

use vstd::prelude::*;

use crate::envelope::{ADSREnvelope, ADSREnvelopeState, MAX_DUR};
use crate::filter::{FilterBank, FilterType};
use crate::fixed::{isqrt, FP_SCALE};
use crate::modulator::{Modulator, OscillatorShape, MAX_MOD_RATE};
use crate::rng::Pcg32;
use crate::smoother::{Smoother, MAX_SMOOTH_LEN};
use crate::voice::{Voice, TUNING_MAX};
use crate::waveform::Waveform;

verus! {

/// The pool's fixed capacity: at most this many voices sound at once.
pub const NUM_VOICES: usize = 16;

/// The largest sub-block the render loop processes at once.
pub const MAX_BLOCK_SIZE: usize = 64;

/// The one modulation target the engine exposes: per-voice gain.
pub const GAIN_POLY_MOD_ID: u32 = 0;

/// A timed note or modulation event; the timing is a 0-based sample offset
/// within the render call.
#[derive(Clone, Copy, Debug)]
pub enum NoteEvent {
    /// A note starts.
    NoteOn { timing: u32, voice_id: Option<i32>, channel: u8, note: u8, velocity: i64 },
    /// A note is released.
    NoteOff { timing: u32, voice_id: Option<i32>, channel: u8, note: u8, velocity: i64 },
    /// A note is cut off at once.
    Choke { timing: u32, voice_id: Option<i32>, channel: u8, note: u8 },
    /// A per-voice modulation offset for a target parameter.
    PolyModulation { timing: u32, voice_id: i32, poly_modulation_id: u32, normalized_offset: i64 },
    /// A new automation value for a possibly-modulated parameter.
    MonoAutomation { timing: u32, poly_modulation_id: u32, normalized_value: i64 },
    /// Per-voice pressure.
    PolyPressure { timing: u32, voice_id: Option<i32>, channel: u8, note: u8, pressure: i64 },
    /// Per-voice volume.
    PolyVolume { timing: u32, voice_id: Option<i32>, channel: u8, note: u8, gain: i64 },
    /// Per-voice pan.
    PolyPan { timing: u32, voice_id: Option<i32>, channel: u8, note: u8, pan: i64 },
    /// Per-voice tuning.
    PolyTuning { timing: u32, voice_id: Option<i32>, channel: u8, note: u8, tuning: i64 },
    /// Per-voice vibrato.
    PolyVibrato { timing: u32, voice_id: Option<i32>, channel: u8, note: u8, vibrato: i64 },
}

impl NoteEvent {
    /// The event's sample offset.
    pub open spec fn timing_spec(self) -> u32 {
        match self {
            NoteEvent::NoteOn { timing, .. } => timing,
            NoteEvent::NoteOff { timing, .. } => timing,
            NoteEvent::Choke { timing, .. } => timing,
            NoteEvent::PolyModulation { timing, .. } => timing,
            NoteEvent::MonoAutomation { timing, .. } => timing,
            NoteEvent::PolyPressure { timing, .. } => timing,
            NoteEvent::PolyVolume { timing, .. } => timing,
            NoteEvent::PolyPan { timing, .. } => timing,
            NoteEvent::PolyTuning { timing, .. } => timing,
            NoteEvent::PolyVibrato { timing, .. } => timing,
        }
    }

    /// The event's sample offset.
    pub fn timing(&self) -> (t: u32)
        ensures
            t == self.timing_spec(),
    {
        match self {
            NoteEvent::NoteOn { timing, .. } => *timing,
            NoteEvent::NoteOff { timing, .. } => *timing,
            NoteEvent::Choke { timing, .. } => *timing,
            NoteEvent::PolyModulation { timing, .. } => *timing,
            NoteEvent::MonoAutomation { timing, .. } => *timing,
            NoteEvent::PolyPressure { timing, .. } => *timing,
            NoteEvent::PolyVolume { timing, .. } => *timing,
            NoteEvent::PolyPan { timing, .. } => *timing,
            NoteEvent::PolyTuning { timing, .. } => *timing,
            NoteEvent::PolyVibrato { timing, .. } => *timing,
        }
    }

    /// Whether the event's payload values are in range.
    pub open spec fn wf(self) -> bool {
        match self {
            NoteEvent::NoteOn { velocity, .. } => 0 <= velocity <= FP_SCALE,
            NoteEvent::NoteOff { velocity, .. } => 0 <= velocity <= FP_SCALE,
            NoteEvent::Choke { .. } => true,
            NoteEvent::PolyModulation { normalized_offset, .. } => -FP_SCALE <= normalized_offset
                <= FP_SCALE,
            NoteEvent::MonoAutomation { normalized_value, .. } => 0 <= normalized_value
                <= FP_SCALE,
            NoteEvent::PolyPressure { pressure, .. } => 0 <= pressure <= FP_SCALE,
            NoteEvent::PolyVolume { gain, .. } => 0 <= gain <= FP_SCALE,
            NoteEvent::PolyPan { pan, .. } => 0 <= pan <= FP_SCALE,
            NoteEvent::PolyTuning { tuning, .. } => -TUNING_MAX <= tuning <= TUNING_MAX,
            NoteEvent::PolyVibrato { vibrato, .. } => 0 <= vibrato <= FP_SCALE,
        }
    }
}

/// The notification the engine emits when a voice's slot is freed.
#[derive(Clone, Copy, PartialEq, Eq, Structural, Debug)]
pub struct VoiceTerminatedEvent {
    /// The sample offset (or sub-block boundary) where the termination was
    /// detected.
    pub timing: u32,
    /// The terminated voice's id.
    pub voice_id: Option<i32>,
    /// The terminated voice's channel.
    pub channel: u8,
    /// The terminated voice's note.
    pub note: u8,
}

/// The per-block snapshot of plain parameter values the engine reads.
#[derive(Clone, Copy, Debug)]
pub struct EngineParams {
    /// The gain parameter's current plain value, fixed point.
    pub gain: i64,
    /// The gain parameter's linear range, for normalized-to-plain mapping.
    pub gain_min: i64,
    /// The upper end of the gain range.
    pub gain_max: i64,
    /// The gain parameter's current normalized value, fixed point.
    pub gain_norm: i64,
    /// How many samples a new gain target is smoothed over.
    pub gain_smooth_samples: u64,
    /// Amplitude envelope attack duration in samples.
    pub amp_attack: u64,
    /// Amplitude envelope hold duration.
    pub amp_hold: u64,
    /// Amplitude envelope decay duration.
    pub amp_decay: u64,
    /// Amplitude envelope sustain level, fixed point.
    pub amp_sustain: i64,
    /// Amplitude envelope release duration.
    pub amp_release: u64,
    /// Filter-cutoff envelope attack duration.
    pub cut_attack: u64,
    /// Filter-cutoff envelope hold duration.
    pub cut_hold: u64,
    /// Filter-cutoff envelope decay duration.
    pub cut_decay: u64,
    /// Filter-cutoff envelope sustain level, fixed point.
    pub cut_sustain: i64,
    /// Filter-cutoff envelope release duration.
    pub cut_release: u64,
    /// Filter-resonance envelope attack duration.
    pub res_attack: u64,
    /// Filter-resonance envelope hold duration.
    pub res_hold: u64,
    /// Filter-resonance envelope decay duration.
    pub res_decay: u64,
    /// Filter-resonance envelope sustain level, fixed point.
    pub res_sustain: i64,
    /// Filter-resonance envelope release duration.
    pub res_release: u64,
    /// The selected oscillator waveform.
    pub waveform: Waveform,
    /// The selected filter algorithm.
    pub filter_type: FilterType,
    /// The filter's base cutoff in Hz.
    pub filter_cut: i64,
    /// The filter's base resonance, fixed point.
    pub filter_res: i64,
    /// Dry/wet blend of the filter, fixed point.
    pub filter_amount: i64,
    /// Vibrato LFO rate in fixed-point Hz.
    pub vibrato_rate: i64,
    /// Vibrato LFO peak intensity, fixed point.
    pub vibrato_peak: i64,
    /// Vibrato LFO ramp duration in samples.
    pub vibrato_attack: u64,
    /// Vibrato LFO shape.
    pub vibrato_shape: OscillatorShape,
    /// Tremolo LFO rate in fixed-point Hz.
    pub tremolo_rate: i64,
    /// Tremolo LFO peak intensity, fixed point.
    pub tremolo_peak: i64,
    /// Tremolo LFO ramp duration in samples.
    pub tremolo_attack: u64,
    /// Tremolo LFO shape.
    pub tremolo_shape: OscillatorShape,
}

impl EngineParams {
    /// All parameter values in range.
    pub open spec fn wf(self) -> bool {
        &&& 0 <= self.gain <= FP_SCALE
        &&& 0 <= self.gain_min <= self.gain_max <= FP_SCALE
        &&& 0 <= self.gain_norm <= FP_SCALE
        &&& self.gain_smooth_samples <= MAX_SMOOTH_LEN
        &&& self.amp_attack <= MAX_DUR
        &&& self.amp_hold <= MAX_DUR
        &&& self.amp_decay <= MAX_DUR
        &&& 0 <= self.amp_sustain <= FP_SCALE
        &&& self.amp_release <= MAX_DUR
        &&& self.cut_attack <= MAX_DUR
        &&& self.cut_hold <= MAX_DUR
        &&& self.cut_decay <= MAX_DUR
        &&& 0 <= self.cut_sustain <= FP_SCALE
        &&& self.cut_release <= MAX_DUR
        &&& self.res_attack <= MAX_DUR
        &&& self.res_hold <= MAX_DUR
        &&& self.res_decay <= MAX_DUR
        &&& 0 <= self.res_sustain <= FP_SCALE
        &&& self.res_release <= MAX_DUR
        &&& crate::filter::cutoff_ok(self.filter_cut)
        &&& crate::filter::resonance_ok(self.filter_res)
        &&& 0 <= self.filter_amount <= FP_SCALE
        &&& 0 <= self.vibrato_rate <= MAX_MOD_RATE
        &&& 0 <= self.vibrato_peak <= FP_SCALE
        &&& self.vibrato_attack <= MAX_DUR
        &&& 0 <= self.tremolo_rate <= MAX_MOD_RATE
        &&& 0 <= self.tremolo_peak <= FP_SCALE
        &&& self.tremolo_attack <= MAX_DUR
    }
}

/// The fallback voice id synthesized when the host supplies none: the note
/// in the low bits, the channel shifted above them.
pub open spec fn fallback_voice_id_spec(note: u8, channel: u8) -> int {
    note + channel * 65536
}

/// Computes the fallback voice id for a (note, channel) pair.
pub fn compute_fallback_voice_id(note: u8, channel: u8) -> (r: i32)
    ensures
        r == fallback_voice_id_spec(note, channel),
{
    (note as i32) + ((channel as i32) * 65536)
}

/// Whether a live voice matches an identity query: an explicit voice id
/// must equal the candidate's; with none supplied, channel and note must
/// both match.
pub open spec fn voice_matches(v: Voice, voice_id: Option<i32>, channel: u8, note: u8) -> bool {
    match voice_id {
        Some(id) => v.voice_id == id,
        None => v.channel == channel && v.note == note,
    }
}

/// The first free slot at or after `i`, or -1 when every slot from `i` on
/// is live.
pub open spec fn find_free_from(s: Seq<Option<Voice>>, i: int) -> int
    decreases s.len() - i,
{
    if i < 0 || i >= s.len() {
        -1
    } else if s[i] is None {
        i
    } else {
        find_free_from(s, i + 1)
    }
}

/// The index of the oldest voice (smallest creation sequence number) among
/// the live slots below `i`, or -1 when none is live there.
pub open spec fn oldest_before(s: Seq<Option<Voice>>, i: int) -> int
    decreases i,
{
    if i <= 0 || i > s.len() {
        -1
    } else {
        let prev = oldest_before(s, i - 1);
        if s[i - 1] is None {
            prev
        } else if prev == -1 {
            i - 1
        } else if s[prev]->Some_0.internal_voice_id <= s[i - 1]->Some_0.internal_voice_id {
            prev
        } else {
            i - 1
        }
    }
}

/// The first slot at or after `i` whose live voice matches the query, or
/// -1.
pub open spec fn find_match_from(
    s: Seq<Option<Voice>>,
    i: int,
    voice_id: Option<i32>,
    channel: u8,
    note: u8,
) -> int
    decreases s.len() - i,
{
    if i < 0 || i >= s.len() {
        -1
    } else if s[i] is Some && voice_matches(s[i]->Some_0, voice_id, channel, note) {
        i
    } else {
        find_match_from(s, i + 1, voice_id, channel, note)
    }
}

/// The polyphonic voice engine.
pub struct SubSynth {
    /// The seeded pseudo-random generator for initial oscillator phases and
    /// noise.
    pub prng: Pcg32,
    /// The fixed pool of voice slots.
    pub voices: Vec<Option<Voice>>,
    /// Scan start used when placing voices created by expression events.
    pub next_voice_index: usize,
    /// The next creation sequence number.
    pub next_internal_voice_id: u64,
    /// The block smoother for the global gain parameter.
    pub gain_smoother: Smoother,
}

impl SubSynth {
    /// The live voice in slot `i`.
    pub open spec fn voice_at(self, i: int) -> Voice {
        self.voices[i]->Some_0
    }

    /// Whether slot `i` holds a live voice.
    pub open spec fn live(self, i: int) -> bool {
        self.voices[i] is Some
    }

    /// The engine's invariant: the pool has exactly `NUM_VOICES` slots,
    /// every live voice is well formed, every live voice's creation number
    /// is below the next one to be handed out, and no two live voices share
    /// a creation number.
    pub open spec fn wf(self) -> bool {
        &&& self.voices.len() == NUM_VOICES
        &&& forall|i: int|
            0 <= i < NUM_VOICES && self.live(i) ==> (#[trigger] self.voice_at(i)).wf()
        &&& forall|i: int|
            0 <= i < NUM_VOICES && self.live(i) ==> (
            #[trigger] self.voice_at(i)).internal_voice_id < self.next_internal_voice_id
        &&& forall|i: int, j: int|
            0 <= i < j < NUM_VOICES && self.live(i) && self.live(j)
                ==> #[trigger] self.voice_at(i).internal_voice_id
                != #[trigger] self.voice_at(j).internal_voice_id
        &&& self.next_voice_index < NUM_VOICES
        &&& self.gain_smoother.wf()
    }

    /// How many slots hold a live voice. The pool never grows, so this is
    /// at most `NUM_VOICES` by construction.
    pub open spec fn occupancy(self) -> nat {
        Set::new(|i: int| 0 <= i < NUM_VOICES && self.live(i)).len()
    }

    /// Builds an engine with an empty pool and the fixed seed.
    pub fn new() -> (r: SubSynth)
        ensures
            r.wf(),
            r.voices@.len() == NUM_VOICES,
            forall|i: int| 0 <= i < NUM_VOICES ==> !r.live(i),
            r.next_internal_voice_id == 0,
            r.next_voice_index == 0,
            r.prng == crate::rng::pcg_seed_spec(420, 1337),
            r.gain_smoother == (Smoother { start: 0, target: 0, pos: 0, len: 0 }),
    {
        let mut voices: Vec<Option<Voice>> = Vec::new();
        let mut k: usize = 0;
        while k < NUM_VOICES
            invariant
                k <= NUM_VOICES,
                voices@.len() == k,
                forall|i: int| 0 <= i < k ==> voices@[i] is None,
            decreases NUM_VOICES - k,
        {
            voices.push(None);
            k = k + 1;
        }
        SubSynth {
            prng: Pcg32::new(420, 1337),
            voices,
            next_voice_index: 0,
            next_internal_voice_id: 0,
            gain_smoother: Smoother::constant(0),
        }
    }

    /// Clears the pool, reseeds the generator and restarts the creation
    /// numbering, as on a transport reset.
    pub fn reset(&mut self)
        requires
            old(self).wf(),
        ensures
            final(self).wf(),
            forall|i: int| 0 <= i < NUM_VOICES ==> !final(self).live(i),
            final(self).next_internal_voice_id == 0,
            final(self).prng == crate::rng::pcg_seed_spec(420, 1337),
            final(self).next_voice_index == old(self).next_voice_index,
            final(self).gain_smoother == old(self).gain_smoother,
    {
        self.prng = Pcg32::new(420, 1337);
        let mut k: usize = 0;
        while k < NUM_VOICES
            invariant
                old(self).wf(),
                self.prng == crate::rng::pcg_seed_spec(420, 1337),
                k <= NUM_VOICES,
                self.voices@.len() == NUM_VOICES,
                forall|i: int| 0 <= i < k ==> self.voices@[i] is None,
                forall|i: int|
                    k <= i < NUM_VOICES ==> self.voices@[i] == old(self).voices@[i],
                self.next_voice_index == old(self).next_voice_index,
                self.gain_smoother == old(self).gain_smoother,
                self.next_internal_voice_id == old(self).next_internal_voice_id,
            decreases NUM_VOICES - k,
        {
            self.voices.set(k, None);
            k = k + 1;
        }
        self.next_internal_voice_id = 0;
    }

    /// The slot index of the live voice with the given id, scanning from
    /// the bottom, or nothing when no live voice carries it.
    pub fn get_voice_idx(&mut self, voice_id: i32) -> (r: Option<usize>)
        requires
            old(self).wf(),
        ensures
            *final(self) == *old(self),
            r == (if find_match_from(old(self).voices@, 0, Some(voice_id), 0, 0) >= 0 {
                Some(find_match_from(old(self).voices@, 0, Some(voice_id), 0, 0) as usize)
            } else {
                Option::<usize>::None
            }),
    {
        let ghost s = self.voices@;
        let mut k: usize = 0;
        while k < NUM_VOICES
            invariant
                self == old(self),
                self.voices@.len() == NUM_VOICES,
                k <= NUM_VOICES,
                s == self.voices@,
                find_match_from(s, 0, Some(voice_id), 0, 0) == find_match_from(
                    s,
                    k as int,
                    Some(voice_id),
                    0,
                    0,
                ),
            decreases NUM_VOICES - k,
        {
            let hit = match &self.voices[k] {
                Some(v) => v.voice_id == voice_id,
                None => false,
            };
            if hit {
                return Some(k);
            }
            k = k + 1;
        }
        None
    }
}


/// A successful free-slot scan lands inside the pool.
pub proof fn lemma_find_free_range(s: Seq<Option<Voice>>, i: int)
    requires
        0 <= i,
    ensures
        find_free_from(s, i) == -1 || (i <= find_free_from(s, i) < s.len() && s[find_free_from(
            s,
            i,
        )] is None),
    decreases s.len() - i,
{
    if i < s.len() && !(s[i] is None) {
        lemma_find_free_range(s, i + 1);
    }
}

/// A successful match scan lands inside the pool, on a live matching
/// voice.
pub proof fn lemma_find_match_range(
    s: Seq<Option<Voice>>,
    i: int,
    voice_id: Option<i32>,
    channel: u8,
    note: u8,
)
    requires
        0 <= i,
    ensures
        find_match_from(s, i, voice_id, channel, note) == -1 || (i <= find_match_from(
            s,
            i,
            voice_id,
            channel,
            note,
        ) < s.len() && s[find_match_from(s, i, voice_id, channel, note)] is Some && voice_matches(
            s[find_match_from(s, i, voice_id, channel, note)]->Some_0,
            voice_id,
            channel,
            note,
        )),
    decreases s.len() - i,
{
    if i < s.len() && !(s[i] is Some && voice_matches(s[i]->Some_0, voice_id, channel, note)) {
        lemma_find_match_range(s, i + 1, voice_id, channel, note);
    }
}

/// When no slot is free from `i` on, every slot from `i` on is live.
pub proof fn lemma_no_free(s: Seq<Option<Voice>>, i: int)
    requires
        find_free_from(s, i) == -1,
        0 <= i,
    ensures
        forall|j: int| i <= j < s.len() ==> s[j] is Some,
    decreases s.len() - i,
{
    if i < s.len() {
        lemma_no_free(s, i + 1);
    }
}

/// With slot 0 live, the oldest-voice scan lands on a live slot below `i`.
pub proof fn lemma_oldest_range(s: Seq<Option<Voice>>, i: int)
    requires
        0 < i <= s.len(),
        s[0] is Some,
    ensures
        0 <= oldest_before(s, i) < i,
        s[oldest_before(s, i)] is Some,
    decreases i,
{
    if i == 1 {
        assert(oldest_before(s, 0) == -1);
    } else {
        lemma_oldest_range(s, i - 1);
    }
}

/// The oldest-voice scan finds a voice no younger than any live voice
/// below `i`: its creation sequence number is minimal.
pub proof fn lemma_oldest_is_min(s: Seq<Option<Voice>>, i: int)
    requires
        0 < i <= s.len(),
        s[0] is Some,
    ensures
        forall|j: int|
            0 <= j < i && (#[trigger] s[j]) is Some
                ==> s[oldest_before(s, i)]->Some_0.internal_voice_id
                <= s[j]->Some_0.internal_voice_id,
    decreases i,
{
    lemma_oldest_range(s, i);
    if i == 1 {
        assert(oldest_before(s, 0) == -1);
    } else {
        lemma_oldest_is_min(s, i - 1);
        lemma_oldest_range(s, i - 1);
    }
}

/// An engine whose pool, creation numbering, scan index and gain smoother
/// agree with a well-formed one is well formed: the invariant does not
/// depend on the generator's state.
proof fn lemma_wf_same_pool(a: SubSynth, b: SubSynth)
    requires
        a.wf(),
        b.voices == a.voices,
        b.next_internal_voice_id == a.next_internal_voice_id,
        b.next_voice_index < NUM_VOICES,
        b.gain_smoother.wf(),
    ensures
        b.wf(),
{
    assert forall|i: int| 0 <= i < NUM_VOICES && b.live(i) implies (
    #[trigger] b.voice_at(i)).wf() by {
        assert(a.live(i));
        assert(b.voice_at(i) == a.voice_at(i));
        assert(a.voice_at(i).wf());
    }
    assert forall|i: int| 0 <= i < NUM_VOICES && b.live(i) implies (
    #[trigger] b.voice_at(i)).internal_voice_id < b.next_internal_voice_id by {
        assert(a.live(i));
        assert(b.voice_at(i) == a.voice_at(i));
        assert(a.voice_at(i).internal_voice_id < a.next_internal_voice_id);
    }
    assert forall|i: int, j: int|
        0 <= i < j < NUM_VOICES && b.live(i) && b.live(j)
            implies #[trigger] b.voice_at(i).internal_voice_id
            != #[trigger] b.voice_at(j).internal_voice_id by {
        assert(a.live(i) && a.live(j));
        assert(b.voice_at(i) == a.voice_at(i));
        assert(b.voice_at(j) == a.voice_at(j));
    }
}

/// Writing a voice with the next creation number into any slot, and
/// advancing the numbering, preserves the engine's invariant.
proof fn lemma_wf_after_place(pre: SubSynth, post: SubSynth, k: int, nv: Voice)
    requires
        pre.wf(),
        0 <= k < NUM_VOICES,
        nv.wf(),
        nv.internal_voice_id == pre.next_internal_voice_id,
        pre.next_internal_voice_id < u64::MAX,
        post.voices@ == pre.voices@.update(k, Some(nv)),
        post.next_internal_voice_id == pre.next_internal_voice_id + 1,
        post.next_voice_index == pre.next_voice_index,
        post.gain_smoother == pre.gain_smoother,
    ensures
        post.wf(),
{
    assert(post.voices@.len() == NUM_VOICES);
    assert forall|i: int| 0 <= i < NUM_VOICES && post.live(i) implies (
    #[trigger] post.voice_at(i)).wf() by {
        if i != k {
            assert(post.voices@[i] == pre.voices@[i]);
            assert(pre.voice_at(i).wf());
        }
    }
    assert forall|i: int| 0 <= i < NUM_VOICES && post.live(i) implies (
    #[trigger] post.voice_at(i)).internal_voice_id < post.next_internal_voice_id by {
        if i != k {
            assert(post.voices@[i] == pre.voices@[i]);
            assert(pre.live(i));
            assert(pre.voice_at(i).internal_voice_id < pre.next_internal_voice_id);
            assert(post.voice_at(i) == pre.voice_at(i));
        } else {
            assert(post.voices@[i] == Some(nv));
            assert(post.voice_at(i) == nv);
            assert(nv.internal_voice_id < post.next_internal_voice_id);
        }
    }
    assert forall|i: int, j: int|
        0 <= i < j < NUM_VOICES && post.live(i) && post.live(j)
            implies #[trigger] post.voice_at(i).internal_voice_id
            != #[trigger] post.voice_at(j).internal_voice_id by {
        if i != k && j != k {
            assert(post.voices@[i] == pre.voices@[i]);
            assert(post.voices@[j] == pre.voices@[j]);
        } else if i == k {
            assert(post.voices@[j] == pre.voices@[j]);
            assert(pre.voice_at(j).internal_voice_id < pre.next_internal_voice_id);
        } else {
            assert(post.voices@[i] == pre.voices@[i]);
            assert(pre.voice_at(i).internal_voice_id < pre.next_internal_voice_id);
        }
    }
}

/// The voice that actually lands in a slot: when the slot held a voice,
/// the newcomer keeps that occupant's filter memory and DC blocker — slot
/// reuse performs no implicit reset of the feedback state — and everything
/// else is the newcomer's own. A free slot hands over nothing.
pub open spec fn reuse_voice_spec(nv: Voice, prior: Option<Voice>) -> Voice {
    match prior {
        Some(ov) => Voice { filters: ov.filters, dc_blocker: ov.dc_blocker, ..nv },
        None => nv,
    }
}

impl SubSynth {
    /// Places a freshly built voice in the pool: in the first free slot
    /// when one exists, else over the oldest voice, which keeps feeding its
    /// filter memory and DC blocker to the newcomer. Stealing an
    /// Idle-or-Releasing voice is silent; stealing a sounding one emits its
    /// termination notification. The pool never grows and the engine never
    /// refuses a voice.
    fn place_new_voice(&mut self, new_voice: Voice, sample_offset: u32) -> (r: Option<
        VoiceTerminatedEvent,
    >)
        requires
            old(self).wf(),
            new_voice.wf(),
            new_voice.internal_voice_id == old(self).next_internal_voice_id,
            old(self).next_internal_voice_id < u64::MAX,
        ensures
            final(self).wf(),
            final(self).next_internal_voice_id == old(self).next_internal_voice_id + 1,
            final(self).next_voice_index == old(self).next_voice_index,
            final(self).gain_smoother == old(self).gain_smoother,
            final(self).prng == old(self).prng,
            ({
                let s = old(self).voices@;
                let free = find_free_from(s, 0);
                if free >= 0 {
                    &&& final(self).voices@ == s.update(free, Some(new_voice))
                    &&& r is None
                } else {
                    let k = oldest_before(s, NUM_VOICES as int);
                    &&& 0 <= k < NUM_VOICES
                    &&& final(self).voices@ == s.update(
                        k,
                        Some(reuse_voice_spec(new_voice, s[k])),
                    )
                    &&& ((s[k]->Some_0.amp_envelope.state is Idle
                        || s[k]->Some_0.amp_envelope.state is Release) ==> r is None)
                    &&& (!(s[k]->Some_0.amp_envelope.state is Idle
                        || s[k]->Some_0.amp_envelope.state is Release) ==> r == Some(
                        VoiceTerminatedEvent {
                            timing: sample_offset,
                            voice_id: Some(s[k]->Some_0.voice_id),
                            channel: s[k]->Some_0.channel,
                            note: s[k]->Some_0.note,
                        },
                    ))
                }
            }),
    {
        let ghost s = self.voices@;
        let mut free_idx: usize = NUM_VOICES;
        let mut k: usize = 0;
        while k < NUM_VOICES
            invariant_except_break
                free_idx == NUM_VOICES,
                find_free_from(s, 0) == find_free_from(s, k as int),
            invariant
                self == old(self),
                self.voices@.len() == NUM_VOICES,
                s == self.voices@,
                k <= NUM_VOICES,
            ensures
                free_idx <= NUM_VOICES,
                free_idx < NUM_VOICES ==> free_idx == find_free_from(s, 0),
                free_idx == NUM_VOICES ==> find_free_from(s, 0) == -1,
                self == old(self),
                s == self.voices@,
            decreases NUM_VOICES - k,
        {
            if self.voices[k].is_none() {
                free_idx = k;
                proof {
                    assert(find_free_from(s, k as int) == k);
                }
                break ;
            }
            k = k + 1;
        }
        if free_idx < NUM_VOICES {
            self.voices.set(free_idx, Some(new_voice));
            self.next_internal_voice_id = self.next_internal_voice_id + 1;
            proof {
                lemma_wf_after_place(*old(self), *self, free_idx as int, new_voice);
            }
            None
        } else {
            proof {
                assert(find_free_from(s, 0) == -1);
                lemma_no_free(s, 0);
                assert(oldest_before(s, 0) == -1);
                lemma_oldest_range(s, NUM_VOICES as int);
            }
            let mut best: usize = 0;
            let mut j: usize = 1;
            while j < NUM_VOICES
                invariant
                    self == old(self),
                    self.voices@.len() == NUM_VOICES,
                    s == self.voices@,
                    1 <= j <= NUM_VOICES,
                    best < j,
                    forall|i: int| 0 <= i < NUM_VOICES ==> s[i] is Some,
                    best == oldest_before(s, j as int),
                decreases NUM_VOICES - j,
            {
                let bid = match &self.voices[best] {
                    Some(v) => v.internal_voice_id,
                    None => 0,
                };
                let jid = match &self.voices[j] {
                    Some(v) => v.internal_voice_id,
                    None => 0,
                };
                if jid < bid {
                    best = j;
                }
                j = j + 1;
            }
            let mut carried = new_voice;
            let (old_id, old_channel, old_note, old_silent) = match &self.voices[best] {
                Some(v) => {
                    let st = v.amp_envelope.get_state();
                    carried.filters = v.filters;
                    carried.dc_blocker = v.dc_blocker;
                    (
                        v.voice_id,
                        v.channel,
                        v.note,
                        matches!(st, ADSREnvelopeState::Idle)
                            || matches!(st, ADSREnvelopeState::Release),
                    )
                },
                None => (0, 0, 0, true),
            };
            proof {
                assert(old(self).voice_at(best as int).wf());
                assert(carried == reuse_voice_spec(new_voice, s[best as int]));
                assert(carried.wf());
            }
            self.voices.set(best, Some(carried));
            self.next_internal_voice_id = self.next_internal_voice_id + 1;
            proof {
                lemma_wf_after_place(*old(self), *self, best as int, carried);
            }
            if old_silent {
                None
            } else {
                Some(
                    VoiceTerminatedEvent {
                        timing: sample_offset,
                        voice_id: Some(old_id),
                        channel: old_channel,
                        note: old_note,
                    },
                )
            }
        }
    }
}


/// What a freshly created voice looks like, apart from its randomized
/// initial phase and its filter memory: identity from the event,
/// performance and expression state from the event's payload, envelopes at
/// the start of their attack, LFOs at the start of their ramps, no
/// per-voice gain modulation, and the phase increment of its note at the
/// engine's sample rate.
pub open spec fn fresh_voice_ok(
    v: Voice,
    voice_id: Option<i32>,
    channel: u8,
    note: u8,
    velocity: i64,
    pan: i64,
    brightness: i64,
    expression: i64,
    vibrato: i64,
    tuning: i64,
    internal_id: u64,
    params: EngineParams,
    sample_rate: u32,
) -> bool {
    &&& v.voice_id == match voice_id {
        Some(id) => id as int,
        None => fallback_voice_id_spec(note, channel),
    }
    &&& v.channel == channel
    &&& v.note == note
    &&& v.internal_voice_id == internal_id
    &&& v.velocity == velocity
    &&& v.velocity_sqrt * v.velocity_sqrt <= velocity * FP_SCALE < (v.velocity_sqrt + 1) * (
    v.velocity_sqrt + 1)
    &&& v.phase_delta == crate::util::phase_delta_spec(note, sample_rate as int)
    &&& v.releasing == false
    &&& v.amp_envelope == ADSREnvelope {
        attack: params.amp_attack,
        hold: params.amp_hold,
        decay: params.amp_decay,
        sustain: params.amp_sustain,
        release: params.amp_release,
        state: ADSREnvelopeState::Attack,
        time: 0,
        release_level: params.amp_sustain,
        velocity,
        scale: FP_SCALE as i64,
    }
    &&& v.filter_cut_envelope.state is Attack
    &&& v.filter_cut_envelope.attack == params.cut_attack
    &&& v.filter_res_envelope.state is Attack
    &&& v.filter_res_envelope.attack == params.res_attack
    &&& v.voice_gain is None
    &&& v.filter == Some(params.filter_type)
    &&& v.pan == pan
    &&& v.pressure == 0
    &&& v.tuning == tuning
    &&& v.vibrato == vibrato
    &&& v.expression == expression
    &&& v.brightness == brightness
}

/// The voice a creation call yields, in full: identity from the event,
/// performance and expression state from the payload, envelopes at the
/// start of their attack, LFOs at the start of their ramps, a cleared
/// filter bank and DC blocker, and the phase increment of the note at the
/// engine's sample rate. The filter bank and DC blocker here are the
/// cleared ones a never-used slot yields; placement into an occupied slot
/// swaps in the prior occupant's (see [`reuse_voice_spec`]).
pub open spec fn fresh_voice_spec(
    voice_id: Option<i32>,
    channel: u8,
    note: u8,
    velocity: i64,
    pan: i64,
    brightness: i64,
    expression: i64,
    vibrato: i64,
    tuning: i64,
    initial_phase: i64,
    internal_id: u64,
    params: EngineParams,
    sample_rate: u32,
) -> Voice {
    Voice {
        voice_id: (match voice_id {
            Some(id) => id as int,
            None => fallback_voice_id_spec(note, channel),
        }) as i32,
        channel,
        note,
        internal_voice_id: internal_id,
        velocity,
        velocity_sqrt: crate::voice::sqrt_floor((velocity * FP_SCALE) as nat) as i64,
        phase: initial_phase,
        phase_delta: crate::util::phase_delta_spec(note, sample_rate as int) as i64,
        releasing: false,
        amp_envelope: ADSREnvelope {
            attack: params.amp_attack,
            hold: params.amp_hold,
            decay: params.amp_decay,
            sustain: params.amp_sustain,
            release: params.amp_release,
            state: ADSREnvelopeState::Attack,
            time: 0,
            release_level: params.amp_sustain,
            velocity,
            scale: FP_SCALE as i64,
        },
        voice_gain: None,
        filter_cut_envelope: ADSREnvelope {
            attack: params.cut_attack,
            hold: params.cut_hold,
            decay: params.cut_decay,
            sustain: params.cut_sustain,
            release: params.cut_release,
            state: ADSREnvelopeState::Attack,
            time: 0,
            release_level: params.cut_sustain,
            velocity,
            scale: FP_SCALE as i64,
        },
        filter_res_envelope: ADSREnvelope {
            attack: params.res_attack,
            hold: params.res_hold,
            decay: params.res_decay,
            sustain: params.res_sustain,
            release: params.res_release,
            state: ADSREnvelopeState::Attack,
            time: 0,
            release_level: params.res_sustain,
            velocity,
            scale: FP_SCALE as i64,
        },
        filter: Some(params.filter_type),
        filters: crate::filter::bank_new_spec(
            params.filter_cut as int,
            params.filter_res as int,
            sample_rate as int,
        ),
        dc_blocker: crate::filter::DCBlocker { x1: 0, y1: 0 },
        vibrato_lfo: Modulator {
            modulation_rate: params.vibrato_rate,
            peak_intensity: params.vibrato_peak,
            attack_duration: params.vibrato_attack,
            oscillator_shape: params.vibrato_shape,
            current_time: 0,
            phase: 0,
        },
        tremolo_lfo: Modulator {
            modulation_rate: params.tremolo_rate,
            peak_intensity: params.tremolo_peak,
            attack_duration: params.tremolo_attack,
            oscillator_shape: params.tremolo_shape,
            current_time: 0,
            phase: 0,
        },
        pan,
        pressure: 0,
        tuning,
        vibrato,
        expression,
        brightness,
    }
}

impl SubSynth {
    /// Builds a voice for a note, with the given initial oscillator phase.
    fn make_voice(
        &self,
        voice_id: Option<i32>,
        channel: u8,
        note: u8,
        velocity: i64,
        pan: i64,
        brightness: i64,
        expression: i64,
        vibrato: i64,
        tuning: i64,
        initial_phase: i64,
        internal_id: u64,
        params: &EngineParams,
        sample_rate: u32,
    ) -> (v: Voice)
        requires
            params.wf(),
            0 <= velocity <= FP_SCALE,
            0 <= pan <= FP_SCALE,
            0 <= brightness <= FP_SCALE,
            0 <= expression <= FP_SCALE,
            0 <= vibrato <= FP_SCALE,
            -TUNING_MAX <= tuning <= TUNING_MAX,
            crate::waveform::phase_ok(initial_phase),
            crate::filter::rate_ok(sample_rate),
        ensures
            v.wf(),
            fresh_voice_ok(
                v,
                voice_id,
                channel,
                note,
                velocity,
                pan,
                brightness,
                expression,
                vibrato,
                tuning,
                internal_id,
                *params,
                sample_rate,
            ),
            v.phase == initial_phase,
            v == fresh_voice_spec(
                voice_id,
                channel,
                note,
                velocity,
                pan,
                brightness,
                expression,
                vibrato,
                tuning,
                initial_phase,
                internal_id,
                *params,
                sample_rate,
            ),
    {
        let id = match voice_id {
            Some(id) => id,
            None => compute_fallback_voice_id(note, channel),
        };
        proof {
            assert(0 <= velocity * FP_SCALE <= 65536 * 65536) by (nonlinear_arith)
                requires
                    0 <= velocity <= 65536,
            ;
        }
        let velocity_sqrt = isqrt((velocity as u64) * (FP_SCALE as u64)) as i64;
        proof {
            crate::voice::lemma_sqrt_floor_unique(
                (velocity * FP_SCALE) as nat,
                velocity_sqrt as nat,
            );
        }
        Voice {
            voice_id: id,
            channel,
            note,
            internal_voice_id: internal_id,
            velocity,
            velocity_sqrt,
            phase: initial_phase,
            phase_delta: crate::util::note_phase_delta(note, sample_rate),
            releasing: false,
            amp_envelope: ADSREnvelope::new(
                params.amp_attack,
                params.amp_hold,
                params.amp_decay,
                params.amp_sustain,
                params.amp_release,
                velocity,
            ),
            voice_gain: None,
            filter_cut_envelope: ADSREnvelope::new(
                params.cut_attack,
                params.cut_hold,
                params.cut_decay,
                params.cut_sustain,
                params.cut_release,
                velocity,
            ),
            filter_res_envelope: ADSREnvelope::new(
                params.res_attack,
                params.res_hold,
                params.res_decay,
                params.res_sustain,
                params.res_release,
                velocity,
            ),
            filter: Some(params.filter_type),
            filters: FilterBank::new(params.filter_cut, params.filter_res, sample_rate),
            dc_blocker: crate::filter::DCBlocker::new(),
            vibrato_lfo: Modulator::new(
                params.vibrato_rate,
                params.vibrato_peak,
                params.vibrato_attack,
                params.vibrato_shape,
            ),
            tremolo_lfo: Modulator::new(
                params.tremolo_rate,
                params.tremolo_peak,
                params.tremolo_attack,
                params.tremolo_shape,
            ),
            pan,
            pressure: 0,
            tuning,
            vibrato,
            expression,
            brightness,
        }
    }

    /// Starts a voice for a note-on: builds it (drawing a random initial
    /// phase from the engine's generator) and places it by the pool policy:
    /// the first free slot, else over the oldest voice, which is terminated
    /// silently when it was already Idle or Releasing and with a
    /// notification otherwise. A stolen slot hands its filter memory and
    /// DC blocker to the new voice: reuse performs no implicit reset.
    pub fn start_voice(
        &mut self,
        sample_offset: u32,
        voice_id: Option<i32>,
        channel: u8,
        note: u8,
        velocity: i64,
        pan: i64,
        brightness: i64,
        expression: i64,
        vibrato: i64,
        tuning: i64,
        params: &EngineParams,
        sample_rate: u32,
    ) -> (r: Option<VoiceTerminatedEvent>)
        requires
            old(self).wf(),
            params.wf(),
            0 <= velocity <= FP_SCALE,
            0 <= pan <= FP_SCALE,
            0 <= brightness <= FP_SCALE,
            0 <= expression <= FP_SCALE,
            0 <= vibrato <= FP_SCALE,
            -TUNING_MAX <= tuning <= TUNING_MAX,
            crate::filter::rate_ok(sample_rate),
            old(self).next_internal_voice_id < u64::MAX,
        ensures
            final(self).wf(),
            final(self).next_internal_voice_id == old(self).next_internal_voice_id + 1,
            final(self).next_voice_index == old(self).next_voice_index,
            final(self).gain_smoother == old(self).gain_smoother,
            final(self).prng == crate::rng::pcg_step_spec(old(self).prng),
            ({
                let s = old(self).voices@;
                let free = find_free_from(s, 0);
                let k = if free >= 0 {
                    free
                } else {
                    oldest_before(s, NUM_VOICES as int)
                };
                &&& 0 <= k < NUM_VOICES
                &&& final(self).voices@ == s.update(
                    k,
                    Some(
                        reuse_voice_spec(
                            fresh_voice_spec(
                                voice_id,
                                channel,
                                note,
                                velocity,
                                pan,
                                brightness,
                                expression,
                                vibrato,
                                tuning,
                                ((crate::rng::pcg_output_spec(old(self).prng.state) as int)
                                    % 65536) as i64,
                                old(self).next_internal_voice_id,
                                *params,
                                sample_rate,
                            ),
                            s[k],
                        ),
                    ),
                )
                &&& forall|j: int|
                    0 <= j < NUM_VOICES && j != k ==> final(self).voices@[j] == s[j]
                &&& final(self).live(k)
                &&& fresh_voice_ok(
                    final(self).voice_at(k),
                    voice_id,
                    channel,
                    note,
                    velocity,
                    pan,
                    brightness,
                    expression,
                    vibrato,
                    tuning,
                    old(self).next_internal_voice_id,
                    *params,
                    sample_rate,
                )
                &&& (free >= 0 ==> r is None)
                &&& (free < 0 ==> {
                    let ov = s[k]->Some_0;
                    &&& ((ov.amp_envelope.state is Idle || ov.amp_envelope.state is Release)
                        ==> r is None)
                    &&& (!(ov.amp_envelope.state is Idle || ov.amp_envelope.state is Release)
                        ==> r == Some(
                        VoiceTerminatedEvent {
                            timing: sample_offset,
                            voice_id: Some(ov.voice_id),
                            channel: ov.channel,
                            note: ov.note,
                        },
                    ))
                })
            }),
    {
        let bits = self.prng.next_u32();
        proof {
            lemma_wf_same_pool(*old(self), *self);
            assert(bits == crate::rng::pcg_output_spec(old(self).prng.state));
        }
        let initial_phase = (bits % 65536) as i64;
        let new_voice = self.make_voice(
            voice_id,
            channel,
            note,
            velocity,
            pan,
            brightness,
            expression,
            vibrato,
            tuning,
            initial_phase,
            self.next_internal_voice_id,
            params,
            sample_rate,
        );
        let r = self.place_new_voice(new_voice, sample_offset);
        proof {
            lemma_find_free_range(old(self).voices@, 0);
            let s = old(self).voices@;
            let free = find_free_from(s, 0);
            if free >= 0 {
                assert(s[free] is None);
                assert(reuse_voice_spec(new_voice, s[free]) == new_voice);
            }
        }
        r
    }
}


/// A voice after a note-off: marked releasing, all three envelopes forced
/// into their release stage.
pub open spec fn released_voice_spec(v: Voice) -> Voice {
    Voice {
        releasing: true,
        amp_envelope: v.amp_envelope.release_spec(),
        filter_cut_envelope: v.filter_cut_envelope.release_spec(),
        filter_res_envelope: v.filter_res_envelope.release_spec(),
        ..v
    }
}

/// Entering release preserves a voice's invariant.
pub proof fn lemma_released_voice_wf(v: Voice)
    requires
        v.wf(),
    ensures
        released_voice_spec(v).wf(),
        released_voice_spec(v).internal_voice_id == v.internal_voice_id,
{
    v.amp_envelope.lemma_output_bounded();
    v.filter_cut_envelope.lemma_output_bounded();
    v.filter_res_envelope.lemma_output_bounded();
}

/// Replacing a live voice by a well-formed voice with the same creation
/// number preserves the engine's invariant.
proof fn lemma_wf_after_update_same_id(pre: SubSynth, post: SubSynth, k: int, nv: Voice)
    requires
        pre.wf(),
        0 <= k < NUM_VOICES,
        pre.live(k),
        nv.wf(),
        nv.internal_voice_id == pre.voice_at(k).internal_voice_id,
        post.voices@ == pre.voices@.update(k, Some(nv)),
        post.next_internal_voice_id == pre.next_internal_voice_id,
        post.next_voice_index == pre.next_voice_index,
        post.gain_smoother == pre.gain_smoother,
    ensures
        post.wf(),
{
    assert forall|i: int| 0 <= i < NUM_VOICES && post.live(i) implies (
    #[trigger] post.voice_at(i)).wf() by {
        if i != k {
            assert(post.voices@[i] == pre.voices@[i]);
            assert(pre.voice_at(i).wf());
        } else {
            assert(post.voices@[i] == Some(nv));
        }
    }
    assert forall|i: int| 0 <= i < NUM_VOICES && post.live(i) implies (
    #[trigger] post.voice_at(i)).internal_voice_id < post.next_internal_voice_id by {
        if i != k {
            assert(post.voices@[i] == pre.voices@[i]);
            assert(pre.live(i));
            assert(pre.voice_at(i).internal_voice_id < pre.next_internal_voice_id);
        } else {
            assert(post.voices@[i] == Some(nv));
            assert(pre.voice_at(k).internal_voice_id < pre.next_internal_voice_id);
        }
    }
    assert forall|i: int, j: int|
        0 <= i < j < NUM_VOICES && post.live(i) && post.live(j)
            implies #[trigger] post.voice_at(i).internal_voice_id
            != #[trigger] post.voice_at(j).internal_voice_id by {
        let pi = if i == k {
            nv
        } else {
            pre.voice_at(i)
        };
        let pj = if j == k {
            nv
        } else {
            pre.voice_at(j)
        };
        if i != k {
            assert(post.voices@[i] == pre.voices@[i]);
            assert(pre.live(i));
        }
        if j != k {
            assert(post.voices@[j] == pre.voices@[j]);
            assert(pre.live(j));
        }
        assert(post.voice_at(i) == pi);
        assert(post.voice_at(j) == pj);
        if i == k {
            assert(pre.voice_at(k).internal_voice_id != pre.voice_at(j).internal_voice_id);
        } else if j == k {
            assert(pre.voice_at(i).internal_voice_id != pre.voice_at(k).internal_voice_id);
        }
    }
}

/// No two live voices share an explicit voice id.
pub open spec fn voice_ids_unique(e: SubSynth) -> bool {
    forall|i: int, j: int|
        0 <= i < j < NUM_VOICES && e.live(i) && e.live(j)
            ==> #[trigger] e.voice_at(i).voice_id != #[trigger] e.voice_at(j).voice_id
}

/// The pool's occupancy never exceeds its fixed capacity: the live slots
/// are a subset of the pool's index range.
pub proof fn lemma_pool_occupancy_bounded(e: SubSynth)
    requires
        e.wf(),
    ensures
        e.occupancy() <= NUM_VOICES,
{
    let live_set = Set::new(|i: int| 0 <= i < NUM_VOICES && e.live(i));
    let range = vstd::set_lib::set_int_range(0, NUM_VOICES as int);
    vstd::set_lib::lemma_int_range(0, NUM_VOICES as int);
    assert(live_set.subset_of(range));
    vstd::set_lib::lemma_len_subset(live_set, range);
}

/// Placing a voice whose explicit id differs from every live voice's keeps
/// the live voice ids pairwise distinct. (A host that starts two voices
/// under one explicit id without releasing the first forfeits this.)
pub proof fn lemma_voice_ids_unique_preserved(pre: SubSynth, post: SubSynth, k: int, nv: Voice)
    requires
        voice_ids_unique(pre),
        pre.voices@.len() == NUM_VOICES,
        0 <= k < NUM_VOICES,
        post.voices@ == pre.voices@.update(k, Some(nv)),
        forall|i: int|
            0 <= i < NUM_VOICES && i != k && pre.live(i) ==> (
            #[trigger] pre.voice_at(i)).voice_id != nv.voice_id,
    ensures
        voice_ids_unique(post),
{
    assert forall|i: int, j: int|
        0 <= i < j < NUM_VOICES && post.live(i) && post.live(j)
            implies #[trigger] post.voice_at(i).voice_id != #[trigger] post.voice_at(
        j,
    ).voice_id by {
        if i != k {
            assert(post.voices@[i] == pre.voices@[i]);
            assert(pre.live(i));
        }
        if j != k {
            assert(post.voices@[j] == pre.voices@[j]);
            assert(pre.live(j));
        }
        if i == k {
            assert(post.voice_at(i) == nv);
            assert(pre.voice_at(j).voice_id != nv.voice_id);
        } else if j == k {
            assert(post.voice_at(j) == nv);
            assert(pre.voice_at(i).voice_id != nv.voice_id);
        }
    }
}

impl SubSynth {
    /// Marks every voice matching the identity query as releasing and
    /// forces its three envelopes into their release stage.
    pub fn start_release_for_voices(
        &mut self,
        voice_id: Option<i32>,
        channel: u8,
        note: u8,
    )
        requires
            old(self).wf(),
        ensures
            final(self).wf(),
            final(self).next_internal_voice_id == old(self).next_internal_voice_id,
            final(self).next_voice_index == old(self).next_voice_index,
            final(self).gain_smoother == old(self).gain_smoother,
            final(self).prng == old(self).prng,
            forall|i: int|
                0 <= i < NUM_VOICES ==> final(self).voices@[i] == (if old(self).live(i)
                    && voice_matches(old(self).voice_at(i), voice_id, channel, note) {
                    Some(released_voice_spec(old(self).voice_at(i)))
                } else {
                    old(self).voices@[i]
                }),
    {
        let ghost pre = *self;
        let mut k: usize = 0;
        while k < NUM_VOICES
            invariant
                pre.wf(),
                k <= NUM_VOICES,
                self.voices@.len() == NUM_VOICES,
                self.prng == pre.prng,
                self.next_internal_voice_id == pre.next_internal_voice_id,
                self.next_voice_index == pre.next_voice_index,
                self.gain_smoother == pre.gain_smoother,
                forall|i: int|
                    0 <= i < k ==> #[trigger] self.voices@[i] == (if pre.live(i) && voice_matches(
                        pre.voice_at(i),
                        voice_id,
                        channel,
                        note,
                    ) {
                        Some(released_voice_spec(pre.voice_at(i)))
                    } else {
                        pre.voices@[i]
                    }),
                forall|i: int|
                    k <= i < NUM_VOICES ==> #[trigger] self.voices@[i] == pre.voices@[i],
            decreases NUM_VOICES - k,
        {
            match self.voices[k] {
                Some(mut v) => {
                    let hit = match voice_id {
                        Some(id) => id == v.voice_id,
                        None => channel == v.channel && note == v.note,
                    };
                    if hit {
                        proof {
                            assert(pre.voice_at(k as int).wf());
                        }
                        v.releasing = true;
                        v.amp_envelope.release();
                        v.filter_cut_envelope.release();
                        v.filter_res_envelope.release();
                        self.voices.set(k, Some(v));
                    }
                },
                None => {},
            }
            k = k + 1;
        }
        proof {
            assert forall|i: int| 0 <= i < NUM_VOICES && self.live(i) implies (
            #[trigger] self.voice_at(i)).wf() by {
                assert(pre.live(i));
                assert(pre.voice_at(i).wf());
                if voice_matches(pre.voice_at(i), voice_id, channel, note) {
                    lemma_released_voice_wf(pre.voice_at(i));
                }
            }
            assert forall|i: int| 0 <= i < NUM_VOICES && self.live(i) implies (
            #[trigger] self.voice_at(i)).internal_voice_id < self.next_internal_voice_id by {
                assert(pre.live(i));
                assert(pre.voice_at(i).internal_voice_id < pre.next_internal_voice_id);
            }
            assert forall|i: int, j: int|
                0 <= i < j < NUM_VOICES && self.live(i) && self.live(j)
                    implies #[trigger] self.voice_at(i).internal_voice_id
                    != #[trigger] self.voice_at(j).internal_voice_id by {
                assert(pre.live(i) && pre.live(j));
                assert(self.voice_at(i).internal_voice_id == pre.voice_at(i).internal_voice_id);
                assert(self.voice_at(j).internal_voice_id == pre.voice_at(j).internal_voice_id);
                assert(pre.voice_at(i).internal_voice_id != pre.voice_at(j).internal_voice_id);
            }
        }
    }
}


/// The termination notification for the voice in slot `i`, answering a
/// choke aimed at `(channel, note)`.
pub open spec fn choke_event_spec(
    s: Seq<Option<Voice>>,
    i: int,
    channel: u8,
    note: u8,
    t: u32,
) -> VoiceTerminatedEvent {
    VoiceTerminatedEvent { timing: t, voice_id: Some(s[i]->Some_0.voice_id), channel, note }
}

/// The notifications a no-id choke emits for the slots below `k`, in slot
/// order.
pub open spec fn choked_events_pre(
    s: Seq<Option<Voice>>,
    k: int,
    channel: u8,
    note: u8,
    t: u32,
) -> Seq<VoiceTerminatedEvent>
    decreases k,
{
    if k <= 0 {
        Seq::empty()
    } else if s[k - 1] is Some && voice_matches(s[k - 1]->Some_0, None, channel, note) {
        choked_events_pre(s, k - 1, channel, note, t).push(
            choke_event_spec(s, k - 1, channel, note, t),
        )
    } else {
        choked_events_pre(s, k - 1, channel, note, t)
    }
}

impl SubSynth {
    /// Immediately clears every voice matching the identity query, pushing
    /// a termination notification for each; with an explicit voice id the
    /// scan stops after the first match.
    pub fn choke_voices(
        &mut self,
        sample_offset: u32,
        voice_id: Option<i32>,
        channel: u8,
        note: u8,
        terminated: &mut Vec<VoiceTerminatedEvent>,
    )
        requires
            old(self).wf(),
        ensures
            final(self).wf(),
            final(self).next_internal_voice_id == old(self).next_internal_voice_id,
            final(self).next_voice_index == old(self).next_voice_index,
            final(self).gain_smoother == old(self).gain_smoother,
            final(self).prng == old(self).prng,
            voice_id is Some ==> ({
                let m = find_match_from(old(self).voices@, 0, voice_id, channel, note);
                if m >= 0 {
                    &&& final(self).voices@ == old(self).voices@.update(m, None)
                    &&& final(terminated)@ == old(terminated)@.push(
                        VoiceTerminatedEvent {
                            timing: sample_offset,
                            voice_id: Some(old(self).voice_at(m).voice_id),
                            channel,
                            note,
                        },
                    )
                } else {
                    &&& final(self).voices@ == old(self).voices@
                    &&& final(terminated)@ == old(terminated)@
                }
            }),
            voice_id is None ==> ({
                &&& forall|i: int|
                    0 <= i < NUM_VOICES ==> final(self).voices@[i] == (if old(self).live(i)
                        && voice_matches(old(self).voice_at(i), None, channel, note) {
                        None
                    } else {
                        old(self).voices@[i]
                    })
                &&& final(terminated)@ == old(terminated)@ + choked_events_pre(
                    old(self).voices@,
                    NUM_VOICES as int,
                    channel,
                    note,
                    sample_offset,
                )
            }),
    {
        let ghost pre = *self;
        match voice_id {
            Some(id) => {
                let ghost q: Option<i32> = Some(id);
                let mut k: usize = 0;
                while k < NUM_VOICES
                    invariant_except_break
                        find_match_from(pre.voices@, 0, q, channel, note) == find_match_from(
                            pre.voices@,
                            k as int,
                            q,
                            channel,
                            note,
                        ),
                        *self == pre,
                        terminated@ == old(terminated)@,
                    invariant
                        pre.wf(),
                        q == Some(id),
                        k <= NUM_VOICES,
                        self.voices@.len() == NUM_VOICES,
                    ensures
                        ({
                            let m = find_match_from(pre.voices@, 0, q, channel, note);
                            if m >= 0 {
                                &&& self.voices@ == pre.voices@.update(m, None)
                                &&& terminated@ == old(terminated)@.push(
                                    choke_event_spec(pre.voices@, m, channel, note, sample_offset),
                                )
                                &&& self.prng == pre.prng
                                &&& self.next_internal_voice_id == pre.next_internal_voice_id
                                &&& self.next_voice_index == pre.next_voice_index
                                &&& self.gain_smoother == pre.gain_smoother
                            } else {
                                &&& *self == pre
                                &&& terminated@ == old(terminated)@
                            }
                        }),
                    decreases NUM_VOICES - k,
                {
                    let hit = match &self.voices[k] {
                        Some(v) => v.voice_id == id,
                        None => false,
                    };
                    if hit {
                        let vid = match &self.voices[k] {
                            Some(v) => v.voice_id,
                            None => 0,
                        };
                        terminated.push(
                            VoiceTerminatedEvent {
                                timing: sample_offset,
                                voice_id: Some(vid),
                                channel,
                                note,
                            },
                        );
                        self.voices.set(k, None);
                        proof {
                            assert(find_match_from(pre.voices@, k as int, q, channel, note)
                                == k);
                        }
                        break ;
                    }
                    k = k + 1;
                }
                proof {
                    let m = find_match_from(pre.voices@, 0, q, channel, note);
                    if m >= 0 {
                        lemma_find_match_range(pre.voices@, 0, q, channel, note);
                        lemma_wf_after_clear(pre, *self, m);
                    }
                }
            },
            None => {
                let mut k: usize = 0;
                while k < NUM_VOICES
                    invariant
                        pre.wf(),
                        k <= NUM_VOICES,
                        self.voices@.len() == NUM_VOICES,
                        self.prng == pre.prng,
                        self.next_internal_voice_id == pre.next_internal_voice_id,
                        self.next_voice_index == pre.next_voice_index,
                        self.gain_smoother == pre.gain_smoother,
                        forall|i: int|
                            0 <= i < k ==> #[trigger] self.voices@[i] == (if pre.live(i)
                                && voice_matches(pre.voice_at(i), None, channel, note) {
                                None
                            } else {
                                pre.voices@[i]
                            }),
                        forall|i: int|
                            k <= i < NUM_VOICES ==> #[trigger] self.voices@[i]
                                == pre.voices@[i],
                        terminated@ == old(terminated)@ + choked_events_pre(
                            pre.voices@,
                            k as int,
                            channel,
                            note,
                            sample_offset,
                        ),
                    decreases NUM_VOICES - k,
                {
                    let hit = match &self.voices[k] {
                        Some(v) => v.channel == channel && v.note == note,
                        None => false,
                    };
                    if hit {
                        let vid = match &self.voices[k] {
                            Some(v) => v.voice_id,
                            None => 0,
                        };
                        terminated.push(
                            VoiceTerminatedEvent {
                                timing: sample_offset,
                                voice_id: Some(vid),
                                channel,
                                note,
                            },
                        );
                        self.voices.set(k, None);
                        proof {
                            assert(terminated@ =~= old(terminated)@ + choked_events_pre(
                                pre.voices@,
                                k + 1,
                                channel,
                                note,
                                sample_offset,
                            ));
                        }
                    }
                    k = k + 1;
                }
                proof {
                    assert forall|i: int| 0 <= i < NUM_VOICES implies #[trigger] self.voices@[i]
                        == pre.voices@[i] || self.voices@[i] is None by {
                        if pre.live(i) && voice_matches(pre.voice_at(i), None, channel, note) {
                            assert(self.voices@[i] is None);
                        } else {
                            assert(self.voices@[i] == pre.voices@[i]);
                        }
                    }
                    lemma_wf_fewer_voices(pre, *self);
                }
            },
        }
    }
}

/// Clearing one slot preserves the engine's invariant.
proof fn lemma_wf_after_clear(pre: SubSynth, post: SubSynth, k: int)
    requires
        pre.wf(),
        0 <= k < NUM_VOICES,
        post.voices@ == pre.voices@.update(k, None),
        post.next_internal_voice_id == pre.next_internal_voice_id,
        post.next_voice_index == pre.next_voice_index,
        post.gain_smoother == pre.gain_smoother,
    ensures
        post.wf(),
{
    assert forall|i: int| 0 <= i < NUM_VOICES && post.live(i) implies (
    #[trigger] post.voice_at(i)).wf() by {
        assert(post.voices@[i] == pre.voices@[i] || post.voices@[i] is None);
        assert(post.voices@[i] == pre.voices@[i]);
        assert(pre.voice_at(i).wf());
    }
    assert forall|i: int| 0 <= i < NUM_VOICES && post.live(i) implies (
    #[trigger] post.voice_at(i)).internal_voice_id < post.next_internal_voice_id by {
        assert(post.voices@[i] == pre.voices@[i] || post.voices@[i] is None);
        assert(post.voices@[i] == pre.voices@[i]);
        assert(pre.live(i));
        assert(pre.voice_at(i).internal_voice_id < pre.next_internal_voice_id);
    }
    assert forall|i: int, j: int|
        0 <= i < j < NUM_VOICES && post.live(i) && post.live(j)
            implies #[trigger] post.voice_at(i).internal_voice_id
            != #[trigger] post.voice_at(j).internal_voice_id by {
        assert(post.voices@[i] == pre.voices@[i] || post.voices@[i] is None);
        assert(post.voices@[j] == pre.voices@[j] || post.voices@[j] is None);
        assert(post.voices@[i] == pre.voices@[i]);
        assert(post.voices@[j] == pre.voices@[j]);
        assert(pre.live(i) && pre.live(j));
        assert(pre.voice_at(i).internal_voice_id != pre.voice_at(j).internal_voice_id);
    }
}

/// An engine each of whose slots is either unchanged or cleared stays well
/// formed.
proof fn lemma_wf_fewer_voices(pre: SubSynth, post: SubSynth)
    requires
        pre.wf(),
        post.voices@.len() == NUM_VOICES,
        forall|i: int|
            0 <= i < NUM_VOICES ==> #[trigger] post.voices@[i] == pre.voices@[i]
                || post.voices@[i] is None,
        post.next_internal_voice_id == pre.next_internal_voice_id,
        post.next_voice_index == pre.next_voice_index,
        post.gain_smoother == pre.gain_smoother,
    ensures
        post.wf(),
{
    assert forall|i: int| 0 <= i < NUM_VOICES && post.live(i) implies (
    #[trigger] post.voice_at(i)).wf() by {
        assert(post.voices@[i] == pre.voices@[i] || post.voices@[i] is None);
        assert(post.voices@[i] == pre.voices@[i]);
        assert(pre.voice_at(i).wf());
    }
    assert forall|i: int| 0 <= i < NUM_VOICES && post.live(i) implies (
    #[trigger] post.voice_at(i)).internal_voice_id < post.next_internal_voice_id by {
        assert(post.voices@[i] == pre.voices@[i] || post.voices@[i] is None);
        assert(post.voices@[i] == pre.voices@[i]);
        assert(pre.live(i));
        assert(pre.voice_at(i).internal_voice_id < pre.next_internal_voice_id);
    }
    assert forall|i: int, j: int|
        0 <= i < j < NUM_VOICES && post.live(i) && post.live(j)
            implies #[trigger] post.voice_at(i).internal_voice_id
            != #[trigger] post.voice_at(j).internal_voice_id by {
        assert(post.voices@[i] == pre.voices@[i] || post.voices@[i] is None);
        assert(post.voices@[j] == pre.voices@[j] || post.voices@[j] is None);
        assert(post.voices@[i] == pre.voices@[i]);
        assert(post.voices@[j] == pre.voices@[j]);
        assert(pre.live(i) && pre.live(j));
        assert(pre.voice_at(i).internal_voice_id != pre.voice_at(j).internal_voice_id);
    }
}

/// The notifications one reap pass emits for the slots below `k`: one for
/// each releasing voice whose amplitude envelope has reached Idle.
pub open spec fn reaped_events_pre(
    s: Seq<Option<Voice>>,
    k: int,
    t: u32,
) -> Seq<VoiceTerminatedEvent>
    decreases k,
{
    if k <= 0 {
        Seq::empty()
    } else if s[k - 1] is Some && reapable(s[k - 1]->Some_0) {
        reaped_events_pre(s, k - 1, t).push(
            VoiceTerminatedEvent {
                timing: t,
                voice_id: Some(s[k - 1]->Some_0.voice_id),
                channel: s[k - 1]->Some_0.channel,
                note: s[k - 1]->Some_0.note,
            },
        )
    } else {
        reaped_events_pre(s, k - 1, t)
    }
}

/// Whether a voice's slot is to be reclaimed: it is releasing and its
/// amplitude envelope has reached Idle.
pub open spec fn reapable(v: Voice) -> bool {
    v.releasing && v.amp_envelope.state is Idle
}

impl SubSynth {
    /// Clears every voice whose release has fully ended, pushing a
    /// termination notification for each; called once per render sub-block
    /// with the sub-block's end as the timing.
    pub fn reap_voices(&mut self, block_end: u32, terminated: &mut Vec<VoiceTerminatedEvent>)
        requires
            old(self).wf(),
        ensures
            final(self).wf(),
            final(self).next_internal_voice_id == old(self).next_internal_voice_id,
            final(self).next_voice_index == old(self).next_voice_index,
            final(self).gain_smoother == old(self).gain_smoother,
            final(self).prng == old(self).prng,
            forall|i: int|
                0 <= i < NUM_VOICES ==> final(self).voices@[i] == (if old(self).live(i)
                    && reapable(old(self).voice_at(i)) {
                    None
                } else {
                    old(self).voices@[i]
                }),
            final(terminated)@ == old(terminated)@ + reaped_events_pre(
                old(self).voices@,
                NUM_VOICES as int,
                block_end,
            ),
    {
        let ghost pre = *self;
        let mut k: usize = 0;
        while k < NUM_VOICES
            invariant
                pre.wf(),
                k <= NUM_VOICES,
                self.voices@.len() == NUM_VOICES,
                self.prng == pre.prng,
                self.next_internal_voice_id == pre.next_internal_voice_id,
                self.next_voice_index == pre.next_voice_index,
                self.gain_smoother == pre.gain_smoother,
                forall|i: int|
                    0 <= i < k ==> #[trigger] self.voices@[i] == (if pre.live(i) && reapable(
                        pre.voice_at(i),
                    ) {
                        None
                    } else {
                        pre.voices@[i]
                    }),
                forall|i: int|
                    k <= i < NUM_VOICES ==> #[trigger] self.voices@[i] == pre.voices@[i],
                terminated@ == old(terminated)@ + reaped_events_pre(
                    pre.voices@,
                    k as int,
                    block_end,
                ),
            decreases NUM_VOICES - k,
        {
            let info = match &self.voices[k] {
                Some(v) => {
                    let st = v.amp_envelope.get_state();
                    if v.releasing && matches!(st, ADSREnvelopeState::Idle) {
                        Some((v.voice_id, v.channel, v.note))
                    } else {
                        None
                    }
                },
                None => None,
            };
            match info {
                Some((vid, ch, n)) => {
                    let evt = VoiceTerminatedEvent {
                        timing: block_end,
                        voice_id: Some(vid),
                        channel: ch,
                        note: n,
                    };
                    terminated.push(evt);
                    self.voices.set(k, None);
                    proof {
                        assert(terminated@ =~= old(terminated)@ + reaped_events_pre(
                            pre.voices@,
                            k + 1,
                            block_end,
                        ));
                    }
                },
                None => {},
            }
            k = k + 1;
        }
        proof {
            assert forall|i: int| 0 <= i < NUM_VOICES implies #[trigger] self.voices@[i]
                == pre.voices@[i] || self.voices@[i] is None by {
                if pre.live(i) && reapable(pre.voice_at(i)) {
                    assert(self.voices@[i] is None);
                } else {
                    assert(self.voices@[i] == pre.voices@[i]);
                }
            }
            lemma_wf_fewer_voices(pre, *self);
        }
    }
}


impl SubSynth {
    /// Finds the voice a polyphonic-expression event addresses, or creates
    /// one at default performance values so the event is not lost: such
    /// events may arrive before the note-on's voice exists or after it is
    /// gone. Returns the slot index and, when creating into a full pool,
    /// the stolen voice's termination notification.
    pub fn find_or_create_voice(
        &mut self,
        voice_id: Option<i32>,
        channel: u8,
        note: u8,
        pan: i64,
        brightness: i64,
        expression: i64,
        tuning: i64,
        vibrato: i64,
        params: &EngineParams,
        sample_rate: u32,
        sample_offset: u32,
    ) -> (out: (usize, Option<VoiceTerminatedEvent>))
        requires
            old(self).wf(),
            params.wf(),
            0 <= pan <= FP_SCALE,
            0 <= brightness <= FP_SCALE,
            0 <= expression <= FP_SCALE,
            -TUNING_MAX <= tuning <= TUNING_MAX,
            0 <= vibrato <= FP_SCALE,
            crate::filter::rate_ok(sample_rate),
            old(self).next_internal_voice_id < u64::MAX,
        ensures
            final(self).wf(),
            out.0 < NUM_VOICES,
            final(self).live(out.0 as int),
            final(self).gain_smoother == old(self).gain_smoother,
            final(self).prng == old(self).prng,
            ({
                let (vs1, nid1, nidx1, k1, stolen1) = foc_spec(
                    old(self).voices@,
                    old(self).next_internal_voice_id,
                    old(self).next_voice_index,
                    voice_id,
                    channel,
                    note,
                    pan,
                    brightness,
                    expression,
                    tuning,
                    vibrato,
                    *params,
                    sample_rate,
                    sample_offset,
                );
                &&& final(self).voices@ == vs1
                &&& final(self).next_internal_voice_id == nid1
                &&& final(self).next_voice_index == nidx1
                &&& out.0 == k1
                &&& out.1 == stolen1
            }),
            ({
                let s = old(self).voices@;
                let m = find_match_from(s, 0, voice_id, channel, note);
                if m >= 0 {
                    &&& out.0 == m
                    &&& out.1 is None
                    &&& *final(self) == *old(self)
                } else {
                    let free = find_free_from(s, 0);
                    let k = if free >= 0 {
                        free
                    } else {
                        oldest_before(s, NUM_VOICES as int)
                    };
                    &&& out.0 == k
                    &&& final(self).next_internal_voice_id == old(self).next_internal_voice_id
                        + 1
                    &&& final(self).next_voice_index == ((old(self).next_voice_index + 1) % (
                    NUM_VOICES as int))
                    &&& final(self).voices@ == s.update(
                        k,
                        Some(
                            reuse_voice_spec(
                                fresh_voice_spec(
                                    Some(
                                        match voice_id {
                                            Some(id) => id,
                                            None => ((note + channel + (old(
                                                self,
                                            ).next_voice_index + 1) % (
                                            NUM_VOICES as int)) as i32),
                                        },
                                    ),
                                    channel,
                                    note,
                                    0,
                                    pan,
                                    brightness,
                                    expression,
                                    vibrato,
                                    tuning,
                                    0,
                                    old(self).next_internal_voice_id,
                                    *params,
                                    sample_rate,
                                ),
                                s[k],
                            ),
                        ),
                    )
                    &&& forall|j: int|
                        0 <= j < NUM_VOICES && j != k ==> final(self).voices@[j] == s[j]
                    &&& fresh_voice_ok(
                        final(self).voice_at(k),
                        Some(
                            match voice_id {
                                Some(id) => id,
                                None => ((note + channel + (old(self).next_voice_index + 1) % (
                                NUM_VOICES as int)) as i32),
                            },
                        ),
                        channel,
                        note,
                        0,
                        pan,
                        brightness,
                        expression,
                        vibrato,
                        tuning,
                        old(self).next_internal_voice_id,
                        *params,
                        sample_rate,
                    )
                    &&& (free >= 0 ==> out.1 is None)
                    &&& (free < 0 ==> {
                        let ov = s[k]->Some_0;
                        &&& ((ov.amp_envelope.state is Idle || ov.amp_envelope.state is Release)
                            ==> out.1 is None)
                        &&& (!(ov.amp_envelope.state is Idle
                            || ov.amp_envelope.state is Release) ==> out.1 == Some(
                            VoiceTerminatedEvent {
                                timing: sample_offset,
                                voice_id: Some(ov.voice_id),
                                channel: ov.channel,
                                note: ov.note,
                            },
                        ))
                    })
                }
            }),
    {
        let ghost s0 = self.voices@;
        let mut k: usize = 0;
        while k < NUM_VOICES
            invariant_except_break
                find_match_from(s0, 0, voice_id, channel, note) == find_match_from(
                    s0,
                    k as int,
                    voice_id,
                    channel,
                    note,
                ),
            invariant
                old(self).wf(),
                *self == *old(self),
                s0 == self.voices@,
                self.voices@.len() == NUM_VOICES,
                k <= NUM_VOICES,
            ensures
                *self == *old(self),
                s0 == self.voices@,
                find_match_from(s0, 0, voice_id, channel, note) == -1,
            decreases NUM_VOICES - k,
        {
            let hit = match &self.voices[k] {
                Some(v) => match voice_id {
                    Some(id) => id == v.voice_id,
                    None => channel == v.channel && note == v.note,
                },
                None => false,
            };
            if hit {
                proof {
                    assert(find_match_from(s0, k as int, voice_id, channel, note) == k);
                    lemma_wf_same_pool(*old(self), *self);
                }
                return (k, None);
            }
            k = k + 1;
        }
        self.next_voice_index = (self.next_voice_index + 1) % NUM_VOICES;
        let new_voice_id = match voice_id {
            Some(id) => id,
            None => (note as i32) + (channel as i32) + (self.next_voice_index as i32),
        };
        let new_voice = self.make_voice(
            Some(new_voice_id),
            channel,
            note,
            0,
            pan,
            brightness,
            expression,
            vibrato,
            tuning,
            0,
            self.next_internal_voice_id,
            params,
            sample_rate,
        );
        proof {
            lemma_wf_same_pool(*old(self), *self);
        }
        let ghost mid = *self;
        let stolen = self.place_new_voice(new_voice, sample_offset);
        let ghost free = find_free_from(s0, 0);
        proof {
            lemma_find_free_range(s0, 0);
        }
        let k2 = self.locate_internal(new_voice.internal_voice_id);
        proof {
            let kk = if free >= 0 {
                free
            } else {
                oldest_before(s0, NUM_VOICES as int)
            };
            let placed = reuse_voice_spec(new_voice, s0[kk]);
            if free >= 0 {
                assert(s0[kk] is None);
                assert(placed == new_voice);
            }
            assert(self.voices@ == mid.voices@.update(kk, Some(placed)));
            assert(self.voice_at(kk) == placed);
            assert(placed.internal_voice_id == new_voice.internal_voice_id);
            assert forall|j: int|
                0 <= j < NUM_VOICES && j != kk implies !(self.live(j)
                && self.voice_at(j).internal_voice_id == new_voice.internal_voice_id) by {
                if self.live(j) {
                    assert(self.voices@[j] == s0[j]);
                    assert(mid.live(j));
                    assert(mid.voice_at(j).internal_voice_id < mid.next_internal_voice_id);
                }
            }
            assert(k2 == kk);
            assert(new_voice_id == match voice_id {
                Some(id) => id,
                None => ((note + channel + (old(self).next_voice_index + 1) % (
                NUM_VOICES as int)) as i32),
            });
            assert(new_voice == fresh_voice_spec(
                Some(new_voice_id),
                channel,
                note,
                0,
                pan,
                brightness,
                expression,
                vibrato,
                tuning,
                0,
                old(self).next_internal_voice_id,
                *params,
                sample_rate,
            ));
            assert(self.voices@ == s0.update(kk, Some(reuse_voice_spec(new_voice, s0[kk]))));
        }
        (k2, stolen)
    }

    /// The slot of the live voice with a creation sequence number, which is
    /// unique; the pool must hold it.
    fn locate_internal(&self, internal_id: u64) -> (k: usize)
        requires
            self.voices@.len() == NUM_VOICES,
            exists|i: int|
                0 <= i < NUM_VOICES && #[trigger] self.voices@[i] is Some
                    && self.voices@[i]->Some_0.internal_voice_id == internal_id,
        ensures
            k < NUM_VOICES,
            self.live(k as int),
            self.voice_at(k as int).internal_voice_id == internal_id,
    {
        let mut k: usize = 0;
        while k < NUM_VOICES
            invariant
                self.voices@.len() == NUM_VOICES,
                k <= NUM_VOICES,
                exists|i: int|
                    0 <= i < NUM_VOICES && #[trigger] self.voices@[i] is Some
                        && self.voices@[i]->Some_0.internal_voice_id == internal_id,
                forall|i: int|
                    0 <= i < k ==> !(#[trigger] self.voices@[i] is Some
                        && self.voices@[i]->Some_0.internal_voice_id == internal_id),
            decreases NUM_VOICES - k,
        {
            let hit = match &self.voices[k] {
                Some(v) => v.internal_voice_id == internal_id,
                None => false,
            };
            if hit {
                return k;
            }
            k = k + 1;
        }
        proof {
            assert(false);
        }
        0
    }
}


/// What a polyphonic-expression lookup does to the pool: the matched slot
/// when one exists; otherwise a fresh default voice placed by the pool
/// policy. Yields the new pool, creation counter, scan index, the slot
/// index, and the stolen voice's notification if stealing was needed.
pub open spec fn foc_spec(
    s: Seq<Option<Voice>>,
    next_id: u64,
    next_idx: usize,
    voice_id: Option<i32>,
    channel: u8,
    note: u8,
    pan: i64,
    brightness: i64,
    expression: i64,
    tuning: i64,
    vibrato: i64,
    params: EngineParams,
    sample_rate: u32,
    sample_offset: u32,
) -> (Seq<Option<Voice>>, u64, usize, int, Option<VoiceTerminatedEvent>) {
    let m = find_match_from(s, 0, voice_id, channel, note);
    if m >= 0 {
        (s, next_id, next_idx, m, None::<VoiceTerminatedEvent>)
    } else {
        let nidx = (((next_idx + 1) as int % (NUM_VOICES as int)) as usize);
        let nv = fresh_voice_spec(
            Some(
                match voice_id {
                    Some(id) => id,
                    None => ((note + channel + nidx) as i32),
                },
            ),
            channel,
            note,
            0,
            pan,
            brightness,
            expression,
            vibrato,
            tuning,
            0,
            next_id,
            params,
            sample_rate,
        );
        let free = find_free_from(s, 0);
        let k = if free >= 0 {
            free
        } else {
            oldest_before(s, NUM_VOICES as int)
        };
        let stolen = if free >= 0 {
            None::<VoiceTerminatedEvent>
        } else {
            let ov = s[k]->Some_0;
            if ov.amp_envelope.state is Idle || ov.amp_envelope.state is Release {
                None::<VoiceTerminatedEvent>
            } else {
                Some(
                    VoiceTerminatedEvent {
                        timing: sample_offset,
                        voice_id: Some(ov.voice_id),
                        channel: ov.channel,
                        note: ov.note,
                    },
                )
            }
        };
        (s.update(k, Some(reuse_voice_spec(nv, s[k]))), (next_id + 1) as u64, nidx, k, stolen)
    }
}

/// A voice after a pressure event: the pressure is recorded, becomes the
/// voice's velocity, and the amplitude envelope's velocity scaling is
/// reapplied.
pub open spec fn pressure_applied_spec(v: Voice, pressure: i64) -> Voice {
    Voice {
        pressure,
        velocity: pressure,
        amp_envelope: v.amp_envelope.set_velocity_spec(pressure),
        ..v
    }
}

/// A voice after a volume event: the gain becomes its velocity and
/// perceptual amplitude, and the amplitude envelope's velocity scaling is
/// reapplied.
pub open spec fn volume_applied_spec(v: Voice, gain: i64) -> Voice {
    Voice {
        velocity: gain,
        velocity_sqrt: crate::voice::sqrt_floor((gain * FP_SCALE) as nat) as i64,
        amp_envelope: v.amp_envelope.set_velocity_spec(gain),
        ..v
    }
}

impl SubSynth {
    /// Applies a per-voice pressure event: the matched (or created) voice
    /// records the pressure, takes it as its velocity, and its amplitude
    /// envelope's velocity scaling is reapplied.
    pub fn handle_poly_pressure_event(
        &mut self,
        timing: u32,
        voice_id: Option<i32>,
        channel: u8,
        note: u8,
        pressure: i64,
        params: &EngineParams,
        sample_rate: u32,
    ) -> (r: Option<VoiceTerminatedEvent>)
        requires
            old(self).wf(),
            params.wf(),
            0 <= pressure <= FP_SCALE,
            crate::filter::rate_ok(sample_rate),
            old(self).next_internal_voice_id < u64::MAX,
        ensures
            final(self).wf(),
            final(self).next_internal_voice_id <= old(self).next_internal_voice_id + 1,
            final(self).gain_smoother == old(self).gain_smoother,
            final(self).prng == old(self).prng,
            ({
                let (vs1, nid1, nidx1, k, stolen) = foc_spec(
                    old(self).voices@,
                    old(self).next_internal_voice_id,
                    old(self).next_voice_index,
                    voice_id,
                    channel,
                    note,
                    0,
                    0,
                    0,
                    0,
                    0,
                    *params,
                    sample_rate,
                    timing,
                );
                &&& r == stolen
                &&& final(self).next_internal_voice_id == nid1
                &&& final(self).next_voice_index == nidx1
                &&& final(self).voices@ == vs1.update(k, Some(pressure_applied_spec(vs1[k]->Some_0, pressure)))
            }),
    {
        let (idx, stolen) = self.find_or_create_voice(
            voice_id,
            channel,
            note,
            0,
            0,
            0,
            0,
            0,
            params,
            sample_rate,
            timing,
        );
        let ghost mid = *self;
        match self.voices[idx] {
            Some(mut v) => {
                proof {
                    assert(mid.voice_at(idx as int).wf());
                }
                v.pressure = pressure;
                v.velocity = pressure;
                v.amp_envelope.set_velocity(pressure);
                self.voices.set(idx, Some(v));
                proof {
                    lemma_wf_after_update_same_id(mid, *self, idx as int, v);
                }
            },
            None => {},
        }
        stolen
    }

    /// Applies a per-voice volume event: the matched (or created) voice
    /// takes the gain as its velocity and perceptual amplitude, and its
    /// amplitude envelope's velocity scaling is reapplied.
    pub fn handle_poly_volume_event(
        &mut self,
        timing: u32,
        voice_id: Option<i32>,
        channel: u8,
        note: u8,
        gain: i64,
        params: &EngineParams,
        sample_rate: u32,
    ) -> (r: Option<VoiceTerminatedEvent>)
        requires
            old(self).wf(),
            params.wf(),
            0 <= gain <= FP_SCALE,
            crate::filter::rate_ok(sample_rate),
            old(self).next_internal_voice_id < u64::MAX,
        ensures
            final(self).wf(),
            final(self).next_internal_voice_id <= old(self).next_internal_voice_id + 1,
            final(self).gain_smoother == old(self).gain_smoother,
            final(self).prng == old(self).prng,
            ({
                let (vs1, nid1, nidx1, k, stolen) = foc_spec(
                    old(self).voices@,
                    old(self).next_internal_voice_id,
                    old(self).next_voice_index,
                    voice_id,
                    channel,
                    note,
                    0,
                    0,
                    0,
                    0,
                    0,
                    *params,
                    sample_rate,
                    timing,
                );
                &&& r == stolen
                &&& final(self).next_internal_voice_id == nid1
                &&& final(self).next_voice_index == nidx1
                &&& final(self).voices@ == vs1.update(k, Some(volume_applied_spec(vs1[k]->Some_0, gain)))
            }),
    {
        let (idx, stolen) = self.find_or_create_voice(
            voice_id,
            channel,
            note,
            0,
            0,
            0,
            0,
            0,
            params,
            sample_rate,
            timing,
        );
        let ghost mid = *self;
        match self.voices[idx] {
            Some(mut v) => {
                proof {
                    assert(mid.voice_at(idx as int).wf());
                }
                proof {
                    assert(0 <= gain * FP_SCALE <= 65536 * 65536) by (nonlinear_arith)
                        requires
                            0 <= gain <= 65536,
                    ;
                }
                v.velocity = gain;
                let vs = isqrt((gain as u64) * (FP_SCALE as u64)) as i64;
                proof {
                    crate::voice::lemma_sqrt_floor_unique((gain * FP_SCALE) as nat, vs as nat);
                }
                v.velocity_sqrt = vs;
                v.amp_envelope.set_velocity(gain);
                self.voices.set(idx, Some(v));
                proof {
                    lemma_wf_after_update_same_id(mid, *self, idx as int, v);
                }
            },
            None => {},
        }
        stolen
    }

    /// Applies a per-voice pan event.
    pub fn handle_poly_pan_event(
        &mut self,
        timing: u32,
        voice_id: Option<i32>,
        channel: u8,
        note: u8,
        pan: i64,
        params: &EngineParams,
        sample_rate: u32,
    ) -> (r: Option<VoiceTerminatedEvent>)
        requires
            old(self).wf(),
            params.wf(),
            0 <= pan <= FP_SCALE,
            crate::filter::rate_ok(sample_rate),
            old(self).next_internal_voice_id < u64::MAX,
        ensures
            final(self).wf(),
            final(self).next_internal_voice_id <= old(self).next_internal_voice_id + 1,
            final(self).gain_smoother == old(self).gain_smoother,
            final(self).prng == old(self).prng,
            ({
                let (vs1, nid1, nidx1, k, stolen) = foc_spec(
                    old(self).voices@,
                    old(self).next_internal_voice_id,
                    old(self).next_voice_index,
                    voice_id,
                    channel,
                    note,
                    pan,
                    0,
                    0,
                    0,
                    0,
                    *params,
                    sample_rate,
                    timing,
                );
                &&& r == stolen
                &&& final(self).next_internal_voice_id == nid1
                &&& final(self).next_voice_index == nidx1
                &&& final(self).voices@ == vs1.update(k, Some(Voice { pan, ..vs1[k]->Some_0 }))
            }),
    {
        let (idx, stolen) = self.find_or_create_voice(
            voice_id,
            channel,
            note,
            pan,
            0,
            0,
            0,
            0,
            params,
            sample_rate,
            timing,
        );
        let ghost mid = *self;
        match self.voices[idx] {
            Some(mut v) => {
                proof {
                    assert(mid.voice_at(idx as int).wf());
                }
                v.pan = pan;
                self.voices.set(idx, Some(v));
                proof {
                    lemma_wf_after_update_same_id(mid, *self, idx as int, v);
                }
            },
            None => {},
        }
        stolen
    }

    /// Applies a per-voice tuning event.
    pub fn handle_poly_tuning_event(
        &mut self,
        timing: u32,
        voice_id: Option<i32>,
        channel: u8,
        note: u8,
        tuning: i64,
        params: &EngineParams,
        sample_rate: u32,
    ) -> (r: Option<VoiceTerminatedEvent>)
        requires
            old(self).wf(),
            params.wf(),
            -TUNING_MAX <= tuning <= TUNING_MAX,
            crate::filter::rate_ok(sample_rate),
            old(self).next_internal_voice_id < u64::MAX,
        ensures
            final(self).wf(),
            final(self).next_internal_voice_id <= old(self).next_internal_voice_id + 1,
            final(self).gain_smoother == old(self).gain_smoother,
            final(self).prng == old(self).prng,
            ({
                let (vs1, nid1, nidx1, k, stolen) = foc_spec(
                    old(self).voices@,
                    old(self).next_internal_voice_id,
                    old(self).next_voice_index,
                    voice_id,
                    channel,
                    note,
                    0,
                    0,
                    0,
                    tuning,
                    0,
                    *params,
                    sample_rate,
                    timing,
                );
                &&& r == stolen
                &&& final(self).next_internal_voice_id == nid1
                &&& final(self).next_voice_index == nidx1
                &&& final(self).voices@ == vs1.update(k, Some(Voice { tuning, ..vs1[k]->Some_0 }))
            }),
    {
        let (idx, stolen) = self.find_or_create_voice(
            voice_id,
            channel,
            note,
            0,
            0,
            0,
            tuning,
            0,
            params,
            sample_rate,
            timing,
        );
        let ghost mid = *self;
        match self.voices[idx] {
            Some(mut v) => {
                proof {
                    assert(mid.voice_at(idx as int).wf());
                }
                v.tuning = tuning;
                self.voices.set(idx, Some(v));
                proof {
                    lemma_wf_after_update_same_id(mid, *self, idx as int, v);
                }
            },
            None => {},
        }
        stolen
    }

    /// Applies a per-voice vibrato event.
    pub fn handle_poly_vibrato_event(
        &mut self,
        timing: u32,
        voice_id: Option<i32>,
        channel: u8,
        note: u8,
        vibrato: i64,
        params: &EngineParams,
        sample_rate: u32,
    ) -> (r: Option<VoiceTerminatedEvent>)
        requires
            old(self).wf(),
            params.wf(),
            0 <= vibrato <= FP_SCALE,
            crate::filter::rate_ok(sample_rate),
            old(self).next_internal_voice_id < u64::MAX,
        ensures
            final(self).wf(),
            final(self).next_internal_voice_id <= old(self).next_internal_voice_id + 1,
            final(self).gain_smoother == old(self).gain_smoother,
            final(self).prng == old(self).prng,
            ({
                let (vs1, nid1, nidx1, k, stolen) = foc_spec(
                    old(self).voices@,
                    old(self).next_internal_voice_id,
                    old(self).next_voice_index,
                    voice_id,
                    channel,
                    note,
                    0,
                    0,
                    0,
                    0,
                    vibrato,
                    *params,
                    sample_rate,
                    timing,
                );
                &&& r == stolen
                &&& final(self).next_internal_voice_id == nid1
                &&& final(self).next_voice_index == nidx1
                &&& final(self).voices@ == vs1.update(k, Some(Voice { vibrato, ..vs1[k]->Some_0 }))
            }),
    {
        let (idx, stolen) = self.find_or_create_voice(
            voice_id,
            channel,
            note,
            0,
            0,
            0,
            0,
            vibrato,
            params,
            sample_rate,
            timing,
        );
        let ghost mid = *self;
        match self.voices[idx] {
            Some(mut v) => {
                proof {
                    assert(mid.voice_at(idx as int).wf());
                }
                v.vibrato = vibrato;
                self.voices.set(idx, Some(v));
                proof {
                    lemma_wf_after_update_same_id(mid, *self, idx as int, v);
                }
            },
            None => {},
        }
        stolen
    }

    /// Applies a per-voice expression event.
    pub fn handle_poly_expression_event(
        &mut self,
        timing: u32,
        voice_id: Option<i32>,
        channel: u8,
        note: u8,
        expression: i64,
        params: &EngineParams,
        sample_rate: u32,
    ) -> (r: Option<VoiceTerminatedEvent>)
        requires
            old(self).wf(),
            params.wf(),
            0 <= expression <= FP_SCALE,
            crate::filter::rate_ok(sample_rate),
            old(self).next_internal_voice_id < u64::MAX,
        ensures
            final(self).wf(),
            final(self).next_internal_voice_id <= old(self).next_internal_voice_id + 1,
            final(self).gain_smoother == old(self).gain_smoother,
            final(self).prng == old(self).prng,
            ({
                let (vs1, nid1, nidx1, k, stolen) = foc_spec(
                    old(self).voices@,
                    old(self).next_internal_voice_id,
                    old(self).next_voice_index,
                    voice_id,
                    channel,
                    note,
                    0,
                    0,
                    expression,
                    0,
                    0,
                    *params,
                    sample_rate,
                    timing,
                );
                &&& r == stolen
                &&& final(self).next_internal_voice_id == nid1
                &&& final(self).next_voice_index == nidx1
                &&& final(self).voices@ == vs1.update(k, Some(Voice { expression, ..vs1[k]->Some_0 }))
            }),
    {
        let (idx, stolen) = self.find_or_create_voice(
            voice_id,
            channel,
            note,
            0,
            0,
            expression,
            0,
            0,
            params,
            sample_rate,
            timing,
        );
        let ghost mid = *self;
        match self.voices[idx] {
            Some(mut v) => {
                proof {
                    assert(mid.voice_at(idx as int).wf());
                }
                v.expression = expression;
                self.voices.set(idx, Some(v));
                proof {
                    lemma_wf_after_update_same_id(mid, *self, idx as int, v);
                }
            },
            None => {},
        }
        stolen
    }

    /// Applies a per-voice brightness event.
    pub fn handle_poly_brightness_event(
        &mut self,
        timing: u32,
        voice_id: Option<i32>,
        channel: u8,
        note: u8,
        brightness: i64,
        params: &EngineParams,
        sample_rate: u32,
    ) -> (r: Option<VoiceTerminatedEvent>)
        requires
            old(self).wf(),
            params.wf(),
            0 <= brightness <= FP_SCALE,
            crate::filter::rate_ok(sample_rate),
            old(self).next_internal_voice_id < u64::MAX,
        ensures
            final(self).wf(),
            final(self).next_internal_voice_id <= old(self).next_internal_voice_id + 1,
            final(self).gain_smoother == old(self).gain_smoother,
            final(self).prng == old(self).prng,
            ({
                let (vs1, nid1, nidx1, k, stolen) = foc_spec(
                    old(self).voices@,
                    old(self).next_internal_voice_id,
                    old(self).next_voice_index,
                    voice_id,
                    channel,
                    note,
                    0,
                    brightness,
                    0,
                    0,
                    0,
                    *params,
                    sample_rate,
                    timing,
                );
                &&& r == stolen
                &&& final(self).next_internal_voice_id == nid1
                &&& final(self).next_voice_index == nidx1
                &&& final(self).voices@ == vs1.update(k, Some(Voice { brightness, ..vs1[k]->Some_0 }))
            }),
    {
        let (idx, stolen) = self.find_or_create_voice(
            voice_id,
            channel,
            note,
            0,
            brightness,
            0,
            0,
            0,
            params,
            sample_rate,
            timing,
        );
        let ghost mid = *self;
        match self.voices[idx] {
            Some(mut v) => {
                proof {
                    assert(mid.voice_at(idx as int).wf());
                }
                v.brightness = brightness;
                self.voices.set(idx, Some(v));
                proof {
                    lemma_wf_after_update_same_id(mid, *self, idx as int, v);
                }
            },
            None => {},
        }
        stolen
    }
}

/// The plain value of the gain parameter at a normalized position: linear
/// interpolation across the parameter's range, the position clamped to
/// `[0, 1]`.
pub open spec fn preview_plain_spec(p: EngineParams, norm: int) -> int {
    let n = crate::fixed::clamp_spec(norm, 0, FP_SCALE as int);
    p.gain_min + (p.gain_max - p.gain_min) * n / (FP_SCALE as int)
}

/// The plain value the gain parameter takes at a normalized position.
pub fn preview_plain(params: &EngineParams, norm: i64) -> (r: i64)
    requires
        params.wf(),
        -2 * FP_SCALE <= norm <= 2 * FP_SCALE,
    ensures
        r == preview_plain_spec(*params, norm as int),
        params.gain_min <= r <= params.gain_max,
{
    let n: i64 = if norm < 0 {
        0
    } else if norm > FP_SCALE {
        FP_SCALE
    } else {
        norm
    };
    let span: i64 = params.gain_max - params.gain_min;
    proof {
        crate::fixed::lemma_ramp_bounds(span as int, n as int, FP_SCALE as int);
        assert(span * n == n * span) by (nonlinear_arith);
    }
    params.gain_min + (span * n) / FP_SCALE
}

/// The plain value the gain parameter takes when a per-voice normalized
/// offset is added to its current normalized position.
pub open spec fn preview_modulated_spec(p: EngineParams, offset: int) -> int {
    preview_plain_spec(p, p.gain_norm + offset)
}

/// The plain value of the gain parameter under a per-voice offset.
pub fn preview_modulated(params: &EngineParams, offset: i64) -> (r: i64)
    requires
        params.wf(),
        -FP_SCALE <= offset <= FP_SCALE,
    ensures
        r == preview_modulated_spec(*params, offset as int),
        params.gain_min <= r <= params.gain_max,
{
    preview_plain(params, params.gain_norm + offset)
}

/// A notification sequence extended by an optional event.
pub open spec fn push_opt(
    t: Seq<VoiceTerminatedEvent>,
    o: Option<VoiceTerminatedEvent>,
) -> Seq<VoiceTerminatedEvent> {
    match o {
        Some(e) => t.push(e),
        None => t,
    }
}

/// The pool after a note-off: every matching voice marked releasing with
/// its envelopes forced into release.
pub open spec fn release_map_spec(
    s: Seq<Option<Voice>>,
    voice_id: Option<i32>,
    channel: u8,
    note: u8,
) -> Seq<Option<Voice>> {
    Seq::new(
        s.len(),
        |i: int|
            if s[i] is Some && voice_matches(s[i]->Some_0, voice_id, channel, note) {
                Some(released_voice_spec(s[i]->Some_0))
            } else {
                s[i]
            },
    )
}

/// The pool after a no-id choke: every (channel, note) match cleared.
pub open spec fn choke_map_spec(s: Seq<Option<Voice>>, channel: u8, note: u8) -> Seq<
    Option<Voice>,
> {
    Seq::new(
        s.len(),
        |i: int|
            if s[i] is Some && voice_matches(s[i]->Some_0, None::<i32>, channel, note) {
                None
            } else {
                s[i]
            },
    )
}

/// The pool after a gain automation value arrives: every voice that
/// carries polyphonic gain modulation retargets its smoother to the new
/// value plus its own offset.
pub open spec fn mono_map_spec(
    s: Seq<Option<Voice>>,
    normalized_value: i64,
    params: EngineParams,
) -> Seq<Option<Voice>> {
    Seq::new(
        s.len(),
        |i: int|
            match s[i] {
                Some(v) => match v.voice_gain {
                    Some((off, sm)) => Some(
                        Voice {
                            voice_gain: Some(
                                (
                                    off,
                                    sm.set_target_spec(
                                        params.gain_smooth_samples,
                                        preview_plain_spec(
                                            params,
                                            normalized_value + off,
                                        ) as i64,
                                    ),
                                ),
                            ),
                            ..v
                        },
                    ),
                    None => s[i],
                },
                None => s[i],
            },
    )
}

/// What one event does to the pool, the counters, the generator and the
/// notification list, at its timestamp. Poly modulation that reaches a
/// voice created at or after the batch-start snapshot takes effect at once
/// instead of fading in, because that voice never observed the unmodulated
/// value. An unknown modulation target changes nothing.
pub open spec fn apply_event_spec(
    voices: Seq<Option<Voice>>,
    next_id: u64,
    next_idx: usize,
    rng: Pcg32,
    terminated: Seq<VoiceTerminatedEvent>,
    ev: NoteEvent,
    snapshot: u64,
    params: EngineParams,
    rate: u32,
) -> (Seq<Option<Voice>>, u64, usize, Pcg32, Seq<VoiceTerminatedEvent>) {
    match ev {
        NoteEvent::NoteOn { timing, voice_id, channel, note, velocity } => {
            let bits = crate::rng::pcg_output_spec(rng.state);
            let nv = fresh_voice_spec(
                voice_id,
                channel,
                note,
                velocity,
                0,
                FP_SCALE as i64,
                FP_SCALE as i64,
                0,
                0,
                ((bits as int) % 65536) as i64,
                next_id,
                params,
                rate,
            );
            let free = find_free_from(voices, 0);
            let k = if free >= 0 {
                free
            } else {
                oldest_before(voices, NUM_VOICES as int)
            };
            let stolen = if free >= 0 {
                None::<VoiceTerminatedEvent>
            } else {
                let ov = voices[k]->Some_0;
                if ov.amp_envelope.state is Idle || ov.amp_envelope.state is Release {
                    None::<VoiceTerminatedEvent>
                } else {
                    Some(
                        VoiceTerminatedEvent {
                            timing,
                            voice_id: Some(ov.voice_id),
                            channel: ov.channel,
                            note: ov.note,
                        },
                    )
                }
            };
            (
                voices.update(k, Some(reuse_voice_spec(nv, voices[k]))),
                (next_id + 1) as u64,
                next_idx,
                crate::rng::pcg_step_spec(rng),
                push_opt(terminated, stolen),
            )
        },
        NoteEvent::NoteOff { timing: _, voice_id, channel, note, velocity: _ } => (
            release_map_spec(voices, voice_id, channel, note),
            next_id,
            next_idx,
            rng,
            terminated,
        ),
        NoteEvent::Choke { timing, voice_id, channel, note } => match voice_id {
            Some(_) => {
                let m = find_match_from(voices, 0, voice_id, channel, note);
                if m >= 0 {
                    (
                        voices.update(m, None),
                        next_id,
                        next_idx,
                        rng,
                        terminated.push(choke_event_spec(voices, m, channel, note, timing)),
                    )
                } else {
                    (voices, next_id, next_idx, rng, terminated)
                }
            },
            None => (
                choke_map_spec(voices, channel, note),
                next_id,
                next_idx,
                rng,
                terminated + choked_events_pre(voices, NUM_VOICES as int, channel, note, timing),
            ),
        },
        NoteEvent::PolyModulation { timing: _, voice_id, poly_modulation_id, normalized_offset } => {
            if poly_modulation_id == GAIN_POLY_MOD_ID {
                let m = find_match_from(voices, 0, Some(voice_id), 0, 0);
                if m >= 0 {
                    let v = voices[m]->Some_0;
                    let sm0 = match v.voice_gain {
                        Some((_, sm)) => sm,
                        None => Smoother { start: params.gain, target: params.gain, pos: 0, len: 0 },
                    };
                    let target = preview_modulated_spec(params, normalized_offset as int) as i64;
                    let sm1 = if v.internal_voice_id >= snapshot {
                        Smoother { start: target, target, pos: 0, len: 0 }
                    } else {
                        sm0.set_target_spec(params.gain_smooth_samples, target)
                    };
                    (
                        voices.update(
                            m,
                            Some(Voice { voice_gain: Some((normalized_offset, sm1)), ..v }),
                        ),
                        next_id,
                        next_idx,
                        rng,
                        terminated,
                    )
                } else {
                    (voices, next_id, next_idx, rng, terminated)
                }
            } else {
                (voices, next_id, next_idx, rng, terminated)
            }
        },
        NoteEvent::MonoAutomation { timing: _, poly_modulation_id, normalized_value } => {
            if poly_modulation_id == GAIN_POLY_MOD_ID {
                (mono_map_spec(voices, normalized_value, params), next_id, next_idx, rng, terminated)
            } else {
                (voices, next_id, next_idx, rng, terminated)
            }
        },
        NoteEvent::PolyPressure { timing, voice_id, channel, note, pressure } => {
            let (vs1, nid1, nidx1, k, stolen) = foc_spec(
                voices,
                next_id,
                next_idx,
                voice_id,
                channel,
                note,
                0,
                0,
                0,
                0,
                0,
                params,
                rate,
                timing,
            );
            (
                vs1.update(k, Some(pressure_applied_spec(vs1[k]->Some_0, pressure))),
                nid1,
                nidx1,
                rng,
                push_opt(terminated, stolen),
            )
        },
        NoteEvent::PolyVolume { timing, voice_id, channel, note, gain } => {
            let (vs1, nid1, nidx1, k, stolen) = foc_spec(
                voices,
                next_id,
                next_idx,
                voice_id,
                channel,
                note,
                0,
                0,
                0,
                0,
                0,
                params,
                rate,
                timing,
            );
            (
                vs1.update(k, Some(volume_applied_spec(vs1[k]->Some_0, gain))),
                nid1,
                nidx1,
                rng,
                push_opt(terminated, stolen),
            )
        },
        NoteEvent::PolyPan { timing, voice_id, channel, note, pan } => {
            let (vs1, nid1, nidx1, k, stolen) = foc_spec(
                voices,
                next_id,
                next_idx,
                voice_id,
                channel,
                note,
                pan,
                0,
                0,
                0,
                0,
                params,
                rate,
                timing,
            );
            (
                vs1.update(k, Some(Voice { pan, ..vs1[k]->Some_0 })),
                nid1,
                nidx1,
                rng,
                push_opt(terminated, stolen),
            )
        },
        NoteEvent::PolyTuning { timing, voice_id, channel, note, tuning } => {
            let (vs1, nid1, nidx1, k, stolen) = foc_spec(
                voices,
                next_id,
                next_idx,
                voice_id,
                channel,
                note,
                0,
                0,
                0,
                tuning,
                0,
                params,
                rate,
                timing,
            );
            (
                vs1.update(k, Some(Voice { tuning, ..vs1[k]->Some_0 })),
                nid1,
                nidx1,
                rng,
                push_opt(terminated, stolen),
            )
        },
        NoteEvent::PolyVibrato { timing, voice_id, channel, note, vibrato } => {
            let (vs1, nid1, nidx1, k, stolen) = foc_spec(
                voices,
                next_id,
                next_idx,
                voice_id,
                channel,
                note,
                0,
                0,
                0,
                0,
                vibrato,
                params,
                rate,
                timing,
            );
            (
                vs1.update(k, Some(Voice { vibrato, ..vs1[k]->Some_0 })),
                nid1,
                nidx1,
                rng,
                push_opt(terminated, stolen),
            )
        },
    }
}

impl SubSynth {
    /// Applies one event to the pool at its timestamp. Poly modulation that
    /// reaches a voice created in the current event batch takes effect at
    /// once instead of fading in from the previous global value, because
    /// that voice has never observed the unmodulated value. The call's
    /// whole effect is one case of [`apply_event_spec`].
    #[verifier::rlimit(100)]
    fn apply_event(
        &mut self,
        event: &NoteEvent,
        this_block_id_start: u64,
        params: &EngineParams,
        sample_rate: u32,
        terminated: &mut Vec<VoiceTerminatedEvent>,
    )
        requires
            old(self).wf(),
            params.wf(),
            event.wf(),
            crate::filter::rate_ok(sample_rate),
            old(self).next_internal_voice_id < u64::MAX,
        ensures
            final(self).wf(),
            final(self).next_internal_voice_id <= old(self).next_internal_voice_id + 1,
            final(self).gain_smoother == old(self).gain_smoother,
            ({
                let (vs, nid, nidx, rng, term) = apply_event_spec(
                    old(self).voices@,
                    old(self).next_internal_voice_id,
                    old(self).next_voice_index,
                    old(self).prng,
                    old(terminated)@,
                    *event,
                    this_block_id_start,
                    *params,
                    sample_rate,
                );
                &&& final(self).voices@ == vs
                &&& final(self).next_internal_voice_id == nid
                &&& final(self).next_voice_index == nidx
                &&& final(self).prng == rng
                &&& final(terminated)@ == term
            }),
    {
        match event {
            NoteEvent::NoteOn { timing, voice_id, channel, note, velocity } => {
                let stolen = self.start_voice(
                    *timing,
                    *voice_id,
                    *channel,
                    *note,
                    *velocity,
                    0,
                    FP_SCALE,
                    FP_SCALE,
                    0,
                    0,
                    params,
                    sample_rate,
                );
                match stolen {
                    Some(evt) => terminated.push(evt),
                    None => {},
                }
            },
            NoteEvent::NoteOff { timing: _, voice_id, channel, note, velocity: _ } => {
                self.start_release_for_voices(*voice_id, *channel, *note);
                proof {
                    assert forall|i: int| 0 <= i < self.voices@.len() implies self.voices@[i]
                        == release_map_spec(old(self).voices@, *voice_id, *channel, *note)[i] by {
                        assert(self.voices@[i] == (if old(self).live(i) && voice_matches(
                            old(self).voice_at(i),
                            *voice_id,
                            *channel,
                            *note,
                        ) {
                            Some(released_voice_spec(old(self).voice_at(i)))
                        } else {
                            old(self).voices@[i]
                        }));
                    }
                    assert(self.voices@ =~= release_map_spec(
                        old(self).voices@,
                        *voice_id,
                        *channel,
                        *note,
                    ));
                }
            },
            NoteEvent::Choke { timing, voice_id, channel, note } => {
                self.choke_voices(*timing, *voice_id, *channel, *note, terminated);
                proof {
                    if voice_id is None {
                        assert forall|i: int|
                            0 <= i < self.voices@.len() implies self.voices@[i] == choke_map_spec(
                            old(self).voices@,
                            *channel,
                            *note,
                        )[i] by {
                            assert(self.voices@[i] == (if old(self).live(i) && voice_matches(
                                old(self).voice_at(i),
                                None::<i32>,
                                *channel,
                                *note,
                            ) {
                                None
                            } else {
                                old(self).voices@[i]
                            }));
                        }
                        assert(self.voices@ =~= choke_map_spec(
                            old(self).voices@,
                            *channel,
                            *note,
                        ));
                    }
                }
            },
            NoteEvent::PolyModulation {
                timing: _,
                voice_id,
                poly_modulation_id,
                normalized_offset,
            } => {
                if *poly_modulation_id == GAIN_POLY_MOD_ID {
                    match self.get_voice_idx(*voice_id) {
                        Some(idx) => {
                            proof {
                                lemma_find_match_range(
                                    old(self).voices@,
                                    0,
                                    Some(*voice_id),
                                    0,
                                    0,
                                );
                            }
                            let target = preview_modulated(params, *normalized_offset);
                            let ghost mid = *self;
                            match self.voices[idx] {
                                Some(mut v) => {
                                    proof {
                                        assert(mid.voice_at(idx as int).wf());
                                    }
                                    let mut sm = match v.voice_gain {
                                        Some((_, sm)) => sm,
                                        None => Smoother::constant(params.gain),
                                    };
                                    if v.internal_voice_id >= this_block_id_start {
                                        sm.reset(target);
                                    } else {
                                        sm.set_target(params.gain_smooth_samples, target);
                                    }
                                    v.voice_gain = Some((*normalized_offset, sm));
                                    self.voices.set(idx, Some(v));
                                    proof {
                                        lemma_wf_after_update_same_id(mid, *self, idx as int, v);
                                    }
                                },
                                None => {},
                            }
                        },
                        None => {
                            // The voice may be gone already or not yet
                            // created; the event is dropped, never fatal.
                        },
                    }
                }
                // An unknown modulation target is ignored.
            },
            NoteEvent::MonoAutomation { timing: _, poly_modulation_id, normalized_value } => {
                if *poly_modulation_id == GAIN_POLY_MOD_ID {
                    let ghost pre = *self;
                    let mut k: usize = 0;
                    while k < NUM_VOICES
                        invariant
                            pre.wf(),
                            self.wf(),
                            params.wf(),
                            -FP_SCALE <= *normalized_value <= FP_SCALE,
                            k <= NUM_VOICES,
                            self.voices@.len() == NUM_VOICES,
                            self.prng == pre.prng,
                            self.next_internal_voice_id == pre.next_internal_voice_id,
                            self.next_voice_index == pre.next_voice_index,
                            self.gain_smoother == pre.gain_smoother,
                            forall|i: int|
                                0 <= i < k ==> #[trigger] self.voices@[i] == mono_map_spec(
                                    pre.voices@,
                                    *normalized_value,
                                    *params,
                                )[i],
                            forall|i: int|
                                k <= i < NUM_VOICES ==> #[trigger] self.voices@[i]
                                    == pre.voices@[i],
                        decreases NUM_VOICES - k,
                    {
                        let ghost mid = *self;
                        match self.voices[k] {
                            Some(mut v) => {
                                proof {
                                    assert(pre.voice_at(k as int).wf());
                                }
                                match v.voice_gain {
                                    Some((offset, mut sm)) => {
                                        let target = preview_plain(
                                            params,
                                            *normalized_value + offset,
                                        );
                                        sm.set_target(params.gain_smooth_samples, target);
                                        v.voice_gain = Some((offset, sm));
                                        self.voices.set(k, Some(v));
                                        proof {
                                            lemma_wf_after_update_same_id(
                                                mid,
                                                *self,
                                                k as int,
                                                v,
                                            );
                                        }
                                    },
                                    None => {
                                        // Without existing polyphonic
                                        // modulation there is nothing to
                                        // update for this voice.
                                    },
                                }
                            },
                            None => {},
                        }
                        k = k + 1;
                    }
                    proof {
                        assert forall|i: int|
                            0 <= i < self.voices@.len() implies self.voices@[i] == mono_map_spec(
                            pre.voices@,
                            *normalized_value,
                            *params,
                        )[i] by {
                            assert(self.voices@[i] == mono_map_spec(
                                pre.voices@,
                                *normalized_value,
                                *params,
                            )[i]);
                        }
                        assert(self.voices@ =~= mono_map_spec(
                            pre.voices@,
                            *normalized_value,
                            *params,
                        ));
                    }
                }
            },
            NoteEvent::PolyPressure { timing, voice_id, channel, note, pressure } => {
                let stolen = self.handle_poly_pressure_event(
                    *timing,
                    *voice_id,
                    *channel,
                    *note,
                    *pressure,
                    params,
                    sample_rate,
                );
                match stolen {
                    Some(evt) => terminated.push(evt),
                    None => {},
                }
            },
            NoteEvent::PolyVolume { timing, voice_id, channel, note, gain } => {
                let stolen = self.handle_poly_volume_event(
                    *timing,
                    *voice_id,
                    *channel,
                    *note,
                    *gain,
                    params,
                    sample_rate,
                );
                match stolen {
                    Some(evt) => terminated.push(evt),
                    None => {},
                }
            },
            NoteEvent::PolyPan { timing, voice_id, channel, note, pan } => {
                let stolen = self.handle_poly_pan_event(
                    *timing,
                    *voice_id,
                    *channel,
                    *note,
                    *pan,
                    params,
                    sample_rate,
                );
                match stolen {
                    Some(evt) => terminated.push(evt),
                    None => {},
                }
            },
            NoteEvent::PolyTuning { timing, voice_id, channel, note, tuning } => {
                let stolen = self.handle_poly_tuning_event(
                    *timing,
                    *voice_id,
                    *channel,
                    *note,
                    *tuning,
                    params,
                    sample_rate,
                );
                match stolen {
                    Some(evt) => terminated.push(evt),
                    None => {},
                }
            },
            NoteEvent::PolyVibrato { timing, voice_id, channel, note, vibrato } => {
                let stolen = self.handle_poly_vibrato_event(
                    *timing,
                    *voice_id,
                    *channel,
                    *note,
                    *vibrato,
                    params,
                    sample_rate,
                );
                match stolen {
                    Some(evt) => terminated.push(evt),
                    None => {},
                }
            },
        }
    }
}

/// Whether every slot of a pool is empty.
pub open spec fn no_live(s: Seq<Option<Voice>>) -> bool {
    forall|i: int| 0 <= i < s.len() ==> (#[trigger] s[i]) is None
}

/// A pool with no live voices yields no reap notifications.
pub proof fn lemma_reaped_none(s: Seq<Option<Voice>>, k: int, t: u32)
    requires
        forall|i: int| 0 <= i < k ==> !(#[trigger] s[i] is Some),
    ensures
        reaped_events_pre(s, k, t) == Seq::<VoiceTerminatedEvent>::empty(),
    decreases k,
{
    if k > 0 {
        lemma_reaped_none(s, k - 1, t);
    }
}

/// The abstract state one render call walks: the pool, the counters, the
/// generator, the gain smoother, both output channels and the notification
/// list, plus the position in the event queue.
pub ghost struct RenderState {
    /// The voice pool.
    pub voices: Seq<Option<Voice>>,
    /// The next creation sequence number.
    pub next_internal_voice_id: u64,
    /// The expression-voice scan index.
    pub next_voice_index: usize,
    /// The pseudo-random generator.
    pub rng: Pcg32,
    /// The global gain smoother.
    pub gain_smoother: Smoother,
    /// The left output channel.
    pub left: Seq<i64>,
    /// The right output channel.
    pub right: Seq<i64>,
    /// The notifications emitted so far.
    pub terminated: Seq<VoiceTerminatedEvent>,
    /// How many events have been consumed.
    pub event_idx: int,
}

/// A raw smoother value clamped into the gain range.
pub open spec fn clamp_gain_spec(g: int) -> i64 {
    if g < 0 {
        0
    } else if g > FP_SCALE {
        FP_SCALE
    } else {
        g as i64
    }
}

/// One sample's walk over the pool from slot `k` on: each live voice draws
/// its noise bits, advances its per-voice gain smoother (or takes the block
/// gain), renders one sample, and accumulates into the running left and
/// right values.
#[verifier::opaque]
pub open spec fn tick_voices_from(
    voices: Seq<Option<Voice>>,
    k: int,
    l: i64,
    r: i64,
    rng: Pcg32,
    block_gain: i64,
    params: EngineParams,
    rate: u32,
) -> (Seq<Option<Voice>>, i64, i64, Pcg32)
    decreases NUM_VOICES - k,
{
    if k < 0 || k >= NUM_VOICES {
        (voices, l, r, rng)
    } else {
        match voices[k] {
            Some(v) => {
                let bits = crate::rng::pcg_output_spec(rng.state);
                let rng1 = crate::rng::pcg_step_spec(rng);
                let v1 = match v.voice_gain {
                    Some((off, sm)) => Voice { voice_gain: Some((off, sm.next_spec())), ..v },
                    None => v,
                };
                let g = match v.voice_gain {
                    Some((off, sm)) => clamp_gain_spec(sm.value_at(1)),
                    None => block_gain,
                };
                let (v2, lo, ro) = v1.rendered_voice_spec(
                    params.waveform,
                    params.filter_type,
                    params.filter_cut as int,
                    params.filter_res as int,
                    params.filter_amount as int,
                    g as int,
                    rate,
                    bits,
                );
                tick_voices_from(
                    voices.update(k, Some(v2)),
                    k + 1,
                    crate::fixed::fp_add_spec(l as int, lo as int) as i64,
                    crate::fixed::fp_add_spec(r as int, ro as int) as i64,
                    rng1,
                    block_gain,
                    params,
                    rate,
                )
            },
            None => tick_voices_from(voices, k + 1, l, r, rng, block_gain, params, rate),
        }
    }
}

/// The samples of `[s_idx, block_end)` rendered in order: per sample the
/// global gain smoother advances, every live voice accumulates into that
/// sample, and the buffers take the accumulated values.
#[verifier::opaque]
pub open spec fn render_samples_from(
    voices: Seq<Option<Voice>>,
    gs: Smoother,
    rng: Pcg32,
    left: Seq<i64>,
    right: Seq<i64>,
    s_idx: int,
    block_end: int,
    params: EngineParams,
    rate: u32,
) -> (Seq<Option<Voice>>, Smoother, Pcg32, Seq<i64>, Seq<i64>)
    decreases block_end - s_idx,
{
    if block_end <= s_idx {
        (voices, gs, rng, left, right)
    } else {
        let gs1 = gs.next_spec();
        let g = clamp_gain_spec(gs.value_at(1));
        let (v1, l, r, rng1) = tick_voices_from(
            voices,
            0,
            left[s_idx],
            right[s_idx],
            rng,
            g,
            params,
            rate,
        );
        render_samples_from(
            v1,
            gs1,
            rng1,
            left.update(s_idx, l),
            right.update(s_idx, r),
            s_idx + 1,
            block_end,
            params,
            rate,
        )
    }
}

/// A channel with `[a, b)` overwritten by silence.
pub open spec fn zero_filled_spec(s: Seq<i64>, a: int, b: int) -> Seq<i64> {
    Seq::new(
        s.len(),
        |j: int|
            if a <= j < b {
                0
            } else {
                s[j]
            },
    )
}

/// The pool after a reap pass: every releasing voice whose amplitude
/// envelope has reached Idle is cleared.
pub open spec fn reap_map_spec(s: Seq<Option<Voice>>) -> Seq<Option<Voice>> {
    Seq::new(
        s.len(),
        |i: int|
            if s[i] is Some && reapable(s[i]->Some_0) {
                None
            } else {
                s[i]
            },
    )
}

/// The events applied at the start of a sub-block: every unconsumed event
/// whose timestamp is at or before the block start, in queue order, each
/// by [`apply_event_spec`].
#[verifier::opaque]
pub open spec fn drain_events_spec(
    st: RenderState,
    block_start: int,
    snapshot: u64,
    events: Seq<NoteEvent>,
    params: EngineParams,
    rate: u32,
) -> RenderState
    decreases events.len() - st.event_idx,
{
    if st.event_idx < 0 || st.event_idx >= events.len() {
        st
    } else if events[st.event_idx].timing_spec() <= block_start {
        let (vs, nid, nidx, rng, term) = apply_event_spec(
            st.voices,
            st.next_internal_voice_id,
            st.next_voice_index,
            st.rng,
            st.terminated,
            events[st.event_idx],
            snapshot,
            params,
            rate,
        );
        drain_events_spec(
            RenderState {
                voices: vs,
                next_internal_voice_id: nid,
                next_voice_index: nidx,
                rng,
                terminated: term,
                event_idx: st.event_idx + 1,
                ..st
            },
            block_start,
            snapshot,
            events,
            params,
            rate,
        )
    } else {
        st
    }
}

/// Where a sub-block ends: at most `MAX_BLOCK_SIZE` samples on, cut short
/// by the call's end and by the next unconsumed event's timestamp. (The
/// final branch only keeps the bound positive; after a drain the next
/// event, if any, lies past the block start.)
pub open spec fn block_end_spec(
    st: RenderState,
    block_start: int,
    n: int,
    events: Seq<NoteEvent>,
) -> int {
    let be0 = if n - block_start > MAX_BLOCK_SIZE {
        block_start + MAX_BLOCK_SIZE
    } else {
        n
    };
    let be = if 0 <= st.event_idx < events.len() && events[st.event_idx].timing_spec() < be0 {
        events[st.event_idx].timing_spec() as int
    } else {
        be0
    };
    if be <= block_start {
        block_start + 1
    } else {
        be
    }
}

/// One render call from a block boundary on: drain the due events, bound
/// the sub-block, overwrite it with silence, render its samples, reap
/// finished voices at its end, and continue at the next boundary.
#[verifier::opaque]
pub open spec fn process_blocks_spec(
    st: RenderState,
    block_start: int,
    events: Seq<NoteEvent>,
    params: EngineParams,
    rate: u32,
    n: int,
) -> RenderState
    decreases n - block_start,
{
    if block_start < 0 || block_start >= n {
        st
    } else {
        let snapshot = st.next_internal_voice_id;
        let st1 = drain_events_spec(st, block_start, snapshot, events, params, rate);
        let be = block_end_spec(st1, block_start, n, events);
        let lz = zero_filled_spec(st1.left, block_start, be);
        let rz = zero_filled_spec(st1.right, block_start, be);
        let (v2, gs2, rng2, l2, r2) = render_samples_from(
            st1.voices,
            st1.gain_smoother,
            st1.rng,
            lz,
            rz,
            block_start,
            be,
            params,
            rate,
        );
        process_blocks_spec(
            RenderState {
                voices: reap_map_spec(v2),
                gain_smoother: gs2,
                rng: rng2,
                left: l2,
                right: r2,
                terminated: st1.terminated + reaped_events_pre(v2, NUM_VOICES as int, be as u32),
                ..st1
            },
            be,
            events,
            params,
            rate,
            n,
        )
    }
}

impl SubSynth {
    /// One sample's pass over the pool: each live voice draws noise bits,
    /// takes its per-voice or the block gain, renders, and accumulates
    /// into the sample; the whole pass equals [`tick_voices_from`].
    #[verifier::rlimit(100)]
    fn tick_all_voices(
        &mut self,
        out_left: &mut Vec<i64>,
        out_right: &mut Vec<i64>,
        sample_idx: usize,
        block_gain: i64,
        params: &EngineParams,
        sample_rate: u32,
    )
        requires
            old(self).wf(),
            params.wf(),
            crate::filter::rate_ok(sample_rate),
            old(out_left).len() == old(out_right).len(),
            sample_idx < old(out_left).len(),
            0 <= block_gain <= FP_SCALE,
            crate::fixed::fp_in_sig(old(out_left)@[sample_idx as int]),
            crate::fixed::fp_in_sig(old(out_right)@[sample_idx as int]),
        ensures
            final(self).wf(),
            final(out_left).len() == old(out_left).len(),
            final(out_right).len() == old(out_right).len(),
            final(self).next_internal_voice_id == old(self).next_internal_voice_id,
            final(self).next_voice_index == old(self).next_voice_index,
            final(self).gain_smoother == old(self).gain_smoother,
            (
                final(self).voices@,
                final(out_left)@[sample_idx as int],
                final(out_right)@[sample_idx as int],
                final(self).prng,
            ) == tick_voices_from(
                old(self).voices@,
                0,
                old(out_left)@[sample_idx as int],
                old(out_right)@[sample_idx as int],
                old(self).prng,
                block_gain,
                *params,
                sample_rate,
            ),
            forall|j: int|
                0 <= j < old(out_left).len() && j != sample_idx ==> final(out_left)@[j] == old(
                    out_left,
                )@[j] && final(out_right)@[j] == old(out_right)@[j],
            crate::fixed::fp_in_sig(final(out_left)@[sample_idx as int]),
            crate::fixed::fp_in_sig(final(out_right)@[sample_idx as int]),
            no_live(old(self).voices@) ==> no_live(final(self).voices@) && final(out_left)@
                == old(out_left)@ && final(out_right)@ == old(out_right)@,
    {
        let num_samples = out_left.len();
        let ghost quiet = no_live(old(self).voices@);
        let ghost vs_s = self.voices@;
        let ghost rng_s = self.prng;
        let ghost l_seq_s = out_left@;
        let ghost r_seq_s = out_right@;
        let ghost l_s = out_left@[sample_idx as int];
        let ghost r_s = out_right@[sample_idx as int];
        let mut k: usize = 0;
        while k < NUM_VOICES
            invariant
                self.wf(),
                params.wf(),
                crate::filter::rate_ok(sample_rate),
                k <= NUM_VOICES,
                0 <= block_gain <= FP_SCALE,
                sample_idx < num_samples,
                out_left.len() == num_samples,
                out_right.len() == num_samples,
                l_seq_s.len() == num_samples,
                r_seq_s.len() == num_samples,
                self.next_internal_voice_id == old(self).next_internal_voice_id,
                self.next_voice_index == old(self).next_voice_index,
                self.gain_smoother == old(self).gain_smoother,
                tick_voices_from(
                    vs_s,
                    0,
                    l_s,
                    r_s,
                    rng_s,
                    block_gain,
                    *params,
                    sample_rate,
                ) == tick_voices_from(
                    self.voices@,
                    k as int,
                    out_left@[sample_idx as int],
                    out_right@[sample_idx as int],
                    self.prng,
                    block_gain,
                    *params,
                    sample_rate,
                ),
                forall|j: int|
                    0 <= j < num_samples && j != sample_idx ==> out_left@[j] == l_seq_s[j]
                        && out_right@[j] == r_seq_s[j],
                crate::fixed::fp_in_sig(out_left@[sample_idx as int]),
                crate::fixed::fp_in_sig(out_right@[sample_idx as int]),
                quiet ==> no_live(self.voices@) && out_left@ == l_seq_s && out_right@
                    == r_seq_s,
            decreases NUM_VOICES - k,
        {
            let is_live = self.voices[k].is_some();
            if is_live {
                let ghost pre_p = *self;
                let noise_bits = self.prng.next_u32();
                proof {
                    lemma_wf_same_pool(pre_p, *self);
                }
                let ghost mid = *self;
                match self.voices[k] {
                    Some(mut v) => {
                        proof {
                            assert(mid.voice_at(k as int).wf());
                        }
                        let voice_gain: i64 = match v.voice_gain {
                            Some((off, mut sm)) => {
                                let gv = sm.next();
                                v.voice_gain = Some((off, sm));
                                if gv < 0 {
                                    0
                                } else if gv > FP_SCALE {
                                    FP_SCALE
                                } else {
                                    gv
                                }
                            },
                            None => block_gain,
                        };
                        let (l, r) = v.render_sample(
                            params.waveform,
                            params.filter_type,
                            params.filter_cut,
                            params.filter_res,
                            params.filter_amount,
                            voice_gain,
                            sample_rate,
                            noise_bits,
                        );
                        let ghost lo = out_left@;
                        let ghost ro = out_right@;
                        let acc_l = crate::fixed::fp_add(out_left[sample_idx], l);
                        let acc_r = crate::fixed::fp_add(out_right[sample_idx], r);
                        out_left.set(sample_idx, acc_l);
                        out_right.set(sample_idx, acc_r);
                        self.voices.set(k, Some(v));
                        proof {
                            lemma_wf_after_update_same_id(mid, *self, k as int, v);
                            assert forall|j: int|
                                0 <= j < num_samples && j != sample_idx implies out_left@[j]
                                == l_seq_s[j] && out_right@[j] == r_seq_s[j] by {
                                assert(out_left@[j] == lo[j]);
                                assert(out_right@[j] == ro[j]);
                            }
                            assert(noise_bits == crate::rng::pcg_output_spec(pre_p.prng.state));
                            assert(self.prng == crate::rng::pcg_step_spec(pre_p.prng));
                            reveal(tick_voices_from);
                        }
                    },
                    None => {},
                }
            } else {
                proof {
                    reveal(tick_voices_from);
                }
            }
            k = k + 1;
        }
        proof {
            reveal(tick_voices_from);
        }
    }
}

impl SubSynth {
    /// Renders one sub-block: overwrites `[block_start, block_end)` of both
    /// channels with silence and lets every live voice accumulate into each
    /// of its samples in turn. The whole effect equals
    /// [`render_samples_from`] over the silenced block.
    #[verifier::rlimit(100)]
    fn render_block(
        &mut self,
        out_left: &mut Vec<i64>,
        out_right: &mut Vec<i64>,
        block_start: usize,
        block_end: usize,
        params: &EngineParams,
        sample_rate: u32,
    )
        requires
            old(self).wf(),
            params.wf(),
            crate::filter::rate_ok(sample_rate),
            old(out_left).len() == old(out_right).len(),
            block_start <= block_end <= old(out_left).len(),
        ensures
            final(self).wf(),
            final(out_left).len() == old(out_left).len(),
            final(out_right).len() == old(out_right).len(),
            final(self).next_internal_voice_id == old(self).next_internal_voice_id,
            final(self).next_voice_index == old(self).next_voice_index,
            ({
                let lz = zero_filled_spec(old(out_left)@, block_start as int, block_end as int);
                let rz = zero_filled_spec(old(out_right)@, block_start as int, block_end as int);
                let folded = render_samples_from(
                    old(self).voices@,
                    old(self).gain_smoother,
                    old(self).prng,
                    lz,
                    rz,
                    block_start as int,
                    block_end as int,
                    *params,
                    sample_rate,
                );
                (
                    final(self).voices@,
                    final(self).gain_smoother,
                    final(self).prng,
                    final(out_left)@,
                    final(out_right)@,
                ) == folded
            }),
            forall|j: int|
                0 <= j < old(out_left).len() && !(block_start <= j < block_end) ==> final(out_left)@[j] == old(out_left)@[j] && final(out_right)@[j] == old(out_right)@[j],
            forall|j: int|
                block_start <= j < block_end ==> crate::fixed::fp_in_sig(
                    #[trigger] final(out_left)@[j],
                ) && crate::fixed::fp_in_sig(final(out_right)@[j]),
            no_live(old(self).voices@) ==> no_live(final(self).voices@) && (forall|j: int|
                block_start <= j < block_end ==> final(out_left)@[j] == 0 && final(out_right)@[j] == 0),
    {
        let ghost quiet = no_live(old(self).voices@);
        let num_samples = out_left.len();
        let ghost l_entry = out_left@;
        let ghost r_entry = out_right@;
        let mut i: usize = block_start;
        while i < block_end
            invariant
                block_start <= i <= block_end <= num_samples,
                out_left.len() == num_samples,
                out_right.len() == num_samples,
                l_entry.len() == num_samples,
                r_entry.len() == num_samples,
                forall|j: int|
                    block_start <= j < i ==> out_left@[j] == 0 && out_right@[j] == 0,
                forall|j: int|
                    0 <= j < num_samples && !(block_start <= j < i) ==> out_left@[j]
                        == l_entry[j] && out_right@[j] == r_entry[j],
            decreases block_end - i,
        {
            out_left.set(i, 0);
            out_right.set(i, 0);
            i = i + 1;
        }
        proof {
            assert(out_left@ =~= zero_filled_spec(l_entry, block_start as int, block_end as int));
            assert(out_right@ =~= zero_filled_spec(r_entry, block_start as int, block_end as int));
        }
        let ghost vs_blk = self.voices@;
        let ghost gs_blk = self.gain_smoother;
        let ghost rng_blk = self.prng;
        let ghost l_blk = out_left@;
        let ghost r_blk = out_right@;
        let mut sample_idx: usize = block_start;
        while sample_idx < block_end
            invariant
                self.wf(),
                params.wf(),
                crate::filter::rate_ok(sample_rate),
                block_start <= sample_idx <= block_end <= num_samples,
                out_left.len() == num_samples,
                out_right.len() == num_samples,
                self.next_internal_voice_id == old(self).next_internal_voice_id,
                self.next_voice_index == old(self).next_voice_index,
                render_samples_from(
                    vs_blk,
                    gs_blk,
                    rng_blk,
                    l_blk,
                    r_blk,
                    block_start as int,
                    block_end as int,
                    *params,
                    sample_rate,
                ) == render_samples_from(
                    self.voices@,
                    self.gain_smoother,
                    self.prng,
                    out_left@,
                    out_right@,
                    sample_idx as int,
                    block_end as int,
                    *params,
                    sample_rate,
                ),
                forall|j: int|
                    0 <= j < num_samples && !(block_start <= j < block_end) ==> out_left@[j]
                        == l_entry[j] && out_right@[j] == r_entry[j],
                forall|j: int|
                    block_start <= j < block_end ==> crate::fixed::fp_in_sig(
                        #[trigger] out_left@[j],
                    ) && crate::fixed::fp_in_sig(out_right@[j]),
                quiet ==> no_live(self.voices@),
                quiet ==> (forall|j: int|
                    block_start <= j < block_end ==> out_left@[j] == 0 && out_right@[j] == 0),
            decreases block_end - sample_idx,
        {
            let ghost vs_s = self.voices@;
            let ghost rng_s = self.prng;
            let ghost l_seq_s = out_left@;
            let ghost r_seq_s = out_right@;
            let ghost l_s = out_left@[sample_idx as int];
            let ghost r_s = out_right@[sample_idx as int];
            let ghost pre_g = *self;
            let g_raw = self.gain_smoother.next();
            proof {
                lemma_wf_same_pool(pre_g, *self);
            }
            let block_gain: i64 = if g_raw < 0 {
                0
            } else if g_raw > FP_SCALE {
                FP_SCALE
            } else {
                g_raw
            };
            proof {
                assert(block_gain == clamp_gain_spec(pre_g.gain_smoother.value_at(1)));
            }
            self.tick_all_voices(out_left, out_right, sample_idx, block_gain, params, sample_rate);
            proof {
                reveal(tick_voices_from);
                reveal(render_samples_from);
                assert(tick_voices_from(vs_s, 0, l_s, r_s, rng_s, block_gain, *params, sample_rate)
                    == (
                    self.voices@,
                    out_left@[sample_idx as int],
                    out_right@[sample_idx as int],
                    self.prng,
                ));
                assert(out_left@ =~= l_seq_s.update(
                    sample_idx as int,
                    out_left@[sample_idx as int],
                ));
                assert(out_right@ =~= r_seq_s.update(
                    sample_idx as int,
                    out_right@[sample_idx as int],
                ));
                assert(render_samples_from(
                    vs_s,
                    pre_g.gain_smoother,
                    rng_s,
                    l_seq_s,
                    r_seq_s,
                    sample_idx as int,
                    block_end as int,
                    *params,
                    sample_rate,
                ) == render_samples_from(
                    self.voices@,
                    self.gain_smoother,
                    self.prng,
                    out_left@,
                    out_right@,
                    sample_idx as int + 1,
                    block_end as int,
                    *params,
                    sample_rate,
                ));
            }
            sample_idx = sample_idx + 1;
        }
        proof {
            reveal(render_samples_from);
        }
    }
}

/// One unfolding of the block fold: a drained, bounded, silenced,
/// rendered and reaped sub-block advances the fold from its start to its
/// end boundary.
proof fn lemma_block_step(
    st: RenderState,
    block_start: int,
    events: Seq<NoteEvent>,
    params: EngineParams,
    rate: u32,
    n: int,
    st1: RenderState,
    be: int,
    post: RenderState,
)
    requires
        0 <= block_start < n,
        st1 == drain_events_spec(st, block_start, st.next_internal_voice_id, events, params, rate),
        be == block_end_spec(st1, block_start, n, events),
        ({
            let (v2, gs2, rng2, l2, r2) = render_samples_from(
                st1.voices,
                st1.gain_smoother,
                st1.rng,
                zero_filled_spec(st1.left, block_start, be),
                zero_filled_spec(st1.right, block_start, be),
                block_start,
                be,
                params,
                rate,
            );
            post == (RenderState {
                voices: reap_map_spec(v2),
                gain_smoother: gs2,
                rng: rng2,
                left: l2,
                right: r2,
                terminated: st1.terminated + reaped_events_pre(v2, NUM_VOICES as int, be as u32),
                ..st1
            })
        }),
    ensures
        process_blocks_spec(st, block_start, events, params, rate, n) == process_blocks_spec(
            post,
            be,
            events,
            params,
            rate,
            n,
        ),
{
    reveal(process_blocks_spec);
}

/// The abstract state an engine, its buffers, its notification list and
/// its event position stand for.
pub open spec fn render_bundle(
    e: SubSynth,
    left: Seq<i64>,
    right: Seq<i64>,
    terminated: Seq<VoiceTerminatedEvent>,
    event_idx: int,
) -> RenderState {
    RenderState {
        voices: e.voices@,
        next_internal_voice_id: e.next_internal_voice_id,
        next_voice_index: e.next_voice_index,
        rng: e.prng,
        gain_smoother: e.gain_smoother,
        left,
        right,
        terminated,
        event_idx,
    }
}

impl SubSynth {
    /// One render call: fills both channels of the output over `[0, N)`
    /// (overwriting, not assuming zeroed), slicing the call into sub-blocks
    /// bounded by `MAX_BLOCK_SIZE` and by the next event's timestamp,
    /// applying each event to the pool at its exact sample offset, letting
    /// every active voice accumulate into the sub-block, and reaping
    /// finished voices at each sub-block boundary. Returns the voice
    /// termination notifications of this call, in detection order.
    ///
    /// The call's whole outcome — the pool, the counters, the generator,
    /// the smoother, both channels and the notifications — equals
    /// [`process_blocks_spec`] folded from the starting state, so any two
    /// engines in the same state render bit-identical audio from the same
    /// inputs. A call with no events on an engine with no live voices
    /// writes pure silence and terminates nothing.
    #[verifier::rlimit(100)]
    #[verifier::spinoff_prover]
    pub fn process(
        &mut self,
        out_left: &mut Vec<i64>,
        out_right: &mut Vec<i64>,
        sample_rate: u32,
        events: &Vec<NoteEvent>,
        params: &EngineParams,
    ) -> (terminated: Vec<VoiceTerminatedEvent>)
        requires
            old(self).wf(),
            params.wf(),
            crate::filter::rate_ok(sample_rate),
            old(out_left).len() == old(out_right).len(),
            old(out_left).len() <= 4294967295,
            forall|i: int| 0 <= i < events@.len() ==> (#[trigger] events@[i]).wf(),
            forall|i: int, j: int|
                0 <= i < j < events@.len() ==> events@[i].timing_spec()
                    <= events@[j].timing_spec(),
            old(self).next_internal_voice_id + events@.len() <= u64::MAX,
        ensures
            final(self).wf(),
            final(out_left).len() == old(out_left).len(),
            final(out_right).len() == old(out_right).len(),
            forall|j: int|
                0 <= j < old(out_left).len() ==> crate::fixed::fp_in_sig(
                    #[trigger] final(out_left)@[j],
                ) && crate::fixed::fp_in_sig(final(out_right)@[j]),
            ({
                let st0 = RenderState {
                    voices: old(self).voices@,
                    next_internal_voice_id: old(self).next_internal_voice_id,
                    next_voice_index: old(self).next_voice_index,
                    rng: old(self).prng,
                    gain_smoother: old(self).gain_smoother.set_target_spec(
                        params.gain_smooth_samples,
                        params.gain,
                    ),
                    left: old(out_left)@,
                    right: old(out_right)@,
                    terminated: Seq::empty(),
                    event_idx: 0,
                };
                let stf = process_blocks_spec(
                    st0,
                    0,
                    events@,
                    *params,
                    sample_rate,
                    old(out_left).len() as int,
                );
                &&& final(self).voices@ == stf.voices
                &&& final(self).next_internal_voice_id == stf.next_internal_voice_id
                &&& final(self).next_voice_index == stf.next_voice_index
                &&& final(self).prng == stf.rng
                &&& final(self).gain_smoother == stf.gain_smoother
                &&& final(out_left)@ == stf.left
                &&& final(out_right)@ == stf.right
                &&& terminated@ == stf.terminated
            }),
            (events@.len() == 0 && no_live(old(self).voices@)) ==> ((forall|j: int|
                0 <= j < old(out_left).len() ==> final(out_left)@[j] == 0
                    && final(out_right)@[j] == 0) && terminated@ == Seq::<
                VoiceTerminatedEvent,
            >::empty()),
    {
        let ghost quiet = events@.len() == 0 && no_live(old(self).voices@);
        let num_samples = out_left.len();
        let ghost n = num_samples as int;
        let mut terminated: Vec<VoiceTerminatedEvent> = Vec::new();
        let mut event_idx: usize = 0;
        let ghost pre0 = *self;
        self.gain_smoother.set_target(params.gain_smooth_samples, params.gain);
        proof {
            lemma_wf_same_pool(pre0, *self);
        }
        let ghost st0 = render_bundle(*self, out_left@, out_right@, Seq::empty(), 0);
        let mut block_start: usize = 0;
        while block_start < num_samples
            invariant
                self.wf(),
                params.wf(),
                crate::filter::rate_ok(sample_rate),
                out_left.len() == num_samples,
                out_right.len() == num_samples,
                n == num_samples as int,
                num_samples <= 4294967295,
                block_start <= num_samples,
                event_idx <= events@.len(),
                forall|i: int| 0 <= i < events@.len() ==> (#[trigger] events@[i]).wf(),
                self.next_internal_voice_id + (events@.len() - event_idx) <= u64::MAX,
                process_blocks_spec(st0, 0, events@, *params, sample_rate, n)
                    == process_blocks_spec(
                    render_bundle(*self, out_left@, out_right@, terminated@, event_idx as int),
                    block_start as int,
                    events@,
                    *params,
                    sample_rate,
                    n,
                ),
                forall|j: int|
                    0 <= j < block_start ==> crate::fixed::fp_in_sig(#[trigger] out_left@[j])
                        && crate::fixed::fp_in_sig(out_right@[j]),
                quiet ==> events@.len() == 0,
                quiet ==> no_live(self.voices@),
                quiet ==> (forall|j: int|
                    0 <= j < block_start ==> out_left@[j] == 0 && out_right@[j] == 0),
                quiet ==> terminated@ == Seq::<VoiceTerminatedEvent>::empty(),
            decreases num_samples - block_start,
        {
            let ghost st_entry = render_bundle(
                *self,
                out_left@,
                out_right@,
                terminated@,
                event_idx as int,
            );
            let this_block_id_start = self.next_internal_voice_id;
            while event_idx < events.len() && (events[event_idx].timing() as usize)
                <= block_start
                invariant
                    self.wf(),
                    params.wf(),
                    crate::filter::rate_ok(sample_rate),
                    event_idx <= events@.len(),
                    forall|i: int| 0 <= i < events@.len() ==> (#[trigger] events@[i]).wf(),
                    self.next_internal_voice_id + (events@.len() - event_idx) <= u64::MAX,
                    self.gain_smoother == st_entry.gain_smoother,
                    this_block_id_start == st_entry.next_internal_voice_id,
                    drain_events_spec(
                        st_entry,
                        block_start as int,
                        this_block_id_start,
                        events@,
                        *params,
                        sample_rate,
                    ) == drain_events_spec(
                        render_bundle(
                            *self,
                            out_left@,
                            out_right@,
                            terminated@,
                            event_idx as int,
                        ),
                        block_start as int,
                        this_block_id_start,
                        events@,
                        *params,
                        sample_rate,
                    ),
                    quiet ==> events@.len() == 0,
                    quiet ==> no_live(self.voices@),
                    quiet ==> terminated@ == Seq::<VoiceTerminatedEvent>::empty(),
                decreases events@.len() - event_idx,
            {
                let ev = events[event_idx];
                self.apply_event(&ev, this_block_id_start, params, sample_rate, &mut terminated);
                event_idx = event_idx + 1;
                proof {
                    reveal(drain_events_spec);
                }
            }
            let ghost st1 = drain_events_spec(
                st_entry,
                block_start as int,
                this_block_id_start,
                events@,
                *params,
                sample_rate,
            );
            proof {
                reveal(drain_events_spec);
                assert(st1 == render_bundle(
                    *self,
                    out_left@,
                    out_right@,
                    terminated@,
                    event_idx as int,
                ));
            }
            let remaining = num_samples - block_start;
            let mut block_end: usize = if remaining > MAX_BLOCK_SIZE {
                block_start + MAX_BLOCK_SIZE
            } else {
                num_samples
            };
            if event_idx < events.len() {
                let t = events[event_idx].timing() as usize;
                if t < block_end {
                    block_end = t;
                }
            }
            proof {
                assert(block_start < block_end <= num_samples);
                assert(block_end as int == block_end_spec(st1, block_start as int, n, events@));
            }
            self.render_block(out_left, out_right, block_start, block_end, params, sample_rate);
            proof {
                let lz = zero_filled_spec(st1.left, block_start as int, block_end as int);
                let rz = zero_filled_spec(st1.right, block_start as int, block_end as int);
                let folded = render_samples_from(
                    st1.voices,
                    st1.gain_smoother,
                    st1.rng,
                    lz,
                    rz,
                    block_start as int,
                    block_end as int,
                    *params,
                    sample_rate,
                );
                assert((self.voices@, self.gain_smoother, self.prng, out_left@, out_right@)
                    == folded);
            }
            let ghost before_reap = *self;
            self.reap_voices(block_end as u32, &mut terminated);
            proof {
                assert forall|i: int|
                    0 <= i < self.voices@.len() implies self.voices@[i] == reap_map_spec(
                    before_reap.voices@,
                )[i] by {
                    assert(self.voices@[i] == (if before_reap.live(i) && reapable(
                        before_reap.voice_at(i),
                    ) {
                        None
                    } else {
                        before_reap.voices@[i]
                    }));
                }
                assert(self.voices@ =~= reap_map_spec(before_reap.voices@));
                if quiet {
                    lemma_reaped_none(before_reap.voices@, NUM_VOICES as int, block_end as u32);
                    assert(self.voices@.len() == NUM_VOICES);
                    assert forall|i2: int| 0 <= i2 < self.voices@.len() implies (
                    #[trigger] self.voices@[i2]) is None by {
                        assert(before_reap.voices@[i2] is None);
                        assert(!before_reap.live(i2));
                        assert(self.voices@[i2] == (if before_reap.live(i2) && reapable(
                            before_reap.voice_at(i2),
                        ) {
                            None
                        } else {
                            before_reap.voices@[i2]
                        }));
                    }
                    assert(terminated@ == Seq::<VoiceTerminatedEvent>::empty());
                }
                assert(render_bundle(
                    *self,
                    out_left@,
                    out_right@,
                    terminated@,
                    event_idx as int,
                ) == (RenderState {
                    voices: reap_map_spec(before_reap.voices@),
                    gain_smoother: before_reap.gain_smoother,
                    rng: before_reap.prng,
                    left: out_left@,
                    right: out_right@,
                    terminated: st1.terminated + reaped_events_pre(
                        before_reap.voices@,
                        NUM_VOICES as int,
                        block_end as u32,
                    ),
                    ..st1
                }));
                lemma_block_step(
                    st_entry,
                    block_start as int,
                    events@,
                    *params,
                    sample_rate,
                    n,
                    st1,
                    block_end as int,
                    render_bundle(*self, out_left@, out_right@, terminated@, event_idx as int),
                );
            }
            block_start = block_end;
        }
        proof {
            reveal(process_blocks_spec);
        }
        terminated
    }
}

/// The conjunctive identity rule of [`SubSynth::find_voice`]: channel and
/// note must both match, and an explicit voice id must match too when
/// supplied.
pub open spec fn voice_matches_all(v: Voice, voice_id: Option<i32>, channel: u8, note: u8) -> bool {
    &&& match voice_id {
        Some(id) => v.voice_id == id,
        None => true,
    }
    &&& v.channel == channel
    &&& v.note == note
}

/// The first slot at or after `i` whose live voice satisfies the
/// conjunctive rule, or -1.
pub open spec fn find_all_from(
    s: Seq<Option<Voice>>,
    i: int,
    voice_id: Option<i32>,
    channel: u8,
    note: u8,
) -> int
    decreases s.len() - i,
{
    if i < 0 || i >= s.len() {
        -1
    } else if s[i] is Some && voice_matches_all(s[i]->Some_0, voice_id, channel, note) {
        i
    } else {
        find_all_from(s, i + 1, voice_id, channel, note)
    }
}

impl SubSynth {
    /// Looks up a live voice by channel and note, and by explicit voice id
    /// when one is supplied; all supplied identity fields must agree.
    pub fn find_voice(&self, voice_id: Option<i32>, channel: u8, note: u8) -> (r: Option<usize>)
        requires
            self.wf(),
        ensures
            r == (if find_all_from(self.voices@, 0, voice_id, channel, note) >= 0 {
                Some(find_all_from(self.voices@, 0, voice_id, channel, note) as usize)
            } else {
                Option::<usize>::None
            }),
    {
        let mut k: usize = 0;
        while k < NUM_VOICES
            invariant
                self.voices@.len() == NUM_VOICES,
                k <= NUM_VOICES,
                find_all_from(self.voices@, 0, voice_id, channel, note) == find_all_from(
                    self.voices@,
                    k as int,
                    voice_id,
                    channel,
                    note,
                ),
            decreases NUM_VOICES - k,
        {
            let hit = match &self.voices[k] {
                Some(v) => {
                    let id_ok = match voice_id {
                        Some(id) => v.voice_id == id,
                        None => true,
                    };
                    id_ok && v.channel == channel && v.note == note
                },
                None => false,
            };
            if hit {
                proof {
                    assert(find_all_from(self.voices@, k as int, voice_id, channel, note)
                        == k);
                }
                return Some(k);
            }
            k = k + 1;
        }
        None
    }
}


impl Default for SubSynth {
    /// The engine in its initial state: an empty pool and the fixed seed.
    fn default() -> (r: SubSynth)
        ensures
            r.wf(),
            forall|i: int| 0 <= i < NUM_VOICES ==> !r.live(i),
            r.next_internal_voice_id == 0,
    {
        SubSynth::new()
    }
}

} // verus!
