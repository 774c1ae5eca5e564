//! The engine's pseudo-random generator: a PCG-XSH-RR 64/32 instance owned
//! by the engine and threaded through explicitly, so runs are reproducible
//! given a seed.
//!
//! The whole generator is a four-line formula — one wrapping linear-
//! congruential step of the 64-bit state, and an output built from a
//! xorshift and a data-dependent rotate — so it is implemented here and
//! proved against that formula directly: every draw, and therefore every
//! render call, is a pure function of the seed.

use vstd::prelude::*;

verus! {

/// The multiplier of the 64-bit linear-congruential step.
pub const PCG_MULTIPLIER: u64 = 6364136223846793005;

/// One past the largest 64-bit value, for the wrapping arithmetic.
pub const TWO_POW_64: u128 = 18446744073709551616;

/// A PCG-XSH-RR 64/32 generator: a 64-bit linear-congruential state with an
/// odd per-stream increment, put out through a xorshift and a rotate.
#[derive(Clone, Copy, PartialEq, Eq, Structural, Debug)]
pub struct Pcg32 {
    /// The 64-bit congruential state.
    pub state: u64,
    /// The stream's odd increment.
    pub increment: u64,
}

/// One wrapping step of the congruential state.
pub open spec fn pcg_step_spec(g: Pcg32) -> Pcg32 {
    Pcg32 {
        state: ((g.state * PCG_MULTIPLIER + g.increment) % (TWO_POW_64 as int)) as u64,
        increment: g.increment,
    }
}

/// The 32 output bits read off a state: xorshift high, then a random
/// rotate, the rotate count taken from the top five state bits.
pub open spec fn pcg_output_spec(state: u64) -> u32 {
    let xsh = (((state >> 18) ^ state) >> 27) as u32;
    let rot = (state >> 59) as u32;
    if rot == 0 {
        xsh
    } else {
        (xsh >> rot) | (xsh << (32 - rot))
    }
}

/// The generator a seed and stream selector start: the stream is forced
/// odd, folded into the state once, and stepped once.
pub open spec fn pcg_seed_spec(state: u64, stream: u64) -> Pcg32 {
    let increment = ((stream << 1) | 1) as u64;
    pcg_step_spec(
        Pcg32 { state: ((state + increment) % (TWO_POW_64 as int)) as u64, increment },
    )
}

impl Pcg32 {
    /// Builds a generator from a seed and a stream selector.
    pub fn new(state: u64, stream: u64) -> (r: Pcg32)
        ensures
            r == pcg_seed_spec(state, stream),
    {
        let increment: u64 = (stream << 1u64) | 1;
        let folded: u64 = (((state as u128) + (increment as u128)) % TWO_POW_64) as u64;
        let mut g = Pcg32 { state: folded, increment };
        let _ = g.next_u32();
        proof {
            assert(pcg_step_spec(Pcg32 { state: folded, increment }) == g);
        }
        g
    }

    /// Advances the generator one step and yields 32 bits.
    pub fn next_u32(&mut self) -> (r: u32)
        ensures
            *final(self) == pcg_step_spec(*old(self)),
            r == pcg_output_spec(old(self).state),
    {
        let state = self.state;
        proof {
            assert((state as int) * (PCG_MULTIPLIER as int) <= 18446744073709551615
                * 6364136223846793005) by (nonlinear_arith)
                requires
                    state <= 18446744073709551615u64,
            ;
        }
        let stepped: u128 = (state as u128) * (PCG_MULTIPLIER as u128) + (self.increment as u128);
        self.state = (stepped % TWO_POW_64) as u64;
        let xsh: u32 = (((state >> 18u64) ^ state) >> 27u64) as u32;
        let rot: u32 = (state >> 59u64) as u32;
        proof {
            assert(state >> 59u64 < 32) by (bit_vector);
        }
        if rot == 0 {
            xsh
        } else {
            (xsh >> rot) | (xsh << ((32 - rot) as u32))
        }
    }
}

} // verus!
