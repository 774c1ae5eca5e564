//! A per-block parameter smoother: a linear interpolator that ramps a
//! parameter from the value it had when a new target was set toward that
//! target over a fixed number of samples, to avoid audible steps.

use vstd::prelude::*;

use crate::fixed::{fp_in_sig, lemma_ramp_bounds, SIG_MAX};

verus! {

/// Longest ramp a smoother accepts, in samples (2^20).
pub const MAX_SMOOTH_LEN: u64 = 1048576;

/// A linear parameter ramp.
#[derive(Clone, Copy, Debug)]
pub struct Smoother {
    /// Value at the start of the current ramp.
    pub start: i64,
    /// Value the ramp is heading toward.
    pub target: i64,
    /// Samples into the current ramp.
    pub pos: u64,
    /// Ramp length in samples; 0 means the target applies at once.
    pub len: u64,
}

impl Smoother {
    /// The smoother's internal invariant.
    pub open spec fn wf(self) -> bool {
        &&& fp_in_sig(self.start)
        &&& fp_in_sig(self.target)
        &&& self.len <= MAX_SMOOTH_LEN
        &&& self.pos <= self.len
    }

    /// The interpolated value `k` samples past `pos` along the ramp.
    pub open spec fn value_at(self, k: nat) -> int {
        let p = if self.pos + k >= self.len {
            self.len as int
        } else {
            self.pos + k
        };
        if self.len == 0 {
            self.target as int
        } else {
            let d = self.target - self.start;
            if d >= 0 {
                self.start + d * p / (self.len as int)
            } else {
                self.start - (-d) * p / (self.len as int)
            }
        }
    }

    /// The smoother's current value.
    pub open spec fn value_spec(self) -> int {
        self.value_at(0)
    }

    /// Every point of the ramp lies between the start and target values.
    pub proof fn lemma_value_bounded(self, k: nat)
        requires
            self.wf(),
        ensures
            fp_in_sig(self.value_at(k) as i64),
            -SIG_MAX <= self.value_at(k) <= SIG_MAX,
    {
        let p = if self.pos + k >= self.len {
            self.len as int
        } else {
            self.pos + k
        };
        if self.len != 0 {
            let d = self.target - self.start;
            if d >= 0 {
                lemma_ramp_bounds(d, p, self.len as int);
            } else {
                lemma_ramp_bounds(-d, p, self.len as int);
            }
        }
    }

    /// A smoother resting at a value.
    pub fn constant(value: i64) -> (r: Smoother)
        requires
            fp_in_sig(value),
        ensures
            r.wf(),
            r == (Smoother { start: value, target: value, pos: 0, len: 0 }),
    {
        Smoother { start: value, target: value, pos: 0, len: 0 }
    }

    /// Jumps to a value at once, abandoning any ramp in progress.
    pub fn reset(&mut self, value: i64)
        requires
            fp_in_sig(value),
        ensures
            final(self).wf(),
            *final(self) == (Smoother { start: value, target: value, pos: 0, len: 0 }),
    {
        self.start = value;
        self.target = value;
        self.pos = 0;
        self.len = 0;
    }

    /// The smoother after a new ramp is started from its current value
    /// toward a target, `len` samples long.
    pub open spec fn set_target_spec(self, len: u64, target: i64) -> Smoother {
        Smoother { start: self.value_spec() as i64, target, pos: 0, len }
    }

    /// The smoother after one sample's advance.
    pub open spec fn next_spec(self) -> Smoother {
        Smoother {
            pos: if self.pos + 1 >= self.len {
                self.len
            } else {
                (self.pos + 1) as u64
            },
            ..self
        }
    }

    /// Starts a new ramp from the current value toward a target, `len`
    /// samples long.
    pub fn set_target(&mut self, len: u64, target: i64)
        requires
            old(self).wf(),
            fp_in_sig(target),
            len <= MAX_SMOOTH_LEN,
        ensures
            final(self).wf(),
            *final(self) == old(self).set_target_spec(len, target),
            final(self).start == old(self).value_spec(),
            final(self).target == target,
            final(self).pos == 0,
            final(self).len == len,
    {
        let here = self.current();
        self.start = here;
        self.target = target;
        self.pos = 0;
        self.len = len;
    }

    /// The current value, without advancing.
    pub fn current(&self) -> (r: i64)
        requires
            self.wf(),
        ensures
            r == self.value_spec(),
            fp_in_sig(r),
    {
        proof {
            self.lemma_value_bounded(0);
            if self.len != 0 {
                let d = self.target - self.start;
                if d >= 0 {
                    vstd::arithmetic::div_mod::lemma_div_by_multiple(d, self.len as int);
                } else {
                    vstd::arithmetic::div_mod::lemma_div_by_multiple(-d, self.len as int);
                }
                assert(d * (self.pos as int) <= 2147483648 * (MAX_SMOOTH_LEN as int)
                    && d * (self.pos as int) >= -2147483648 * (MAX_SMOOTH_LEN as int)
                    && (-d) * (self.pos as int) == -(d * (self.pos as int)))
                    by (nonlinear_arith)
                    requires
                        -2147483648 <= d <= 2147483648,
                        0 <= self.pos <= MAX_SMOOTH_LEN,
                ;
            }
        }
        if self.len == 0 || self.pos >= self.len {
            self.target
        } else {
            let d: i64 = self.target - self.start;
            if d >= 0 {
                self.start + (d * (self.pos as i64)) / (self.len as i64)
            } else {
                self.start - ((-d) * (self.pos as i64)) / (self.len as i64)
            }
        }
    }

    /// Advances one sample and yields the new value.
    pub fn next(&mut self) -> (r: i64)
        requires
            old(self).wf(),
        ensures
            final(self).wf(),
            r == old(self).value_at(1),
            *final(self) == old(self).next_spec(),
            final(self).start == old(self).start,
            final(self).target == old(self).target,
            final(self).len == old(self).len,
            final(self).pos == if old(self).pos + 1 >= old(self).len {
                old(self).len
            } else {
                (old(self).pos + 1) as u64
            },
            fp_in_sig(r),
    {
        if self.pos < self.len {
            self.pos = self.pos + 1;
        }
        self.current()
    }

    /// Fills `buf[0 .. block_len]` with the next `block_len` values of the
    /// ramp, advancing the smoother past them.
    pub fn next_block(&mut self, buf: &mut Vec<i64>, block_len: usize)
        requires
            old(self).wf(),
            block_len <= old(buf).len(),
        ensures
            final(self).wf(),
            final(buf).len() == old(buf).len(),
            forall|i: int|
                0 <= i < block_len ==> #[trigger] final(buf)[i] == old(self).value_at((i + 1) as nat),
            forall|i: int| block_len <= i < old(buf).len() ==> final(buf)[i] == old(buf)[i],
            final(self).start == old(self).start,
            final(self).target == old(self).target,
            final(self).len == old(self).len,
    {
        let mut i: usize = 0;
        while i < block_len
            invariant
                self.wf(),
                i <= block_len,
                block_len <= buf.len(),
                buf.len() == old(buf).len(),
                self.start == old(self).start,
                self.target == old(self).target,
                self.len == old(self).len,
                self.pos == if old(self).pos + i >= old(self).len {
                    old(self).len as int
                } else {
                    old(self).pos + i
                },
                forall|j: int|
                    0 <= j < i ==> #[trigger] buf[j] == old(self).value_at((j + 1) as nat),
                forall|j: int| i <= j < buf.len() ==> buf[j] == old(buf)[j],
            decreases block_len - i,
        {
            let v = self.next();
            buf.set(i, v);
            i = i + 1;
        }
    }
}

} // verus!
