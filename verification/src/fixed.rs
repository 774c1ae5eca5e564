//! Fixed-point arithmetic for the signal path.
//!
//! A signal value is an `i64` holding a real number scaled by [`FP_SCALE`]
//! (a Q16.16 format): `FP_SCALE` stands for 1.0, `-FP_SCALE` for -1.0.
//! Every stored signal is kept inside `[-SIG_MAX, SIG_MAX]` (about
//! `[-16384.0, 16384.0]`), which makes every product of two signals fit an
//! `i64` with room to spare; the saturating operations below re-establish the
//! bound after each step.

use vstd::prelude::*;

verus! {

/// The fixed-point unit: this value stands for 1.0.
pub const FP_SCALE: i64 = 65536;

/// One half, in fixed point.
pub const FP_HALF: i64 = 32768;

/// Largest magnitude a stored signal may take (2^30).
pub const SIG_MAX: i64 = 1073741824;

/// A value that the signal path may store: bounded by [`SIG_MAX`].
pub open spec fn fp_in_sig(x: i64) -> bool {
    -SIG_MAX <= x <= SIG_MAX
}

/// Mathematical clamp of `x` to `[lo, hi]`.
pub open spec fn clamp_spec(x: int, lo: int, hi: int) -> int {
    if x < lo {
        lo
    } else if x > hi {
        hi
    } else {
        x
    }
}

/// Division truncating toward zero (the machine's signed division), for `b > 0`.
pub open spec fn tdiv(a: int, b: int) -> int {
    if a >= 0 {
        a / b
    } else {
        -((-a) / b)
    }
}

/// The product of two fixed-point values, rescaled and saturated.
pub open spec fn fp_mul_spec(a: int, b: int) -> int {
    clamp_spec(tdiv(a * b, FP_SCALE as int), -SIG_MAX as int, SIG_MAX as int)
}

/// The quotient of two fixed-point values (`b > 0`), rescaled and saturated.
pub open spec fn fp_div_spec(a: int, b: int) -> int {
    clamp_spec(tdiv(a * FP_SCALE, b), -SIG_MAX as int, SIG_MAX as int)
}

/// Saturating addition of two in-range signals.
pub open spec fn fp_add_spec(a: int, b: int) -> int {
    clamp_spec(a + b, -SIG_MAX as int, SIG_MAX as int)
}

/// Clamps a raw value into the stored signal range.
pub fn fp_clamp(x: i64) -> (r: i64)
    ensures
        r == clamp_spec(x as int, -SIG_MAX as int, SIG_MAX as int),
        fp_in_sig(r),
{
    if x < -SIG_MAX {
        -SIG_MAX
    } else if x > SIG_MAX {
        SIG_MAX
    } else {
        x
    }
}

/// Saturating addition of two stored signals.
pub fn fp_add(a: i64, b: i64) -> (r: i64)
    requires
        fp_in_sig(a),
        fp_in_sig(b),
    ensures
        r == fp_add_spec(a as int, b as int),
        fp_in_sig(r),
{
    fp_clamp(a + b)
}

/// Fixed-point multiplication with saturation.
pub fn fp_mul(a: i64, b: i64) -> (r: i64)
    requires
        fp_in_sig(a),
        fp_in_sig(b),
    ensures
        r == fp_mul_spec(a as int, b as int),
        fp_in_sig(r),
{
    proof {
        assert((a as int) * (b as int) <= (SIG_MAX as int) * (SIG_MAX as int)
            && (a as int) * (b as int) >= -((SIG_MAX as int) * (SIG_MAX as int))) by (nonlinear_arith)
            requires
                -SIG_MAX <= a as int <= SIG_MAX,
                -SIG_MAX <= b as int <= SIG_MAX,
        ;
    }
    let p: i64 = a * b;
    let q: i64 = if p >= 0 {
        p / FP_SCALE
    } else {
        -((-p) / FP_SCALE)
    };
    fp_clamp(q)
}

/// Fixed-point division by a positive divisor, with saturation.
pub fn fp_div(a: i64, b: i64) -> (r: i64)
    requires
        fp_in_sig(a),
        1 <= b,
    ensures
        r == fp_div_spec(a as int, b as int),
        fp_in_sig(r),
{
    let n: i64 = a * FP_SCALE;
    let q: i64 = if n >= 0 {
        n / b
    } else {
        -((-n) / b)
    };
    fp_clamp(q)
}

/// A linear ramp `a * t / d` with `0 <= t <= d` stays inside `[0, a]`.
pub proof fn lemma_ramp_bounds(a: int, t: int, d: int)
    requires
        0 <= a,
        0 <= t <= d,
        1 <= d,
    ensures
        0 <= a * t / d <= a,
{
    vstd::arithmetic::mul::lemma_mul_nonnegative(a, t);
    vstd::arithmetic::div_mod::lemma_div_pos_is_pos(a * t, d);
    vstd::arithmetic::mul::lemma_mul_inequality(t, d, a);
    assert(a * t == t * a) by (nonlinear_arith);
    assert(a * d == d * a) by (nonlinear_arith);
    vstd::arithmetic::div_mod::lemma_div_is_ordered(a * t, d * a, d);
    vstd::arithmetic::div_mod::lemma_div_multiples_vanish(a, d);
}

/// Integer square root: the greatest `r` with `r * r <= x`.
pub fn isqrt(x: u64) -> (r: u64)
    requires
        x <= 4294967296,
    ensures
        r * r <= x,
        x < (r + 1) * (r + 1),
        r <= 65536,
{
    let mut lo: u64 = 0;
    let mut hi: u64 = 65537;
    proof {
        assert(65537u64 * 65537u64 > 4294967296) by (nonlinear_arith);
    }
    while lo + 1 < hi
        invariant
            lo < hi <= 65537,
            lo * lo <= x,
            x < hi * hi,
        decreases hi - lo,
    {
        let mid: u64 = lo + (hi - lo) / 2;
        proof {
            assert(mid * mid <= 65537u64 * 65537u64) by (nonlinear_arith)
                requires
                    mid <= 65537u64,
            ;
        }
        if mid * mid <= x {
            lo = mid;
        } else {
            hi = mid;
        }
    }
    lo
}

} // verus!
