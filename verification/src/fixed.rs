//! Q16 fixed-point sample arithmetic: saturation, multiplication by a
//! coefficient, and the linear blend used for interpolation and the
//! dry/wet mix.

use vstd::prelude::*;
use vstd::arithmetic::div_mod::lemma_div_is_ordered;
use vstd::arithmetic::div_mod::lemma_div_multiples_vanish;
use vstd::arithmetic::div_mod::lemma_div_pos_is_pos;
use vstd::arithmetic::mul::lemma_mul_inequality;
use vstd::arithmetic::mul::lemma_mul_upper_bound;
use vstd::arithmetic::mul::lemma_mul_is_commutative;

verus! {

/// Magnitude of an integer.
pub open spec fn mag(x: int) -> int {
    if x < 0 {
        -x
    } else {
        x
    }
}

/// The fixed-point representation of 1.0: sixteen fractional bits.
pub const ONE: i64 = 65536;

/// The fixed-point representation of 0.5.
pub const HALF: i64 = 32768;

/// Saturation bound on every sample the engine stores or emits
/// (amplitude 2^24, i.e. ample headroom above full scale).
pub const SAMPLE_LIMIT: i64 = 0x100_0000_0000;

/// Largest magnitude `fp_mul` accepts without risking `i64` overflow.
pub const MUL_LIMIT: i64 = 0x2000_0000_0000;

/// Smallest sample rate the engine accepts, Q16 Hz (1 Hz).
pub const SR_MIN: i64 = 65536;

/// Largest sample rate the engine accepts, Q16 Hz (2^20 Hz).
pub const SR_MAX: i64 = 0x10_0000_0000;

/// Largest nominal delay any unit uses, Q16 milliseconds (50 ms).
pub const MAX_DELAY_MS: i64 = 3276800;

/// Delay length in fractional (Q16) samples for a Q16 delay time in
/// milliseconds at a Q16 sample rate in Hz: `sample_rate * ms / 1000`.
pub open spec fn samples_spec(ms: int, sr: int) -> int {
    (ms * sr) / 65536000
}

/// Saturate a value to the sample range.
pub open spec fn clamp_spec(x: int) -> int {
    if x > SAMPLE_LIMIT as int {
        SAMPLE_LIMIT as int
    } else if x < -(SAMPLE_LIMIT as int) {
        -(SAMPLE_LIMIT as int)
    } else {
        x
    }
}

/// Fixed-point product of a sample and a coefficient: the magnitudes are
/// multiplied, rescaled by `ONE` rounding toward zero, and the sign of the
/// real product is reapplied.
pub open spec fn fp_mul_spec(s: int, c: int) -> int {
    let m = (mag(s) * mag(c)) / (ONE as int);
    if (s < 0) == (c < 0) {
        m
    } else {
        -m
    }
}

/// Linear blend `a * w + b * (ONE - w)`, saturated to the sample range.
pub open spec fn fp_blend_spec(a: int, b: int, w: int) -> int {
    clamp_spec(fp_mul_spec(a, w) + fp_mul_spec(b, ONE as int - w))
}

/// The magnitude of a fixed-point product by a coefficient of magnitude at
/// most `ONE` never exceeds the magnitude of the sample.
pub proof fn lemma_fp_mul_mag(s: int, c: int)
    requires
        -(ONE as int) <= c <= ONE as int,
    ensures
        mag(fp_mul_spec(s, c)) <= mag(s),
        fp_mul_spec(s, c) == 0 || ((fp_mul_spec(s, c) < 0) == (s < 0 != (c < 0))),
{
    let m = (mag(s) * mag(c)) / (ONE as int);
    lemma_div_pos_is_pos(mag(s) * mag(c), ONE as int);
    lemma_mul_inequality(mag(c) as int, ONE as int, mag(s) as int);
    lemma_mul_is_commutative(mag(s) as int, mag(c) as int);
    lemma_div_is_ordered(mag(s) * mag(c), mag(s) * (ONE as int), ONE as int);
    lemma_mul_is_commutative(mag(s) as int, ONE as int);
    lemma_div_multiples_vanish(mag(s) as int, ONE as int);
    assert(0 <= m <= mag(s));
}

/// Multiplying by the zero coefficient gives zero.
pub proof fn lemma_fp_mul_zero(s: int)
    ensures
        fp_mul_spec(s, 0) == 0,
        fp_mul_spec(0, s) == 0,
{
    lemma_div_pos_is_pos(0, ONE as int);
    assert(mag(s) * 0 == 0);
    assert(0 * mag(s) == 0);
    assert((0int) / (ONE as int) == 0) by {
        lemma_div_multiples_vanish(0, ONE as int);
    }
}

/// Multiplying by the unit coefficient returns the sample exactly.
pub proof fn lemma_fp_mul_one(s: int)
    ensures
        fp_mul_spec(s, ONE as int) == s,
{
    lemma_mul_is_commutative(mag(s) as int, ONE as int);
    lemma_div_multiples_vanish(mag(s) as int, ONE as int);
    assert((mag(s) * (ONE as int)) / (ONE as int) == mag(s));
}

/// Saturate a sample rate to the supported range.
pub open spec fn clamp_sr_spec(sr: int) -> int {
    if sr < SR_MIN as int {
        SR_MIN as int
    } else if sr > SR_MAX as int {
        SR_MAX as int
    } else {
        sr
    }
}

/// Saturate a sample rate to the supported range.
pub fn clamp_sr(sr: i64) -> (r: i64)
    ensures
        r == clamp_sr_spec(sr as int),
        SR_MIN <= r <= SR_MAX,
{
    if sr < SR_MIN {
        SR_MIN
    } else if sr > SR_MAX {
        SR_MAX
    } else {
        sr
    }
}

/// Divide a comb-bank sum by the number of combs, rounding toward zero.
pub open spec fn div8_spec(s: int) -> int {
    let m = mag(s) / 8;
    if s < 0 {
        -m
    } else {
        m
    }
}

/// Divide a comb-bank sum by the number of combs, rounding toward zero.
pub fn div8(s: i64) -> (r: i64)
    requires
        mag(s as int) <= 8 * SAMPLE_LIMIT as int,
    ensures
        r == div8_spec(s as int),
        mag(r as int) <= SAMPLE_LIMIT as int,
{
    proof {
        lemma_div_pos_is_pos(mag(s as int), 8);
        lemma_div_is_ordered(mag(s as int), 8 * SAMPLE_LIMIT as int, 8);
        lemma_div_multiples_vanish(SAMPLE_LIMIT as int, 8);
    }
    let sa: u64 = if s < 0 {
        (-s) as u64
    } else {
        s as u64
    };
    let m: i64 = (sa / 8) as i64;
    if s < 0 {
        -m
    } else {
        m
    }
}

/// Saturate a coefficient to `[0, ONE]`.
pub open spec fn clamp01_spec(x: int) -> int {
    if x < 0 {
        0
    } else if x > ONE as int {
        ONE as int
    } else {
        x
    }
}

/// Saturate a coefficient to `[0, ONE]`.
pub fn clamp01(x: i64) -> (r: i64)
    ensures
        r == clamp01_spec(x as int),
        0 <= r <= ONE,
{
    if x < 0 {
        0
    } else if x > ONE {
        ONE
    } else {
        x
    }
}

/// Saturate a sample to `[-SAMPLE_LIMIT, SAMPLE_LIMIT]`.
pub fn clamp(x: i64) -> (r: i64)
    ensures
        r == clamp_spec(x as int),
        mag(r as int) <= SAMPLE_LIMIT as int,
        mag(x as int) <= SAMPLE_LIMIT as int ==> r == x,
{
    if x > SAMPLE_LIMIT {
        SAMPLE_LIMIT
    } else if x < -SAMPLE_LIMIT {
        -SAMPLE_LIMIT
    } else {
        x
    }
}

/// Fixed-point product of a sample and a coefficient of magnitude at most
/// `ONE`, rounding toward zero.
pub fn fp_mul(s: i64, c: i64) -> (r: i64)
    requires
        -MUL_LIMIT <= s <= MUL_LIMIT,
        -ONE <= c <= ONE,
    ensures
        r == fp_mul_spec(s as int, c as int),
        mag(r as int) <= mag(s as int),
{
    proof {
        lemma_fp_mul_mag(s as int, c as int);
    }
    let sa: u64 = if s < 0 {
        (-s) as u64
    } else {
        s as u64
    };
    let ca: u64 = if c < 0 {
        (-c) as u64
    } else {
        c as u64
    };
    let p: u64 = (sa * ca) / 65536;
    assert(sa == mag(s as int) && ca == mag(c as int));
    assert(p == (mag(s as int) * mag(c as int)) / (ONE as int));
    let m: i64 = p as i64;
    if (s < 0) != (c < 0) {
        -m
    } else {
        m
    }
}

/// Delay length in fractional (Q16) samples of a nominal delay time at a
/// sample rate.  Callers keep both arguments in their documented ranges,
/// so the result is never negative and always fits comfortably below the
/// delay-line capacity bound.
pub fn samples_from_ms(ms: i64, sr: i64) -> (r: i64)
    requires
        0 < ms <= MAX_DELAY_MS,
        SR_MIN <= sr <= SR_MAX,
    ensures
        r == samples_spec(ms as int, sr as int),
        0 <= r < 0x1_0000_0000,
{
    proof {
        lemma_div_pos_is_pos(ms as int * sr as int, 65536000);
        lemma_mul_upper_bound(ms as int, MAX_DELAY_MS as int, sr as int, SR_MAX as int);
        lemma_div_is_ordered(
            ms as int * sr as int,
            MAX_DELAY_MS as int * SR_MAX as int,
            65536000,
        );
        assert((MAX_DELAY_MS as int * SR_MAX as int) / 65536000 < 0x1_0000_0000);
    }
    (((ms as u64) * (sr as u64)) / 65536000) as i64
}

/// Linear blend of two samples: `a` weighted by `w`, `b` by `ONE - w`,
/// saturated to the sample range.
pub fn fp_blend(a: i64, b: i64, w: i64) -> (r: i64)
    requires
        mag(a as int) <= SAMPLE_LIMIT as int,
        mag(b as int) <= SAMPLE_LIMIT as int,
        0 <= w <= ONE,
    ensures
        r == fp_blend_spec(a as int, b as int, w as int),
        mag(r as int) <= SAMPLE_LIMIT as int,
{
    let wa = fp_mul(a, w);
    let wb = fp_mul(b, ONE - w);
    clamp(wa + wb)
}

} // verus!
