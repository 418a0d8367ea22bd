//! A lowpass-feedback comb filter: one delay line in a feedback loop with a
//! one-pole damping stage, the classical building block of the comb bank.
//! The feedback gain is always derived from the RT60 target through the
//! standard decay relation `g = 10^(-3 * delay_ms / rt60_ms)`, computed
//! here in fixed point by binary exponentiation of the per-step decay
//! constant `10^(-1/4096)`; the derived gain lies strictly in `(0, ONE)`
//! for every positive RT60.

use vstd::prelude::*;
use vstd::arithmetic::div_mod::lemma_div_is_ordered;
use vstd::arithmetic::div_mod::lemma_div_multiples_vanish;
use vstd::arithmetic::div_mod::lemma_div_pos_is_pos;
use vstd::arithmetic::mul::lemma_mul_upper_bound;
use crate::fixed::{
    mag, ONE, HALF, SAMPLE_LIMIT, SR_MIN, SR_MAX, MAX_DELAY_MS, clamp, clamp_spec, clamp01,
    clamp01_spec, fp_mul, fp_mul_spec, samples_from_ms, samples_spec,
};
use crate::delay::{DelayLine, DelayModel, MAX_LEN, zero_line_spec};

verus! {

/// `10^(-1/4096)` in Q16: the decay accrued per exponent step, so that
/// raising it to `3 * delay_ms / rt60_ms` decades (in steps of `1/4096`)
/// realizes the RT60 gain relation.
pub const DECAY_STEP: i64 = 65499;

/// Exponent resolution: the RT60 exponent `3 * delay_ms / rt60_ms` is
/// carried in units of `1/4096`.
pub const EXP_UNIT: i64 = 4096;

/// Fixed-point product of two coefficients, rounded toward zero but kept
/// at least one quantum above zero so that repeated decay never collapses
/// to an exact zero gain.
pub open spec fn coeff_mul_spec(a: int, b: int) -> int {
    let p = (a * b) / (ONE as int);
    if p < 1 {
        1
    } else {
        p
    }
}

/// Binary exponentiation of a coefficient: `pow_spec(b, e)` is `b^e` under
/// `coeff_mul_spec`, with `pow_spec(b, 0) == ONE`.
pub open spec fn pow_spec(b: int, e: nat) -> int
    decreases e,
{
    if e == 0 {
        ONE as int
    } else {
        let h = pow_spec(coeff_mul_spec(b, b), e / 2);
        if e % 2 == 1 {
            coeff_mul_spec(h, b)
        } else {
            h
        }
    }
}

/// The RT60 exponent in `EXP_UNIT` steps: `3 * delay_ms / rt60_ms`, with
/// the RT60 clamped to at least one millisecond and the exponent to at
/// least one step, so a gain of exactly one is never produced.
pub open spec fn decay_exp_spec(delay_ms: int, rt60_ms: int) -> int {
    let r = if rt60_ms < ONE as int {
        ONE as int
    } else {
        rt60_ms
    };
    let e = (3 * delay_ms * EXP_UNIT as int) / r;
    if e < 1 {
        1
    } else {
        e
    }
}

/// The comb feedback gain for a nominal delay and an RT60 target:
/// `DECAY_STEP` raised to the decay exponent.
pub open spec fn comb_gain_spec(delay_ms: int, rt60_ms: int) -> int {
    pow_spec(DECAY_STEP as int, decay_exp_spec(delay_ms, rt60_ms) as nat)
}

/// Fixed-point coefficient product, at least one quantum.
fn coeff_mul(a: i64, b: i64) -> (r: i64)
    requires
        1 <= a <= ONE,
        1 <= b <= ONE,
    ensures
        r == coeff_mul_spec(a as int, b as int),
        1 <= r <= ONE,
        b <= ONE - 1 ==> r <= ONE - 1,
{
    proof {
        lemma_div_pos_is_pos(a as int * b as int, ONE as int);
        lemma_mul_upper_bound(a as int, ONE as int, b as int, ONE as int);
        lemma_div_is_ordered(a as int * b as int, ONE as int * ONE as int, ONE as int);
        lemma_div_multiples_vanish(ONE as int, ONE as int);
        if b <= ONE - 1 {
            lemma_mul_upper_bound(a as int, ONE as int, b as int, ONE as int - 1);
            lemma_div_is_ordered(a as int * b as int, ONE as int * (ONE as int - 1), ONE as int);
            lemma_div_multiples_vanish(ONE as int - 1, ONE as int);
        }
    }
    let p = (((a as u64) * (b as u64)) / 65536) as i64;
    if p < 1 {
        1
    } else {
        p
    }
}

/// `b^e` by binary exponentiation; for a base strictly below one, any
/// positive exponent keeps the result strictly below one.
fn pow_coeff(b: i64, e: u64) -> (r: i64)
    requires
        1 <= b <= ONE - 1,
    ensures
        r == pow_spec(b as int, e as nat),
        1 <= r <= ONE,
        e >= 1 ==> r <= ONE - 1,
    decreases e,
{
    if e == 0 {
        ONE
    } else {
        let sq = coeff_mul(b, b);
        let h = pow_coeff(sq, e / 2);
        if e % 2 == 1 {
            coeff_mul(h, b)
        } else {
            h
        }
    }
}

/// The comb feedback gain for an RT60 target, strictly between zero and
/// one for every RT60 (non-positive targets clamp to one millisecond).
pub fn comb_gain(delay_ms: i64, rt60_ms: i64) -> (r: i64)
    requires
        0 < delay_ms <= MAX_DELAY_MS,
    ensures
        r == comb_gain_spec(delay_ms as int, rt60_ms as int),
        0 < r < ONE,
{
    let rt = if rt60_ms < ONE {
        ONE
    } else {
        rt60_ms
    };
    let num: u64 = (3 * (delay_ms as u64)) * 4096;
    let e0: u64 = num / (rt as u64);
    let e: u64 = if e0 < 1 {
        1
    } else {
        e0
    };
    pow_coeff(DECAY_STEP, e)
}

/// Ring-buffer length for a unit sized to hold `max_ms` of delay at the
/// given sample rate, with slack for interpolation.
pub open spec fn line_cap_spec(max_ms: int, sr: int) -> int {
    samples_spec(max_ms, sr) / (ONE as int) + 4
}

/// A fractional delay length clamped to what a line of length `cap` can
/// serve: at least one sample, at most `cap - 2` samples.
pub open spec fn clamp_delay_spec(raw: int, cap: int) -> int {
    if raw < ONE as int {
        ONE as int
    } else if raw > (cap - 2) * ONE as int {
        (cap - 2) * ONE as int
    } else {
        raw
    }
}

/// Ring-buffer length for a unit sized to hold `max_ms` of delay.
pub fn line_cap(max_ms: i64, sr: i64) -> (r: usize)
    requires
        0 < max_ms <= MAX_DELAY_MS,
        SR_MIN <= sr <= SR_MAX,
    ensures
        r == line_cap_spec(max_ms as int, sr as int),
        4 <= r < MAX_LEN,
{
    let s = samples_from_ms(max_ms, sr);
    proof {
        lemma_div_pos_is_pos(s as int, ONE as int);
        lemma_div_is_ordered(s as int, 0xffff_ffff, ONE as int);
    }
    (((s as u64) / 65536) as usize) + 4
}

/// A fractional delay length clamped to what a line of length `cap` can
/// serve.
pub fn clamp_delay(raw: i64, cap: usize) -> (r: i64)
    requires
        0 <= raw,
        4 <= cap < MAX_LEN,
    ensures
        r == clamp_delay_spec(raw as int, cap as int),
        ONE <= r <= (cap - 2) * ONE,
{
    let top = ((cap - 2) as i64) * ONE;
    if raw < ONE {
        ONE
    } else if raw > top {
        top
    } else {
        raw
    }
}

/// Mathematical model of a comb unit: its immutable nominal delay, the
/// delay-line state, the fractional delay length, the feedback gain, the
/// damping coefficient, and the one-pole lowpass state.
pub ghost struct CombModel {
    pub delay_ms: int,
    pub line: DelayModel,
    pub delay_samples: int,
    pub gain: int,
    pub damp: int,
    pub lowpass: int,
}

impl CombModel {
    pub open spec fn wf(self) -> bool {
        &&& self.line.wf()
        &&& 0 < self.delay_ms <= MAX_DELAY_MS as int
        &&& ONE as int <= self.delay_samples <= (self.line.len() - 2) * ONE as int
        &&& 0 < self.gain < ONE as int
        &&& 0 <= self.damp <= ONE as int
        &&& mag(self.lowpass) <= SAMPLE_LIMIT as int
    }

    /// One sample of the comb: read the delayed sample, damp it through the
    /// one-pole lowpass, scale by the feedback gain, mix with the input,
    /// write the mix back, and return it.
    pub open spec fn step_spec(self, x: int) -> (CombModel, int) {
        let delayed = self.line.read_frac_spec(self.delay_samples);
        let lp = clamp_spec(
            fp_mul_spec(delayed, ONE as int - self.damp) + fp_mul_spec(self.lowpass, self.damp),
        );
        let out = clamp_spec(x + fp_mul_spec(lp, self.gain));
        ((CombModel { line: self.line.write_spec(out), lowpass: lp, ..self }), out)
    }

    /// Zero signal state: empty delay history and a settled lowpass.
    pub open spec fn quiescent(self) -> bool {
        self.line.all_zero() && self.lowpass == 0
    }
}

/// The model of a freshly constructed comb: zero signal state, a
/// provisional gain of one half, no damping, sized for the largest
/// supported delay.
pub open spec fn fresh_comb_spec(delay_ms: int, sr: int) -> CombModel {
    let cap = line_cap_spec(MAX_DELAY_MS as int, sr);
    (CombModel {
        delay_ms,
        line: zero_line_spec(cap),
        delay_samples: clamp_delay_spec(samples_spec(delay_ms, sr), cap),
        gain: HALF as int,
        damp: 0,
        lowpass: 0,
    })
}

/// The model of a re-prepared comb: like a fresh one, but with the gain
/// derived from the RT60 target and the damping kept.
pub open spec fn prepared_comb_spec(c: CombModel, sr: int, rt60_ms: int) -> CombModel {
    (CombModel {
        gain: comb_gain_spec(c.delay_ms, rt60_ms),
        damp: c.damp,
        ..fresh_comb_spec(c.delay_ms, sr)
    })
}

/// A lowpass-feedback comb filter plus its immutable nominal delay time.
pub struct CombUnit {
    delay_ms: i64,
    line: DelayLine,
    delay_samples: i64,
    gain: i64,
    damp: i64,
    lowpass: i64,
}

impl View for CombUnit {
    type V = CombModel;

    closed spec fn view(&self) -> CombModel {
        (CombModel {
            delay_ms: self.delay_ms as int,
            line: self.line@,
            delay_samples: self.delay_samples as int,
            gain: self.gain as int,
            damp: self.damp as int,
            lowpass: self.lowpass as int,
        })
    }
}

impl CombUnit {
    /// A quiescent comb for a nominal delay time, sized for the largest
    /// supported delay at this sample rate.  The gain holds a provisional
    /// one half until `prepare` derives it from an RT60 target.
    pub fn new(delay_ms: i64, sample_rate: i64) -> (r: CombUnit)
        requires
            0 < delay_ms <= MAX_DELAY_MS,
            SR_MIN <= sample_rate <= SR_MAX,
        ensures
            r@ == fresh_comb_spec(delay_ms as int, sample_rate as int),
            r@.wf(),
            r@.quiescent(),
    {
        let cap = line_cap(MAX_DELAY_MS, sample_rate);
        let raw = samples_from_ms(delay_ms, sample_rate);
        CombUnit {
            delay_ms,
            line: DelayLine::with_capacity(cap),
            delay_samples: clamp_delay(raw, cap),
            gain: HALF,
            damp: 0,
            lowpass: 0,
        }
    }

    /// Resize the delay line for a new sample rate, re-derive the delay
    /// length and the RT60 gain, and clear the signal state.  Damping is
    /// kept.
    pub fn prepare(&mut self, sample_rate: i64, rt60_ms: i64)
        requires
            old(self)@.wf(),
            SR_MIN <= sample_rate <= SR_MAX,
        ensures
            final(self)@ == prepared_comb_spec(old(self)@, sample_rate as int, rt60_ms as int),
            final(self)@.wf(),
            final(self)@.quiescent(),
    {
        let cap = line_cap(MAX_DELAY_MS, sample_rate);
        let raw = samples_from_ms(self.delay_ms, sample_rate);
        self.line = DelayLine::with_capacity(cap);
        self.delay_samples = clamp_delay(raw, cap);
        self.gain = comb_gain(self.delay_ms, rt60_ms);
        self.lowpass = 0;
    }

    /// Set the one-pole damping coefficient, clamped to `[0, ONE]`.
    pub fn set_dampening(&mut self, dampening: i64)
        requires
            old(self)@.wf(),
        ensures
            final(self)@ == (CombModel { damp: clamp01_spec(dampening as int), ..old(self)@ }),
            final(self)@.wf(),
    {
        self.damp = clamp01(dampening);
    }

    /// Re-derive the feedback gain from a new RT60 target; nothing else
    /// changes.  The gain is never set independently of the unit's own
    /// nominal delay.
    pub fn set_gain_from_rt60(&mut self, rt60_ms: i64)
        requires
            old(self)@.wf(),
        ensures
            final(self)@ == (CombModel {
                gain: comb_gain_spec(old(self)@.delay_ms, rt60_ms as int),
                ..old(self)@
            }),
            final(self)@.wf(),
    {
        self.gain = comb_gain(self.delay_ms, rt60_ms);
    }

    /// Process one sample.
    pub fn process(&mut self, x: i64) -> (r: i64)
        requires
            old(self)@.wf(),
            mag(x as int) <= SAMPLE_LIMIT as int,
        ensures
            final(self)@ == old(self)@.step_spec(x as int).0,
            r == old(self)@.step_spec(x as int).1,
            final(self)@.wf(),
            mag(r as int) <= SAMPLE_LIMIT as int,
    {
        let delayed = self.line.read_frac(self.delay_samples);
        let lp = clamp(fp_mul(delayed, ONE - self.damp) + fp_mul(self.lowpass, self.damp));
        self.lowpass = lp;
        let out = clamp(x + fp_mul(lp, self.gain));
        self.line.write(out);
        out
    }
}

} // verus!
