//! A Schroeder all-pass diffusion filter: one delay line in a
//! feedback/feedforward pair with a fixed diffusion coefficient of
//! `0.5 * sqrt(2)`.  The line stores the recursive state `w`, with
//! `w[n] = x[n] + k * w[n-D]` and output `y[n] = w[n-D] - k * w[n]`, the
//! direct-form realization of the classical unity-magnitude all-pass.

use vstd::prelude::*;
use crate::fixed::{mag, ONE, SAMPLE_LIMIT, SR_MIN, SR_MAX, MAX_DELAY_MS, clamp, clamp_spec,
    fp_mul, fp_mul_spec, samples_from_ms, samples_spec};
use crate::delay::{DelayLine, DelayModel};
use crate::comb::{line_cap, line_cap_spec, clamp_delay, clamp_delay_spec};
use crate::delay::zero_line_spec;

verus! {

/// The diffusion coefficient `0.5 * sqrt(2)` in Q16.
pub const DIFFUSION: i64 = 46341;

/// Mathematical model of an all-pass unit: its immutable nominal delay,
/// the largest delay it is sized for, the delay-line state, and the
/// fractional delay length.
pub ghost struct AllPassModel {
    pub delay_ms: int,
    pub max_ms: int,
    pub line: DelayModel,
    pub delay_samples: int,
}

impl AllPassModel {
    pub open spec fn wf(self) -> bool {
        &&& self.line.wf()
        &&& 0 < self.delay_ms <= MAX_DELAY_MS as int
        &&& 0 < self.max_ms <= MAX_DELAY_MS as int
        &&& ONE as int <= self.delay_samples <= (self.line.len() - 2) * ONE as int
    }

    /// One sample of the all-pass: read the recursive state `D` samples
    /// back, form the new state `w = x + k * w[n-D]`, emit
    /// `y = w[n-D] - k * w`, and store `w`.
    pub open spec fn step_spec(self, x: int) -> (AllPassModel, int) {
        let wd = self.line.read_frac_spec(self.delay_samples);
        let w = clamp_spec(x + fp_mul_spec(wd, DIFFUSION as int));
        let y = clamp_spec(wd - fp_mul_spec(w, DIFFUSION as int));
        ((AllPassModel { line: self.line.write_spec(w), ..self }), y)
    }

    /// Zero signal state: empty delay history.
    pub open spec fn quiescent(self) -> bool {
        self.line.all_zero()
    }
}

/// The model of a freshly constructed (or re-prepared) all-pass: zero
/// signal state, sized for `max_ms` of delay at the sample rate.
pub open spec fn fresh_allpass_spec(delay_ms: int, max_ms: int, sr: int) -> AllPassModel {
    let cap = line_cap_spec(max_ms, sr);
    (AllPassModel {
        delay_ms,
        max_ms,
        line: zero_line_spec(cap),
        delay_samples: clamp_delay_spec(samples_spec(delay_ms, sr), cap),
    })
}

/// An all-pass diffusion unit plus its immutable nominal delay time.
pub struct AllPassUnit {
    delay_ms: i64,
    max_ms: i64,
    line: DelayLine,
    delay_samples: i64,
}

impl View for AllPassUnit {
    type V = AllPassModel;

    closed spec fn view(&self) -> AllPassModel {
        (AllPassModel {
            delay_ms: self.delay_ms as int,
            max_ms: self.max_ms as int,
            line: self.line@,
            delay_samples: self.delay_samples as int,
        })
    }
}

impl AllPassUnit {
    /// A quiescent all-pass for a nominal delay time, sized for `max_ms`
    /// of delay at this sample rate.
    pub fn new(delay_ms: i64, max_ms: i64, sample_rate: i64) -> (r: AllPassUnit)
        requires
            0 < delay_ms <= MAX_DELAY_MS,
            0 < max_ms <= MAX_DELAY_MS,
            SR_MIN <= sample_rate <= SR_MAX,
        ensures
            r@ == fresh_allpass_spec(delay_ms as int, max_ms as int, sample_rate as int),
            r@.wf(),
            r@.quiescent(),
    {
        let cap = line_cap(max_ms, sample_rate);
        let raw = samples_from_ms(delay_ms, sample_rate);
        AllPassUnit {
            delay_ms,
            max_ms,
            line: DelayLine::with_capacity(cap),
            delay_samples: clamp_delay(raw, cap),
        }
    }

    /// Resize the delay line for a new sample rate, re-derive the delay
    /// length, and clear the signal state.
    pub fn prepare(&mut self, sample_rate: i64)
        requires
            old(self)@.wf(),
            SR_MIN <= sample_rate <= SR_MAX,
        ensures
            final(self)@ == fresh_allpass_spec(
                old(self)@.delay_ms,
                old(self)@.max_ms,
                sample_rate as int,
            ),
            final(self)@.wf(),
            final(self)@.quiescent(),
    {
        let cap = line_cap(self.max_ms, sample_rate);
        let raw = samples_from_ms(self.delay_ms, sample_rate);
        self.line = DelayLine::with_capacity(cap);
        self.delay_samples = clamp_delay(raw, cap);
    }

    /// Process one sample.
    pub fn process(&mut self, x: i64) -> (r: i64)
        requires
            old(self)@.wf(),
            mag(x as int) <= SAMPLE_LIMIT as int,
        ensures
            final(self)@ == old(self)@.step_spec(x as int).0,
            r == old(self)@.step_spec(x as int).1,
            final(self)@.wf(),
            mag(r as int) <= SAMPLE_LIMIT as int,
    {
        let wd = self.line.read_frac(self.delay_samples);
        let w = clamp(x + fp_mul(wd, DIFFUSION));
        let y = clamp(wd - fp_mul(w, DIFFUSION));
        self.line.write(w);
        y
    }
}

} // verus!
