//! A triangle-wave low-frequency oscillator in Q16 fixed point.  The phase
//! lives in `[0, ONE)` (one period), advances by a per-sample increment
//! derived from the frequency, and wraps continuously; the value swings
//! over `[-ONE, ONE]`.

use vstd::prelude::*;
use vstd::arithmetic::div_mod::lemma_div_is_ordered;
use vstd::arithmetic::div_mod::lemma_div_multiples_vanish;
use vstd::arithmetic::div_mod::lemma_div_pos_is_pos;
use crate::fixed::{ONE, HALF, SR_MIN, SR_MAX};

verus! {

/// Mathematical model of the oscillator.
pub ghost struct LfoModel {
    pub phase: int,
    pub inc: int,
    pub sample_rate: int,
}

/// Triangle wave over one normalized period: rises from `-ONE` at phase 0
/// to `ONE` at phase `HALF`, then falls back toward `-ONE`.
pub open spec fn lfo_value_spec(phase: int) -> int {
    if phase < HALF as int {
        4 * phase - ONE as int
    } else {
        3 * (ONE as int) - 4 * phase
    }
}

/// Per-sample phase increment for a frequency: `freq / sample_rate` of a
/// period, clamped to `[0, ONE]`.
pub open spec fn lfo_inc_spec(freq: int, sr: int) -> int {
    if freq <= 0 {
        0
    } else if freq > sr {
        ONE as int
    } else {
        (freq * ONE as int) / sr
    }
}

impl LfoModel {
    pub open spec fn wf(self) -> bool {
        &&& 0 <= self.phase < ONE as int
        &&& 0 <= self.inc <= ONE as int
        &&& SR_MIN as int <= self.sample_rate <= SR_MAX as int
    }

    /// The state one sample later: the phase advances and wraps.
    pub open spec fn advance_spec(self) -> LfoModel {
        let p = self.phase + self.inc;
        (LfoModel {
            phase: if p >= ONE as int {
                p - ONE as int
            } else {
                p
            },
            inc: self.inc,
            sample_rate: self.sample_rate,
        })
    }
}

/// A triangle LFO: phase, per-sample increment, and the sample rate the
/// increment was derived from.
pub struct Lfo {
    phase: i64,
    inc: i64,
    sample_rate: i64,
}

impl View for Lfo {
    type V = LfoModel;

    closed spec fn view(&self) -> LfoModel {
        (LfoModel {
            phase: self.phase as int,
            inc: self.inc as int,
            sample_rate: self.sample_rate as int,
        })
    }
}

impl Lfo {
    /// An oscillator at phase zero running at `freq` Q16 Hz.
    pub fn new(freq: i64, sample_rate: i64) -> (r: Lfo)
        requires
            SR_MIN <= sample_rate <= SR_MAX,
        ensures
            r@ == (LfoModel {
                phase: 0,
                inc: lfo_inc_spec(freq as int, sample_rate as int),
                sample_rate: sample_rate as int,
            }),
            r@.wf(),
    {
        let mut lfo = Lfo { phase: 0, inc: 0, sample_rate };
        lfo.set_freq(freq);
        lfo
    }

    /// Change the frequency; negative frequencies clamp to zero and
    /// frequencies above the sample rate clamp to one period per sample.
    pub fn set_freq(&mut self, freq: i64)
        requires
            old(self)@.wf(),
        ensures
            final(self)@.wf(),
            final(self)@ == (LfoModel {
                inc: lfo_inc_spec(freq as int, old(self)@.sample_rate),
                ..old(self)@
            }),
    {
        if freq <= 0 {
            self.inc = 0;
        } else if freq > self.sample_rate {
            self.inc = ONE;
        } else {
            proof {
                lemma_div_pos_is_pos(freq as int * ONE as int, self.sample_rate as int);
                lemma_div_is_ordered(
                    freq as int * ONE as int,
                    self.sample_rate as int * ONE as int,
                    self.sample_rate as int,
                );
                lemma_div_multiples_vanish(ONE as int, self.sample_rate as int);
            }
            self.inc = (((freq as u64) * 65536) / (self.sample_rate as u64)) as i64;
        }
    }

    /// The current triangle value, in `[-ONE, ONE]`.
    pub fn value(&self) -> (r: i64)
        requires
            self@.wf(),
        ensures
            r == lfo_value_spec(self@.phase),
            -ONE <= r <= ONE,
    {
        if self.phase < HALF {
            4 * self.phase - ONE
        } else {
            3 * ONE - 4 * self.phase
        }
    }

    /// Advance the phase by one sample, wrapping at one period.
    pub fn advance(&mut self)
        requires
            old(self)@.wf(),
        ensures
            final(self)@ == old(self)@.advance_spec(),
            final(self)@.wf(),
    {
        let p = self.phase + self.inc;
        self.phase = if p >= ONE {
            p - ONE
        } else {
            p
        };
    }
}

} // verus!
