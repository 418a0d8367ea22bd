//! A modulated all-pass: the same difference equation as the fixed
//! all-pass, but the read offset into its delay line oscillates around a
//! base length, `offset = base + depth * lfo.value()`, driven by a
//! triangle LFO.  The line is sized so the offset stays readable at every
//! LFO value.

use vstd::prelude::*;
use vstd::arithmetic::div_mod::lemma_div_pos_is_pos;
use vstd::arithmetic::div_mod::lemma_fundamental_div_mod;
use vstd::arithmetic::div_mod::lemma_mod_bound;
use crate::fixed::{mag, ONE, SAMPLE_LIMIT, SR_MIN, SR_MAX, MAX_DELAY_MS, clamp, clamp_spec,
    fp_mul, fp_mul_spec, samples_from_ms, samples_spec};
use crate::delay::{DelayLine, DelayModel, zero_line_spec};
use crate::allpass::DIFFUSION;
use crate::lfo::{Lfo, LfoModel, lfo_value_spec, lfo_inc_spec};

verus! {

/// Modulation depth in fractional samples for a depth time at a sample
/// rate.
pub open spec fn mod_depth_spec(depth_ms: int, sr: int) -> int {
    samples_spec(depth_ms, sr)
}

/// Base delay length in fractional samples: the nominal base, raised when
/// necessary so that the offset can never fall below one sample.
pub open spec fn mod_base_spec(base_ms: int, depth_ms: int, sr: int) -> int {
    let b = samples_spec(base_ms, sr);
    let d = mod_depth_spec(depth_ms, sr);
    if b < ONE as int + d {
        ONE as int + d
    } else {
        b
    }
}

/// Ring-buffer length sized for the base plus the full modulation swing,
/// with slack for interpolation.
pub open spec fn mod_cap_spec(base_ms: int, depth_ms: int, sr: int) -> int {
    (mod_base_spec(base_ms, depth_ms, sr) + mod_depth_spec(depth_ms, sr)) / (ONE as int) + 4
}

/// Mathematical model of the modulated all-pass.
pub ghost struct ModAllPassModel {
    pub base_ms: int,
    pub depth_ms: int,
    pub lfo_freq: int,
    pub line: DelayModel,
    pub base_samples: int,
    pub depth_samples: int,
    pub lfo: LfoModel,
}

impl ModAllPassModel {
    pub open spec fn wf(self) -> bool {
        &&& self.line.wf()
        &&& self.lfo.wf()
        &&& 0 < self.base_ms <= MAX_DELAY_MS as int
        &&& 0 < self.depth_ms <= self.base_ms
        &&& 0 <= self.depth_samples
        &&& ONE as int + self.depth_samples <= self.base_samples
        &&& self.base_samples + self.depth_samples <= (self.line.len() - 2) * ONE as int
    }

    /// The oscillating read offset for the current LFO phase.
    pub open spec fn offset_spec(self) -> int {
        self.base_samples + fp_mul_spec(self.depth_samples, lfo_value_spec(self.lfo.phase))
    }

    /// One sample: read the recursive state at the oscillating offset,
    /// form `w = x + k * w[back]`, emit `y = w[back] - k * w`, store `w`,
    /// and advance the LFO phase.
    pub open spec fn step_spec(self, x: int) -> (ModAllPassModel, int) {
        let wd = self.line.read_frac_spec(self.offset_spec());
        let w = clamp_spec(x + fp_mul_spec(wd, DIFFUSION as int));
        let y = clamp_spec(wd - fp_mul_spec(w, DIFFUSION as int));
        ((ModAllPassModel { line: self.line.write_spec(w), lfo: self.lfo.advance_spec(), ..self }),
        y)
    }

    /// Zero signal state: empty delay history (the LFO phase is control
    /// state, not signal state).
    pub open spec fn quiescent(self) -> bool {
        self.line.all_zero()
    }
}

/// The model of a freshly constructed (or re-prepared) modulated
/// all-pass: zero signal state, layout derived for the sample rate, the
/// LFO restarted at phase zero.
pub open spec fn fresh_modallpass_spec(
    base_ms: int,
    depth_ms: int,
    lfo_freq: int,
    sr: int,
) -> ModAllPassModel {
    (ModAllPassModel {
        base_ms,
        depth_ms,
        lfo_freq,
        line: zero_line_spec(mod_cap_spec(base_ms, depth_ms, sr)),
        base_samples: mod_base_spec(base_ms, depth_ms, sr),
        depth_samples: mod_depth_spec(depth_ms, sr),
        lfo: (LfoModel { phase: 0, inc: lfo_inc_spec(lfo_freq, sr), sample_rate: sr }),
    })
}

/// A modulated all-pass with its LFO.
pub struct ModAllPassUnit {
    base_ms: i64,
    depth_ms: i64,
    lfo_freq: i64,
    line: DelayLine,
    base_samples: i64,
    depth_samples: i64,
    lfo: Lfo,
}

impl View for ModAllPassUnit {
    type V = ModAllPassModel;

    closed spec fn view(&self) -> ModAllPassModel {
        (ModAllPassModel {
            base_ms: self.base_ms as int,
            depth_ms: self.depth_ms as int,
            lfo_freq: self.lfo_freq as int,
            line: self.line@,
            base_samples: self.base_samples as int,
            depth_samples: self.depth_samples as int,
            lfo: self.lfo@,
        })
    }
}

/// Compute the line, base and depth for a sample rate; shared by
/// construction and re-preparation.
fn mod_layout(base_ms: i64, depth_ms: i64, sample_rate: i64) -> (r: (DelayLine, i64, i64))
    requires
        0 < base_ms <= MAX_DELAY_MS,
        0 < depth_ms <= base_ms,
        SR_MIN <= sample_rate <= SR_MAX,
    ensures
        r.0@.wf(),
        r.0@.all_zero(),
        r.0@ == zero_line_spec(mod_cap_spec(base_ms as int, depth_ms as int, sample_rate as int)),
        r.0@.len() == mod_cap_spec(base_ms as int, depth_ms as int, sample_rate as int),
        r.1 == mod_base_spec(base_ms as int, depth_ms as int, sample_rate as int),
        r.2 == mod_depth_spec(depth_ms as int, sample_rate as int),
        0 <= r.2,
        ONE as int + r.2 <= r.1,
        r.1 + r.2 <= (r.0@.len() - 2) * ONE as int,
{
    let braw = samples_from_ms(base_ms, sample_rate);
    let depth = samples_from_ms(depth_ms, sample_rate);
    let base = if braw < ONE + depth {
        ONE + depth
    } else {
        braw
    };
    let span = base + depth;
    proof {
        lemma_div_pos_is_pos(span as int, ONE as int);
        lemma_fundamental_div_mod(span as int, ONE as int);
        lemma_mod_bound(span as int, ONE as int);
        assert(span as int / (ONE as int) < 0x4_0000_0000) by {
            vstd::arithmetic::div_mod::lemma_div_is_ordered(
                span as int,
                0x2_0001_fffe,
                ONE as int,
            );
        }
    }
    let cap = (((span as u64) / 65536) as usize) + 4;
    let line = DelayLine::with_capacity(cap);
    (line, base, depth)
}

impl ModAllPassUnit {
    /// A quiescent modulated all-pass: base delay and modulation depth in
    /// Q16 milliseconds, triangle LFO starting at phase zero at `lfo_freq`
    /// Q16 Hz.
    pub fn new(base_ms: i64, depth_ms: i64, lfo_freq: i64, sample_rate: i64) -> (r: ModAllPassUnit)
        requires
            0 < base_ms <= MAX_DELAY_MS,
            0 < depth_ms <= base_ms,
            SR_MIN <= sample_rate <= SR_MAX,
        ensures
            r@ == fresh_modallpass_spec(
                base_ms as int,
                depth_ms as int,
                lfo_freq as int,
                sample_rate as int,
            ),
            r@.wf(),
            r@.quiescent(),
    {
        let (line, base, depth) = mod_layout(base_ms, depth_ms, sample_rate);
        ModAllPassUnit {
            base_ms,
            depth_ms,
            lfo_freq,
            line,
            base_samples: base,
            depth_samples: depth,
            lfo: Lfo::new(lfo_freq, sample_rate),
        }
    }

    /// Resize the delay line for a new sample rate, re-derive the base and
    /// depth, clear the signal state, and restart the LFO at phase zero
    /// with the current frequency.
    pub fn prepare(&mut self, sample_rate: i64)
        requires
            old(self)@.wf(),
            SR_MIN <= sample_rate <= SR_MAX,
        ensures
            final(self)@ == fresh_modallpass_spec(
                old(self)@.base_ms,
                old(self)@.depth_ms,
                old(self)@.lfo_freq,
                sample_rate as int,
            ),
            final(self)@.wf(),
            final(self)@.quiescent(),
    {
        let (line, base, depth) = mod_layout(self.base_ms, self.depth_ms, sample_rate);
        self.line = line;
        self.base_samples = base;
        self.depth_samples = depth;
        self.lfo = Lfo::new(self.lfo_freq, sample_rate);
    }

    /// Change the LFO frequency; the phase is kept, so the waveform stays
    /// continuous.
    pub fn set_lfo_freq(&mut self, freq: i64)
        requires
            old(self)@.wf(),
        ensures
            final(self)@.wf(),
            final(self)@ == (ModAllPassModel {
                lfo_freq: freq as int,
                lfo: (LfoModel {
                    inc: lfo_inc_spec(freq as int, old(self)@.lfo.sample_rate),
                    ..old(self)@.lfo
                }),
                ..old(self)@
            }),
    {
        self.lfo_freq = freq;
        self.lfo.set_freq(freq);
    }

    /// Process one sample.
    pub fn process(&mut self, x: i64) -> (r: i64)
        requires
            old(self)@.wf(),
            mag(x as int) <= SAMPLE_LIMIT as int,
        ensures
            final(self)@ == old(self)@.step_spec(x as int).0,
            r == old(self)@.step_spec(x as int).1,
            final(self)@.wf(),
            mag(r as int) <= SAMPLE_LIMIT as int,
    {
        let v = self.lfo.value();
        let swing = fp_mul(self.depth_samples, v);
        let off = self.base_samples + swing;
        let wd = self.line.read_frac(off);
        let w = clamp(x + fp_mul(wd, DIFFUSION));
        let y = clamp(wd - fp_mul(w, DIFFUSION));
        self.line.write(w);
        self.lfo.advance();
        y
    }
}

} // verus!
