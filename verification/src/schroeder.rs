//! The reverberation engine: a fixed bank of eight parallel comb filters
//! framed by serial all-pass diffusion chains, an optional modulated
//! all-pass, and a dry/wet blend.  One call converts one input sample into
//! one output sample; every step is pinned by the `step_spec` model.

use vstd::prelude::*;
use crate::fixed::{mag, ONE, HALF, SAMPLE_LIMIT, clamp01, clamp01_spec, clamp_sr, clamp_sr_spec,
    div8, div8_spec, fp_blend, fp_blend_spec};
use crate::comb::{CombUnit, CombModel, comb_gain_spec, fresh_comb_spec, prepared_comb_spec};
use crate::allpass::{AllPassUnit, AllPassModel, fresh_allpass_spec};
use crate::modallpass::{ModAllPassUnit, ModAllPassModel, fresh_modallpass_spec};
use crate::lfo::{LfoModel, lfo_inc_spec};

verus! {

/// Nominal comb delay times, Q16 milliseconds (29.7 ms .. 48.5 ms).
pub const COMB_MS_1: i64 = 1946419;

pub const COMB_MS_2: i64 = 2057830;

pub const COMB_MS_3: i64 = 2110259;

pub const COMB_MS_4: i64 = 2333082;

pub const COMB_MS_5: i64 = 2496922;

pub const COMB_MS_6: i64 = 2680422;

pub const COMB_MS_7: i64 = 2988442;

pub const COMB_MS_8: i64 = 3178496;

/// Pre-diffusion all-pass delay times, Q16 milliseconds (1 ms, 2 ms).
pub const PRE_APF_MS_1: i64 = 65536;

pub const PRE_APF_MS_2: i64 = 131072;

/// Post-diffusion all-pass delay times, Q16 milliseconds (2.3 ms, 3.7 ms).
pub const APF_MS_1: i64 = 150733;

pub const APF_MS_2: i64 = 242483;

/// Largest all-pass delay, Q16 milliseconds (20 ms).
pub const APF_MAX_MS: i64 = 1310720;

/// Modulated all-pass base delay, Q16 milliseconds (30 ms).
pub const MOD_BASE_MS: i64 = 1966080;

/// Modulated all-pass modulation depth, Q16 milliseconds (1 ms).
pub const MOD_DEPTH_MS: i64 = 65536;

/// Modulated all-pass LFO rate, Q16 Hz (10 Hz).
pub const MOD_LFO_FREQ_HZ: i64 = 655360;

/// Mathematical model of the whole engine.
pub ghost struct EngineModel {
    pub pre1: AllPassModel,
    pub pre2: AllPassModel,
    pub c1: CombModel,
    pub c2: CombModel,
    pub c3: CombModel,
    pub c4: CombModel,
    pub c5: CombModel,
    pub c6: CombModel,
    pub c7: CombModel,
    pub c8: CombModel,
    pub post1: AllPassModel,
    pub post2: AllPassModel,
    pub mod_ap: ModAllPassModel,
    pub mod_enabled: bool,
    pub dry_wet_mix: int,
}

impl EngineModel {
    pub open spec fn wf(self) -> bool {
        &&& self.pre1.wf()
        &&& self.pre2.wf()
        &&& self.c1.wf()
        &&& self.c2.wf()
        &&& self.c3.wf()
        &&& self.c4.wf()
        &&& self.c5.wf()
        &&& self.c6.wf()
        &&& self.c7.wf()
        &&& self.c8.wf()
        &&& self.post1.wf()
        &&& self.post2.wf()
        &&& self.mod_ap.wf()
        &&& 0 <= self.dry_wet_mix <= ONE as int
    }

    /// Zero signal state in every filter.
    pub open spec fn quiescent(self) -> bool {
        &&& self.pre1.quiescent()
        &&& self.pre2.quiescent()
        &&& self.c1.quiescent()
        &&& self.c2.quiescent()
        &&& self.c3.quiescent()
        &&& self.c4.quiescent()
        &&& self.c5.quiescent()
        &&& self.c6.quiescent()
        &&& self.c7.quiescent()
        &&& self.c8.quiescent()
        &&& self.post1.quiescent()
        &&& self.post2.quiescent()
        &&& self.mod_ap.quiescent()
    }

    /// Everything up to the dry/wet blend: the input runs serially through
    /// the pre-diffusion chain, in parallel through the comb bank (summed
    /// with alternating polarity and normalized by the bank size), through
    /// the modulated all-pass when enabled, and serially through the
    /// post-diffusion chain.  Returns the updated model and the wet sample.
    pub open spec fn wet_step_spec(self, x: int) -> (EngineModel, int) {
        let sp1 = self.pre1.step_spec(x);
        let sp2 = self.pre2.step_spec(sp1.1);
        let s1 = self.c1.step_spec(sp2.1);
        let s2 = self.c2.step_spec(sp2.1);
        let s3 = self.c3.step_spec(sp2.1);
        let s4 = self.c4.step_spec(sp2.1);
        let s5 = self.c5.step_spec(sp2.1);
        let s6 = self.c6.step_spec(sp2.1);
        let s7 = self.c7.step_spec(sp2.1);
        let s8 = self.c8.step_spec(sp2.1);
        let bank = div8_spec(-s1.1 + s2.1 - s3.1 + s4.1 - s5.1 + s6.1 - s7.1 + s8.1);
        let sm = if self.mod_enabled {
            self.mod_ap.step_spec(bank)
        } else {
            (self.mod_ap, bank)
        };
        let sq1 = self.post1.step_spec(sm.1);
        let sq2 = self.post2.step_spec(sq1.1);
        ((EngineModel {
            pre1: sp1.0,
            pre2: sp2.0,
            c1: s1.0,
            c2: s2.0,
            c3: s3.0,
            c4: s4.0,
            c5: s5.0,
            c6: s6.0,
            c7: s7.0,
            c8: s8.0,
            post1: sq1.0,
            post2: sq2.0,
            mod_ap: sm.0,
            ..self
        }), sq2.1)
    }

    /// One full sample: the wet path, then the linear dry/wet blend with
    /// the original input.
    pub open spec fn step_spec(self, x: int) -> (EngineModel, int) {
        let sw = self.wet_step_spec(x);
        (sw.0, fp_blend_spec(sw.1, x, self.dry_wet_mix))
    }
}

/// The model of a freshly constructed engine at a (clamped) sample rate:
/// every filter quiescent, modulation off, mix one half, comb gains at
/// their provisional value until `prepare` derives them.
pub open spec fn fresh_engine_spec(sr: int) -> EngineModel {
    (EngineModel {
        pre1: fresh_allpass_spec(PRE_APF_MS_1 as int, APF_MAX_MS as int, sr),
        pre2: fresh_allpass_spec(PRE_APF_MS_2 as int, APF_MAX_MS as int, sr),
        c1: fresh_comb_spec(COMB_MS_1 as int, sr),
        c2: fresh_comb_spec(COMB_MS_2 as int, sr),
        c3: fresh_comb_spec(COMB_MS_3 as int, sr),
        c4: fresh_comb_spec(COMB_MS_4 as int, sr),
        c5: fresh_comb_spec(COMB_MS_5 as int, sr),
        c6: fresh_comb_spec(COMB_MS_6 as int, sr),
        c7: fresh_comb_spec(COMB_MS_7 as int, sr),
        c8: fresh_comb_spec(COMB_MS_8 as int, sr),
        post1: fresh_allpass_spec(APF_MS_1 as int, APF_MAX_MS as int, sr),
        post2: fresh_allpass_spec(APF_MS_2 as int, APF_MAX_MS as int, sr),
        mod_ap: fresh_modallpass_spec(
            MOD_BASE_MS as int,
            MOD_DEPTH_MS as int,
            MOD_LFO_FREQ_HZ as int,
            sr,
        ),
        mod_enabled: false,
        dry_wet_mix: HALF as int,
    })
}

/// The model after `prepare`: every delay line re-sized and cleared for
/// the (clamped) sample rate, every comb gain re-derived from the RT60
/// target, damping, modulation gate, LFO frequency and mix kept, the LFO
/// restarted at phase zero.
pub open spec fn prepare_spec(e: EngineModel, sr: int, rt60_ms: int) -> EngineModel {
    (EngineModel {
        pre1: fresh_allpass_spec(e.pre1.delay_ms, e.pre1.max_ms, sr),
        pre2: fresh_allpass_spec(e.pre2.delay_ms, e.pre2.max_ms, sr),
        c1: prepared_comb_spec(e.c1, sr, rt60_ms),
        c2: prepared_comb_spec(e.c2, sr, rt60_ms),
        c3: prepared_comb_spec(e.c3, sr, rt60_ms),
        c4: prepared_comb_spec(e.c4, sr, rt60_ms),
        c5: prepared_comb_spec(e.c5, sr, rt60_ms),
        c6: prepared_comb_spec(e.c6, sr, rt60_ms),
        c7: prepared_comb_spec(e.c7, sr, rt60_ms),
        c8: prepared_comb_spec(e.c8, sr, rt60_ms),
        post1: fresh_allpass_spec(e.post1.delay_ms, e.post1.max_ms, sr),
        post2: fresh_allpass_spec(e.post2.delay_ms, e.post2.max_ms, sr),
        mod_ap: fresh_modallpass_spec(
            e.mod_ap.base_ms,
            e.mod_ap.depth_ms,
            e.mod_ap.lfo_freq,
            sr,
        ),
        mod_enabled: e.mod_enabled,
        dry_wet_mix: e.dry_wet_mix,
    })
}

/// The reverberation engine.
pub struct Schroeder {
    pre1: AllPassUnit,
    pre2: AllPassUnit,
    c1: CombUnit,
    c2: CombUnit,
    c3: CombUnit,
    c4: CombUnit,
    c5: CombUnit,
    c6: CombUnit,
    c7: CombUnit,
    c8: CombUnit,
    post1: AllPassUnit,
    post2: AllPassUnit,
    mod_ap: ModAllPassUnit,
    mod_enabled: bool,
    dry_wet_mix: i64,
}

impl View for Schroeder {
    type V = EngineModel;

    closed spec fn view(&self) -> EngineModel {
        (EngineModel {
            pre1: self.pre1@,
            pre2: self.pre2@,
            c1: self.c1@,
            c2: self.c2@,
            c3: self.c3@,
            c4: self.c4@,
            c5: self.c5@,
            c6: self.c6@,
            c7: self.c7@,
            c8: self.c8@,
            post1: self.post1@,
            post2: self.post2@,
            mod_ap: self.mod_ap@,
            mod_enabled: self.mod_enabled,
            dry_wet_mix: self.dry_wet_mix as int,
        })
    }
}

impl Schroeder {
    /// A quiescent engine at a sample rate (Q16 Hz, clamped to the
    /// supported range): modulation off, dry/wet mix one half, every
    /// filter empty.  `prepare` must follow before processing, as it alone
    /// derives the comb gains from an RT60 target.
    pub fn new(sample_rate: i64) -> (r: Schroeder)
        ensures
            r@ == fresh_engine_spec(clamp_sr_spec(sample_rate as int)),
            r@.wf(),
            r@.quiescent(),
    {
        let sr = clamp_sr(sample_rate);
        Schroeder {
            pre1: AllPassUnit::new(PRE_APF_MS_1, APF_MAX_MS, sr),
            pre2: AllPassUnit::new(PRE_APF_MS_2, APF_MAX_MS, sr),
            c1: CombUnit::new(COMB_MS_1, sr),
            c2: CombUnit::new(COMB_MS_2, sr),
            c3: CombUnit::new(COMB_MS_3, sr),
            c4: CombUnit::new(COMB_MS_4, sr),
            c5: CombUnit::new(COMB_MS_5, sr),
            c6: CombUnit::new(COMB_MS_6, sr),
            c7: CombUnit::new(COMB_MS_7, sr),
            c8: CombUnit::new(COMB_MS_8, sr),
            post1: AllPassUnit::new(APF_MS_1, APF_MAX_MS, sr),
            post2: AllPassUnit::new(APF_MS_2, APF_MAX_MS, sr),
            mod_ap: ModAllPassUnit::new(MOD_BASE_MS, MOD_DEPTH_MS, MOD_LFO_FREQ_HZ, sr),
            mod_enabled: false,
            dry_wet_mix: HALF,
        }
    }

    /// Resize every delay line for a (clamped) sample rate and re-derive
    /// every comb gain from the RT60 target; clears all signal state.
    /// The only operation that reallocates buffers.
    pub fn prepare(&mut self, sample_rate: i64, rt60_ms: i64)
        requires
            old(self)@.wf(),
        ensures
            final(self)@ == prepare_spec(
                old(self)@,
                clamp_sr_spec(sample_rate as int),
                rt60_ms as int,
            ),
            final(self)@.wf(),
            final(self)@.quiescent(),
    {
        let sr = clamp_sr(sample_rate);
        self.pre1.prepare(sr);
        self.pre2.prepare(sr);
        self.c1.prepare(sr, rt60_ms);
        self.c2.prepare(sr, rt60_ms);
        self.c3.prepare(sr, rt60_ms);
        self.c4.prepare(sr, rt60_ms);
        self.c5.prepare(sr, rt60_ms);
        self.c6.prepare(sr, rt60_ms);
        self.c7.prepare(sr, rt60_ms);
        self.c8.prepare(sr, rt60_ms);
        self.post1.prepare(sr);
        self.post2.prepare(sr);
        self.mod_ap.prepare(sr);
    }

    /// Set the damping coefficient of every comb, clamped to `[0, ONE]`.
    pub fn set_dampening(&mut self, dampening: i64)
        requires
            old(self)@.wf(),
        ensures
            final(self)@.wf(),
            final(self)@ == (EngineModel {
                c1: (CombModel { damp: clamp01_spec(dampening as int), ..old(self)@.c1 }),
                c2: (CombModel { damp: clamp01_spec(dampening as int), ..old(self)@.c2 }),
                c3: (CombModel { damp: clamp01_spec(dampening as int), ..old(self)@.c3 }),
                c4: (CombModel { damp: clamp01_spec(dampening as int), ..old(self)@.c4 }),
                c5: (CombModel { damp: clamp01_spec(dampening as int), ..old(self)@.c5 }),
                c6: (CombModel { damp: clamp01_spec(dampening as int), ..old(self)@.c6 }),
                c7: (CombModel { damp: clamp01_spec(dampening as int), ..old(self)@.c7 }),
                c8: (CombModel { damp: clamp01_spec(dampening as int), ..old(self)@.c8 }),
                ..old(self)@
            }),
    {
        self.c1.set_dampening(dampening);
        self.c2.set_dampening(dampening);
        self.c3.set_dampening(dampening);
        self.c4.set_dampening(dampening);
        self.c5.set_dampening(dampening);
        self.c6.set_dampening(dampening);
        self.c7.set_dampening(dampening);
        self.c8.set_dampening(dampening);
    }

    /// Set the dry/wet blend, clamped to `[0, ONE]`: zero is fully dry,
    /// `ONE` fully wet.
    pub fn set_dry_wet_mix(&mut self, dry_wet_mix: i64)
        requires
            old(self)@.wf(),
        ensures
            final(self)@.wf(),
            final(self)@ == (EngineModel {
                dry_wet_mix: clamp01_spec(dry_wet_mix as int),
                ..old(self)@
            }),
    {
        self.dry_wet_mix = clamp01(dry_wet_mix);
    }

    /// Gate the modulated all-pass in or out of the wet path.
    pub fn set_mod_enabled(&mut self, enabled: bool)
        requires
            old(self)@.wf(),
        ensures
            final(self)@.wf(),
            final(self)@ == (EngineModel { mod_enabled: enabled, ..old(self)@ }),
    {
        self.mod_enabled = enabled;
    }

    /// Set the modulation LFO frequency (Q16 Hz); the phase is kept.
    pub fn set_mod_lfo_freq(&mut self, freq: i64)
        requires
            old(self)@.wf(),
        ensures
            final(self)@.wf(),
            final(self)@ == (EngineModel {
                mod_ap: (ModAllPassModel {
                    lfo_freq: freq as int,
                    lfo: (LfoModel {
                        inc: lfo_inc_spec(freq as int, old(self)@.mod_ap.lfo.sample_rate),
                        ..old(self)@.mod_ap.lfo
                    }),
                    ..old(self)@.mod_ap
                }),
                ..old(self)@
            }),
    {
        self.mod_ap.set_lfo_freq(freq);
    }

    /// Re-derive every comb gain from a new RT60 target (cheap: no buffer
    /// is touched); each gain comes from the unit's own nominal delay.
    pub fn update_reverb_time(&mut self, rt60_ms: i64)
        requires
            old(self)@.wf(),
        ensures
            final(self)@.wf(),
            final(self)@ == (EngineModel {
                c1: (CombModel {
                    gain: comb_gain_spec(old(self)@.c1.delay_ms, rt60_ms as int),
                    ..old(self)@.c1
                }),
                c2: (CombModel {
                    gain: comb_gain_spec(old(self)@.c2.delay_ms, rt60_ms as int),
                    ..old(self)@.c2
                }),
                c3: (CombModel {
                    gain: comb_gain_spec(old(self)@.c3.delay_ms, rt60_ms as int),
                    ..old(self)@.c3
                }),
                c4: (CombModel {
                    gain: comb_gain_spec(old(self)@.c4.delay_ms, rt60_ms as int),
                    ..old(self)@.c4
                }),
                c5: (CombModel {
                    gain: comb_gain_spec(old(self)@.c5.delay_ms, rt60_ms as int),
                    ..old(self)@.c5
                }),
                c6: (CombModel {
                    gain: comb_gain_spec(old(self)@.c6.delay_ms, rt60_ms as int),
                    ..old(self)@.c6
                }),
                c7: (CombModel {
                    gain: comb_gain_spec(old(self)@.c7.delay_ms, rt60_ms as int),
                    ..old(self)@.c7
                }),
                c8: (CombModel {
                    gain: comb_gain_spec(old(self)@.c8.delay_ms, rt60_ms as int),
                    ..old(self)@.c8
                }),
                ..old(self)@
            }),
    {
        self.c1.set_gain_from_rt60(rt60_ms);
        self.c2.set_gain_from_rt60(rt60_ms);
        self.c3.set_gain_from_rt60(rt60_ms);
        self.c4.set_gain_from_rt60(rt60_ms);
        self.c5.set_gain_from_rt60(rt60_ms);
        self.c6.set_gain_from_rt60(rt60_ms);
        self.c7.set_gain_from_rt60(rt60_ms);
        self.c8.set_gain_from_rt60(rt60_ms);
    }

    /// Convert one input sample into one output sample.  The result and
    /// the new state are exactly the model's `step_spec`; the output is
    /// deterministic given the prior call history.
    pub fn process(&mut self, input: i64) -> (r: i64)
        requires
            old(self)@.wf(),
            mag(input as int) <= SAMPLE_LIMIT as int,
        ensures
            final(self)@ == old(self)@.step_spec(input as int).0,
            r == old(self)@.step_spec(input as int).1,
            final(self)@.wf(),
            mag(r as int) <= SAMPLE_LIMIT as int,
    {
        let v1 = self.pre1.process(input);
        let v2 = self.pre2.process(v1);
        let o1 = self.c1.process(v2);
        let o2 = self.c2.process(v2);
        let o3 = self.c3.process(v2);
        let o4 = self.c4.process(v2);
        let o5 = self.c5.process(v2);
        let o6 = self.c6.process(v2);
        let o7 = self.c7.process(v2);
        let o8 = self.c8.process(v2);
        let bank = div8(-o1 + o2 - o3 + o4 - o5 + o6 - o7 + o8);
        let moded = if self.mod_enabled {
            self.mod_ap.process(bank)
        } else {
            bank
        };
        let w1 = self.post1.process(moded);
        let wet = self.post2.process(w1);
        fp_blend(wet, input, self.dry_wet_mix)
    }
}

} // verus!
