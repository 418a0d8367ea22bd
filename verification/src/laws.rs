//! Engine-level laws: facts that relate several operations of the model,
//! stated over the same spec functions the executable contracts use.

use vstd::prelude::*;
use vstd::arithmetic::div_mod::lemma_basic_div;
use vstd::arithmetic::div_mod::lemma_div_by_multiple;
use vstd::arithmetic::div_mod::lemma_div_by_self;
use vstd::arithmetic::div_mod::lemma_div_is_ordered;
use crate::fixed::{mag, ONE, SAMPLE_LIMIT, lemma_fp_mul_mag, lemma_fp_mul_one,
    lemma_fp_mul_zero};
use crate::delay::DelayModel;
use crate::lfo::lfo_value_spec;
use crate::comb::CombModel;
use crate::allpass::AllPassModel;
use crate::modallpass::ModAllPassModel;
use crate::schroeder::EngineModel;

verus! {

/// A fractional read from an all-zero delay line yields zero.
proof fn lemma_read_frac_zero(d: DelayModel, off: int)
    requires
        d.wf(),
        d.all_zero(),
        ONE as int <= off <= (d.len() - 2) * ONE as int,
    ensures
        d.read_frac_spec(off) == 0,
{
    let k = off / (ONE as int);
    lemma_div_is_ordered(ONE as int, off, ONE as int);
    lemma_div_by_self(ONE as int);
    lemma_div_is_ordered(off, (d.len() - 2) * ONE as int, ONE as int);
    lemma_div_by_multiple(d.len() - 2, ONE as int);
    assert(1 <= k <= d.len() - 2);
    assert(d.read_at(k) == 0i64);
    assert(d.read_at(k + 1) == 0i64);
    lemma_fp_mul_zero(off % (ONE as int));
    lemma_fp_mul_zero(ONE as int - off % (ONE as int));
}

/// Writing a zero into an all-zero delay line keeps it all-zero and
/// well-formed.
proof fn lemma_write_zero(d: DelayModel)
    requires
        d.wf(),
        d.all_zero(),
    ensures
        d.write_spec(0).wf(),
        d.write_spec(0).all_zero(),
        d.write_spec(0).len() == d.len(),
{
    assert forall|i: int| 0 <= i < d.write_spec(0).buf.len() implies #[trigger] d.write_spec(
        0,
    ).buf[i] == 0i64 by {
        assert(d.buf[i] == 0i64);
    }
}

/// A quiescent comb maps a zero input to a zero output and stays
/// quiescent.
proof fn lemma_comb_step_silent(c: CombModel)
    requires
        c.wf(),
        c.quiescent(),
    ensures
        c.step_spec(0).1 == 0,
        c.step_spec(0).0.wf(),
        c.step_spec(0).0.quiescent(),
{
    lemma_read_frac_zero(c.line, c.delay_samples);
    lemma_fp_mul_zero(ONE as int - c.damp);
    lemma_fp_mul_zero(c.damp);
    lemma_fp_mul_zero(c.gain);
    lemma_write_zero(c.line);
}

/// A quiescent all-pass maps a zero input to a zero output and stays
/// quiescent.
proof fn lemma_allpass_step_silent(a: AllPassModel)
    requires
        a.wf(),
        a.quiescent(),
    ensures
        a.step_spec(0).1 == 0,
        a.step_spec(0).0.wf(),
        a.step_spec(0).0.quiescent(),
{
    lemma_read_frac_zero(a.line, a.delay_samples);
    lemma_fp_mul_zero(crate::allpass::DIFFUSION as int);
    lemma_write_zero(a.line);
}

/// The triangle value lies in `[-ONE, ONE]` for a phase within one period.
proof fn lemma_lfo_value_bounded(phase: int)
    requires
        0 <= phase < ONE as int,
    ensures
        -(ONE as int) <= lfo_value_spec(phase) <= ONE as int,
{
}

/// A quiescent modulated all-pass maps a zero input to a zero output and
/// stays quiescent, at every LFO phase.
proof fn lemma_modallpass_step_silent(m: ModAllPassModel)
    requires
        m.wf(),
        m.quiescent(),
    ensures
        m.step_spec(0).1 == 0,
        m.step_spec(0).0.wf(),
        m.step_spec(0).0.quiescent(),
{
    lemma_lfo_value_bounded(m.lfo.phase);
    lemma_fp_mul_mag(m.depth_samples, lfo_value_spec(m.lfo.phase));
    lemma_read_frac_zero(m.line, m.offset_spec());
    lemma_fp_mul_zero(crate::allpass::DIFFUSION as int);
    lemma_write_zero(m.line);
}

/// Silence invariance: a quiescent engine maps a zero input sample to a
/// zero output sample and is again quiescent, so an all-zero input
/// sequence produces an all-zero output sequence.
pub proof fn lemma_silence_invariance(e: EngineModel)
    requires
        e.wf(),
        e.quiescent(),
    ensures
        e.step_spec(0).1 == 0,
        e.step_spec(0).0.wf(),
        e.step_spec(0).0.quiescent(),
{
    lemma_allpass_step_silent(e.pre1);
    lemma_allpass_step_silent(e.pre2);
    lemma_comb_step_silent(e.c1);
    lemma_comb_step_silent(e.c2);
    lemma_comb_step_silent(e.c3);
    lemma_comb_step_silent(e.c4);
    lemma_comb_step_silent(e.c5);
    lemma_comb_step_silent(e.c6);
    lemma_comb_step_silent(e.c7);
    lemma_comb_step_silent(e.c8);
    lemma_basic_div(0, 8);
    if e.mod_enabled {
        lemma_modallpass_step_silent(e.mod_ap);
    }
    lemma_allpass_step_silent(e.post1);
    lemma_allpass_step_silent(e.post2);
    lemma_fp_mul_zero(e.dry_wet_mix);
    lemma_fp_mul_zero(ONE as int - e.dry_wet_mix);
}

/// A fully dry mix reproduces the input exactly, whatever the internal
/// filter state: with `dry_wet_mix == 0` the wet term of the blend
/// vanishes and the dry term passes the sample through unchanged.
pub proof fn lemma_dry_mix_identity(e: EngineModel, x: int)
    requires
        e.wf(),
        e.dry_wet_mix == 0,
        mag(x) <= SAMPLE_LIMIT as int,
    ensures
        e.step_spec(x).1 == x,
{
    let w = e.wet_step_spec(x).1;
    lemma_fp_mul_zero(w);
    lemma_fp_mul_one(x);
}

/// A fully wet mix outputs exactly the wet-path sample: with
/// `dry_wet_mix == ONE` the dry term of the blend vanishes, so the input
/// reaches the output only through the filters.
pub proof fn lemma_full_wet_output(e: EngineModel, x: int)
    requires
        e.wf(),
        e.dry_wet_mix == ONE as int,
        mag(x) <= SAMPLE_LIMIT as int,
    ensures
        e.step_spec(x).1 == e.wet_step_spec(x).1,
{
    let w = e.wet_step_spec(x).1;
    assert(mag(w) <= SAMPLE_LIMIT as int);
    lemma_fp_mul_one(w);
    lemma_fp_mul_zero(x);
}

/// The output sequence of a run of the engine over an input sequence.
pub open spec fn run_outputs_spec(e: EngineModel, xs: Seq<int>) -> Seq<int>
    decreases xs.len(),
{
    if xs.len() == 0 {
        Seq::empty()
    } else {
        let s = e.step_spec(xs[0]);
        seq![s.1] + run_outputs_spec(s.0, xs.drop_first())
    }
}

/// Determinism: the engine's output sequence is a function of the initial
/// state and the input sequence alone — two engines in equal states fed
/// equal samples produce equal outputs, sample for sample.
pub proof fn lemma_deterministic(e1: EngineModel, e2: EngineModel, xs: Seq<int>)
    requires
        e1 == e2,
    ensures
        run_outputs_spec(e1, xs) == run_outputs_spec(e2, xs),
{
}

} // verus!
