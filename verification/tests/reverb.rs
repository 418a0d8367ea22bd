use schroederverb::{Schroeder, ONE, HALF, SAMPLE_LIMIT};

const SR_44100: i64 = 44100 * ONE;

fn lcg_next(state: &mut u64) -> i64 {
    *state = state
        .wrapping_mul(6364136223846793005)
        .wrapping_add(1442695040888963407);
    // a signed sample of magnitude below 4.0
    (((*state >> 16) % (8 * ONE as u64)) as i64) - 4 * ONE
}

#[test]
fn test_creation() {
    let sample_rate = SR_44100;
    let rt60_ms = 20 * ONE;
    let mut uut = Schroeder::new(sample_rate);
    uut.prepare(sample_rate, rt60_ms);
    uut.set_dampening(HALF);
    uut.set_dry_wet_mix(39322);
    let _out = uut.process(19661);
}

#[test]
fn dry_mix_passes_input_through() {
    let mut e = Schroeder::new(SR_44100);
    e.prepare(SR_44100, 2000 * ONE);
    e.set_dampening(HALF);
    // build up arbitrary internal filter state first
    let mut seed: u64 = 7;
    for _ in 0..500 {
        e.process(lcg_next(&mut seed));
    }
    e.set_dry_wet_mix(0);
    let inputs = [
        0,
        1,
        -1,
        19661,
        -19661,
        ONE,
        -ONE,
        1000 * ONE,
        -1000 * ONE,
        SAMPLE_LIMIT,
        -SAMPLE_LIMIT,
    ];
    for &x in inputs.iter() {
        assert_eq!(e.process(x), x);
    }
}

#[test]
fn full_wet_ignores_dry_input_on_fresh_state() {
    // On a freshly prepared engine the eight combs all return the same
    // sample, so the alternating-polarity sum cancels and the wet path is
    // zero: a fully wet mix must output zero however large the dry input.
    let mut wet = Schroeder::new(SR_44100);
    wet.prepare(SR_44100, 20000 * ONE);
    wet.set_dry_wet_mix(ONE);
    assert_eq!(wet.process(19661), 0);

    let mut dry = Schroeder::new(SR_44100);
    dry.prepare(SR_44100, 20000 * ONE);
    dry.set_dry_wet_mix(0);
    assert_eq!(dry.process(19661), 19661);
}

#[test]
fn silence_in_is_silence_out() {
    let mut e = Schroeder::new(SR_44100);
    e.prepare(SR_44100, 5000 * ONE);
    e.set_dampening(HALF);
    e.set_dry_wet_mix(ONE);
    for _ in 0..2000 {
        assert_eq!(e.process(0), 0);
    }
    e.set_mod_enabled(true);
    for _ in 0..2000 {
        assert_eq!(e.process(0), 0);
    }
}

#[test]
fn identical_histories_give_identical_outputs() {
    let mut a = Schroeder::new(SR_44100);
    let mut b = Schroeder::new(SR_44100);
    a.prepare(SR_44100, 3000 * ONE);
    b.prepare(SR_44100, 3000 * ONE);
    let mut seed_a: u64 = 42;
    let mut seed_b: u64 = 42;
    for n in 0..4000 {
        if n == 500 {
            a.set_dampening(HALF / 2);
            b.set_dampening(HALF / 2);
        }
        if n == 1000 {
            a.update_reverb_time(800 * ONE);
            b.update_reverb_time(800 * ONE);
        }
        if n == 1500 {
            a.set_mod_enabled(true);
            b.set_mod_enabled(true);
        }
        if n == 2000 {
            a.set_mod_lfo_freq(3 * ONE);
            b.set_mod_lfo_freq(3 * ONE);
        }
        if n == 2500 {
            a.set_dry_wet_mix(ONE / 4);
            b.set_dry_wet_mix(ONE / 4);
        }
        let xa = lcg_next(&mut seed_a);
        let xb = lcg_next(&mut seed_b);
        assert_eq!(xa, xb);
        assert_eq!(a.process(xa), b.process(xb));
    }
}

#[test]
fn toggling_modulation_in_silence_stays_silent() {
    let mut e = Schroeder::new(SR_44100);
    e.prepare(SR_44100, 2000 * ONE);
    e.set_dry_wet_mix(ONE);
    for _ in 0..1000 {
        assert_eq!(e.process(0), 0);
    }
    e.set_mod_enabled(true);
    for _ in 0..1000 {
        assert_eq!(e.process(0), 0);
    }
    e.set_mod_enabled(false);
    for _ in 0..1000 {
        assert_eq!(e.process(0), 0);
    }
}

#[test]
fn toggling_modulation_midstream_steps_gently() {
    // Enabling the modulated all-pass mid-stream on a steady signal must
    // not produce a hard click: the unit starts from a defined (zero)
    // phase and empty state, so the step stays far below the signal level.
    let mut e = Schroeder::new(SR_44100);
    e.prepare(SR_44100, 2000 * ONE);
    e.set_dry_wet_mix(ONE);
    let x = 13107;
    let mut before = 0;
    for _ in 0..5000 {
        before = e.process(x);
    }
    e.set_mod_enabled(true);
    let after = e.process(x);
    assert!((after - before).abs() < ONE / 8);
}

#[test]
fn prepare_then_process_returns_bounded_sample() {
    let mut e = Schroeder::new(SR_44100);
    e.prepare(SR_44100, 20000 * ONE);
    e.set_dampening(HALF);
    e.set_dry_wet_mix(39322);
    let out = e.process(19661);
    assert!(out.abs() <= SAMPLE_LIMIT);
    // fresh state: the wet path is zero, so only the dry share remains
    assert_eq!(out, 7864);
}

#[test]
fn out_of_range_parameters_clamp_silently() {
    let mut e = Schroeder::new(0);
    e.prepare(0, 0);
    e.set_dampening(10 * ONE);
    e.set_dry_wet_mix(-5 * ONE);
    e.set_mod_lfo_freq(-ONE);
    e.set_mod_enabled(true);
    // a negative mix clamps to fully dry: the input passes through
    assert_eq!(e.process(19661), 19661);
    let mut f = Schroeder::new(SR_44100);
    f.prepare(SR_44100, 1000 * ONE);
    f.set_dry_wet_mix(7 * ONE);
    // an oversized mix clamps to fully wet: fresh state outputs zero
    assert_eq!(f.process(19661), 0);
}
