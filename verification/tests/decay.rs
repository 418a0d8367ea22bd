use schroederverb::{Schroeder, ONE};
use schroederverb::comb::comb_gain;

const SR_44100: i64 = 44100 * ONE;

// the engine's eight nominal comb delays, Q16 milliseconds
const COMB_DELAYS: [i64; 8] = [
    1946419, 2057830, 2110259, 2333082, 2496922, 2680422, 2988442, 3178496,
];

#[test]
fn comb_gain_lies_strictly_inside_unit_interval() {
    let rt60s = [1, ONE, 20 * ONE, 500 * ONE, 20000 * ONE, 1000000 * ONE];
    for &d in COMB_DELAYS.iter() {
        for &rt in rt60s.iter() {
            let g = comb_gain(d, rt);
            assert!(0 < g, "gain must stay positive");
            assert!(g < ONE, "gain must stay below unity");
        }
    }
}

#[test]
fn comb_gain_matches_decay_relation() {
    // 10^(-3 * 29.7 / 20000) is about 0.98980; in Q16, the fixed-point
    // exponentiation lands on 64871 (about 0.98986)
    assert_eq!(comb_gain(1946419, 20000 * ONE), 64871);
    // 10^(-3 * 29.7 / 500) is about 0.66338; the fixed-point value is 43365
    assert_eq!(comb_gain(1946419, 500 * ONE), 43365);
}

#[test]
fn comb_gain_clamps_nonpositive_rt60() {
    for &rt in [0, -1, -20000 * ONE].iter() {
        for &d in COMB_DELAYS.iter() {
            let g = comb_gain(d, rt);
            assert!(0 < g && g < ONE);
        }
    }
}

#[test]
fn impulse_response_decays_below_minus_sixty_db() {
    let rt60 = 500 * ONE;
    let rt60_samples: usize = 22050;
    let amp = 1024 * ONE;
    let mut e = Schroeder::new(SR_44100);
    e.prepare(SR_44100, rt60);
    e.set_dampening(0);
    e.set_dry_wet_mix(ONE);
    let total = 4 * rt60_samples;
    let mut outs: Vec<i64> = Vec::with_capacity(total);
    for n in 0..total {
        let x = if n == 0 { amp } else { 0 };
        outs.push(e.process(x));
    }
    // envelope over half-RT60 windows decays monotonically toward zero
    let window = rt60_samples / 2;
    let mut peaks: Vec<i64> = Vec::new();
    for w in 0..(total / window) {
        let mut peak: i64 = 0;
        for n in (w * window)..((w + 1) * window) {
            if outs[n].abs() > peak {
                peak = outs[n].abs();
            }
        }
        peaks.push(peak);
    }
    for w in 1..peaks.len() {
        assert!(peaks[w] <= peaks[w - 1], "envelope must not grow");
    }
    // the early response is audible, i.e. above the -60 dB floor
    let floor = amp / 1000;
    assert!(peaks[0] > floor);
    // and the tail has fallen below -60 dB shortly after the RT60 mark
    let from = rt60_samples + rt60_samples / 3;
    for n in from..total {
        assert!(outs[n].abs() < floor, "tail must sit below -60 dB");
    }
}
