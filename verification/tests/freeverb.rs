use static_dsp::fixed::{Fixed, FRAC_ONE};
use static_dsp::modules::Freeverb;
use static_dsp::sample::Sample;

#[test]
fn new_reverb_has_documented_control_state() {
    let fv: Freeverb<Fixed> = Freeverb::new();
    assert!(!fv.frozen);
    assert_eq!(fv.input_gain, Fixed::peak());
    assert_eq!(fv.dry, Fixed::equilibrium());
    assert_eq!(fv.width, Fixed::from_ratio(1, 2));
    // wet = 1.0 * 3, room_size = 0.5 * 0.28 + 0.7, dampening = 0.5 * 0.4
    assert_eq!(fv.wet, Fixed::from_ratio(3, 1));
    assert_eq!(fv.room_size, Fixed::from_ratio(1, 2).mul(Fixed::from_ratio(7, 25)).add(Fixed::from_ratio(7, 10)));
    assert_eq!(fv.dampening, Fixed::from_ratio(1, 2).mul(Fixed::from_ratio(2, 5)));
    // All 16 combs share the effective pair.
    assert_eq!(fv.comb_1.0.feedback, fv.room_size);
    assert_eq!(fv.comb_8.1.feedback, fv.room_size);
    assert_eq!(fv.comb_4.0.dampening, fv.dampening);
    assert_eq!(fv.comb_4.0.dampening.add(fv.comb_4.0.dampening_inverse), Fixed::peak());
    // Comb tunings: left lengths, right = left + 23.
    assert_eq!(fv.comb_1.0.delay_line.buffer.len(), 1116);
    assert_eq!(fv.comb_1.1.delay_line.buffer.len(), 1139);
    assert_eq!(fv.comb_8.0.delay_line.buffer.len(), 1617);
    assert_eq!(fv.allpass_4.0.delay_line.buffer.len(), 225);
    assert_eq!(fv.allpass_4.1.delay_line.buffer.len(), 248);
}

#[test]
fn first_wet_sound_arrives_after_the_shortest_comb_delay() {
    let mut fv: Freeverb<Fixed> = Freeverb::new();
    let one = Fixed::peak();
    let zero = Fixed::equilibrium();

    // Impulse on both channels, then silence.
    let first = fv.process((one, one));
    assert_eq!(first, (zero, zero));
    for _ in 0..1115 {
        let out = fv.process((zero, zero));
        assert_eq!(out, (zero, zero));
    }
    // Tick 1117: the shortest comb line (1116 samples, left) fires.
    // mixed = 2 * 0.015 = raw 128849018; the allpass series passes it
    // with an even number of sign flips; wet gains are (2.25, 0.75).
    let (l, r) = fv.process((zero, zero));
    assert_eq!(l.raw, 289910290);
    assert_eq!(r.raw, 96636763);
}

#[test]
fn freeze_cuts_the_input_and_fixes_the_comb_gains() {
    let mut fv: Freeverb<Fixed> = Freeverb::new();
    fv.set_freeze(true);
    assert!(fv.frozen);
    assert_eq!(fv.input_gain, Fixed::equilibrium());
    assert_eq!(fv.comb_1.0.feedback, Fixed::peak());
    assert_eq!(fv.comb_1.0.dampening, Fixed::equilibrium());
    assert_eq!(fv.comb_8.1.feedback, Fixed::peak());
    assert_eq!(fv.comb_8.1.dampening, Fixed::equilibrium());

    // A frozen tank ignores fresh input: feeding loud frames and
    // feeding silence leave identical state and outputs (dry is zero).
    let mut silent: Freeverb<Fixed> = Freeverb::new();
    silent.set_freeze(true);
    for tick in 0..500 {
        let loud = fv.process((Fixed::from_ratio(7, 10), Fixed::from_ratio(-3, 10)));
        let quiet = silent.process((Fixed::equilibrium(), Fixed::equilibrium()));
        assert_eq!(loud, quiet, "outputs diverged at tick {tick}");
    }
    assert_eq!(fv.comb_1.0.filter_state, silent.comb_1.0.filter_state);
    assert_eq!(fv.comb_1.0.delay_line.index, silent.comb_1.0.delay_line.index);

    fv.set_freeze(false);
    assert_eq!(fv.input_gain, Fixed::peak());
    assert_eq!(fv.comb_1.0.feedback, fv.room_size);
}

#[test]
fn wet_gains_follow_the_width_law() {
    let mut fv: Freeverb<Fixed> = Freeverb::new();

    // Full width: all wet energy stays on its own channel.
    fv.set_width(Fixed::peak());
    assert_eq!(fv.wet_gains.1, Fixed::equilibrium());
    assert_eq!(fv.wet_gains.0, fv.wet);

    // Zero width: both channels share the wet energy equally.
    fv.set_width(Fixed::equilibrium());
    assert_eq!(fv.wet_gains.0, fv.wet_gains.1);

    // Half width at wet 3.0: (2.25, 0.75), exactly.
    fv.set_width(Fixed::from_ratio(1, 2));
    assert_eq!(fv.wet_gains.0.raw, 9 * FRAC_ONE / 4);
    assert_eq!(fv.wet_gains.1.raw, 3 * FRAC_ONE / 4);

    // An odd width: conservation within the proven slack.
    fv.set_width(Fixed::from_ratio(1, 3));
    let sum = fv.wet_gains.0.raw + fv.wet_gains.1.raw;
    let slack = fv.wet.raw / FRAC_ONE + 2;
    assert!(sum <= fv.wet.raw);
    assert!(fv.wet.raw - sum <= slack, "sum {} wet {}", sum, fv.wet.raw);
}

#[test]
fn dry_level_mixes_the_input_back_in() {
    let mut fv: Freeverb<Fixed> = Freeverb::new();
    fv.set_dry(Fixed::peak());
    assert_eq!(fv.dry, Fixed::peak());
    // On the very first tick the tank is silent, so the output is the
    // dry input alone.
    let input = (Fixed::from_ratio(1, 4), Fixed::from_ratio(-1, 8));
    let out = fv.process(input);
    assert_eq!(out, input);
}
