use static_dsp::fixed::Fixed;
use static_dsp::modules::biquad::{Biquad, BiquadParameters, BiquadType};
use static_dsp::sample::Sample;

fn fx_mul(a: i64, b: i64) -> i64 {
    ((a as i128 * b as i128) / 4294967296i128) as i64
}

#[test]
fn set_params_is_deterministic() {
    let params = BiquadParameters {
        cutoff: Fixed::from_ratio(1, 4),
        q: Fixed::from_ratio(707, 1000),
        peak_gain: Fixed::from_ratio(3, 1),
    };
    let mut first = Biquad::new(BiquadType::Peak, params);
    let once = first.coefficients;
    first.set_params(params);
    assert_eq!(once, first.coefficients);

    // A biquad with a different history lands on identical
    // coefficients from the same type and parameters.
    let other_params = BiquadParameters {
        cutoff: Fixed::from_ratio(1, 10),
        q: Fixed::from_ratio(2, 1),
        peak_gain: Fixed::from_ratio(-6, 1),
    };
    let mut second = Biquad::new(BiquadType::Peak, other_params);
    second.process(Fixed::from_ratio(1, 2));
    second.set_params(params);
    assert_eq!(once, second.coefficients);
}

#[test]
fn set_type_redesigns_all_coefficients() {
    let params = BiquadParameters {
        cutoff: Fixed::from_ratio(1, 8),
        q: Fixed::from_ratio(707, 1000),
        peak_gain: Fixed::equilibrium(),
    };
    let mut filter = Biquad::new(BiquadType::Lowpass, params);
    let lowpass = filter.coefficients;
    filter.set_type(BiquadType::Highpass);
    let highpass = filter.coefficients;
    assert_ne!(lowpass, highpass);
    filter.set_type(BiquadType::Lowpass);
    assert_eq!(lowpass, filter.coefficients);
    filter.set_biquad(params, BiquadType::Highpass);
    assert_eq!(highpass, filter.coefficients);
}

#[test]
fn process_follows_the_transposed_direct_form() {
    let params = BiquadParameters {
        cutoff: Fixed::from_ratio(1, 5),
        q: Fixed::from_ratio(707, 1000),
        peak_gain: Fixed::equilibrium(),
    };
    let mut filter = Biquad::new(BiquadType::Lowpass, params);
    let c = filter.coefficients;
    let x1 = Fixed::from_ratio(1, 2);
    let x2 = Fixed::from_ratio(-1, 4);

    let y1 = filter.process(x1);
    assert_eq!(y1.raw, fx_mul(x1.raw, c.a0.raw));
    let z1 = fx_mul(x1.raw, c.a1.raw) - fx_mul(c.b1.raw, y1.raw);
    let z2 = fx_mul(x1.raw, c.a2.raw) - fx_mul(c.b2.raw, y1.raw);
    assert_eq!(filter.z1.raw, z1);
    assert_eq!(filter.z2.raw, z2);

    let y2 = filter.process(x2);
    assert_eq!(y2.raw, fx_mul(x2.raw, c.a0.raw) + z1);
}

#[test]
fn flat_gain_peak_response_is_nearly_transparent() {
    // At peak_gain = 0 the peak filter's transfer is the identity up
    // to design rounding: a0 near one, a2 near b2, a1 equal to b1.
    let params = BiquadParameters {
        cutoff: Fixed::from_ratio(1, 4),
        q: Fixed::from_ratio(707, 1000),
        peak_gain: Fixed::equilibrium(),
    };
    let filter = Biquad::new(BiquadType::Peak, params);
    let c = filter.coefficients;
    assert_eq!(c.a1, c.b1);
    assert!((c.a0.raw - 4294967296i64).abs() < 100, "a0 = {}", c.a0.raw);
    assert!((c.a2.raw - c.b2.raw).abs() < 100);
}

#[test]
fn default_biquad_is_a_half_band_lowpass() {
    let filter = Biquad::default();
    assert!(matches!(filter.biquad_type, BiquadType::Lowpass));
    assert_eq!(filter.parameters.cutoff, Fixed::from_ratio(1, 2));
    assert_eq!(filter.parameters.q, Fixed::from_ratio(707, 1000));
    assert_eq!(filter.parameters.peak_gain, Fixed::equilibrium());
    assert_eq!(filter.z1, Fixed::equilibrium());
    assert_eq!(filter.z2, Fixed::equilibrium());
}

#[test]
fn lowpass_at_quarter_band_matches_the_cookbook_design() {
    // At cutoff 0.25, k = tan(pi/4) = 1, so with q = 0.707:
    // norm = 1 / (1 + 1/q + 1), a0 = norm ~ 0.29289, b1 = 0,
    // b2 = (1 - 1/q + 1) * norm ~ 0.17157.
    let params = BiquadParameters {
        cutoff: Fixed::from_ratio(1, 4),
        q: Fixed::from_ratio(707, 1000),
        peak_gain: Fixed::equilibrium(),
    };
    let filter = Biquad::new(BiquadType::Lowpass, params);
    let c = filter.coefficients;
    let tolerance = 100_000i64; // ~2e-5 of full scale
    assert!((c.a0.raw - 1257888101i64).abs() < tolerance, "a0 = {}", c.a0.raw);
    assert!((c.a1.raw - 2515776203i64).abs() < 2 * tolerance, "a1 = {}", c.a1.raw);
    assert_eq!(c.a2, c.a0);
    assert!(c.b1.raw.abs() < tolerance, "b1 = {}", c.b1.raw);
    assert!((c.b2.raw - 736585111i64).abs() < tolerance, "b2 = {}", c.b2.raw);
}
