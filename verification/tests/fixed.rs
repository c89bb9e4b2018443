use static_dsp::fixed::{Fixed, FRAC_ONE};
use static_dsp::sample::{FromSample, IntoSample, Sample};

#[test]
fn constants_have_expected_raw_values() {
    assert_eq!(Fixed::equilibrium().raw, 0);
    assert_eq!(Fixed::peak().raw, FRAC_ONE);
    assert_eq!(Fixed::from_ratio(1, 2).raw, FRAC_ONE / 2);
    assert_eq!(Fixed::from_ratio(-1, 1).raw, -FRAC_ONE);
    assert_eq!(Fixed::from_ratio(3, 200).raw, 3 * FRAC_ONE / 200);
}

#[test]
fn addition_saturates_at_the_bounds() {
    let top = Fixed { raw: i64::MAX };
    let bottom = Fixed { raw: i64::MIN };
    assert_eq!(top.add(top).raw, i64::MAX);
    assert_eq!(bottom.add(bottom).raw, i64::MIN);
    assert_eq!(bottom.sub(top).raw, i64::MIN);
    assert_eq!(top.sub(bottom).raw, i64::MAX);
    assert_eq!(bottom.neg().raw, i64::MAX);
}

#[test]
fn multiplication_truncates_toward_zero() {
    let third = Fixed::from_ratio(1, 3);
    let neg_third = Fixed::from_ratio(-1, 3);
    let product = third.mul(third).raw;
    let neg_product = neg_third.mul(third).raw;
    // Symmetric truncation: the negative product is the exact negation
    // of the positive one, not one step below it.
    assert_eq!(neg_product, -product);
    assert_eq!(third.raw, 1431655765);
    assert_eq!(product, 477218588);
}

#[test]
fn multiplication_by_peak_is_exact() {
    let x = Fixed { raw: 987654321987 };
    assert_eq!(x.mul(Fixed::peak()), x);
    assert_eq!(Fixed::peak().mul(x), x);
    let y = Fixed { raw: -987654321987 };
    assert_eq!(y.mul(Fixed::peak()), y);
}

#[test]
fn division_by_equilibrium_saturates_by_sign() {
    let zero = Fixed::equilibrium();
    assert_eq!(Fixed::peak().div(zero).raw, i64::MAX);
    assert_eq!(Fixed::from_ratio(-1, 1).div(zero).raw, i64::MIN);
    assert_eq!(zero.div(zero).raw, 0);
}

#[test]
fn division_inverts_multiplication_on_dyadics() {
    let half = Fixed::from_ratio(1, 2);
    let quarter = Fixed::from_ratio(1, 4);
    assert_eq!(quarter.div(half), half);
    assert_eq!(half.mul(half), quarter);
}

#[test]
fn from_sample_scales_and_saturates() {
    assert_eq!(<Fixed as FromSample<i64>>::from_sample(3), Fixed::from_ratio(3, 1));
    assert_eq!(<Fixed as FromSample<i64>>::from_sample(0), Fixed::equilibrium());
    assert_eq!(<Fixed as FromSample<i64>>::from_sample(i64::MAX).raw, i64::MAX);
    assert_eq!(<Fixed as FromSample<i64>>::from_sample(i64::MIN).raw, i64::MIN);
    let via_into: Fixed = 5i64.into_sample();
    assert_eq!(via_into, Fixed::from_ratio(5, 1));
    let identity: Fixed = Fixed::from_ratio(9, 7).into_sample();
    assert_eq!(identity, Fixed::from_ratio(9, 7));
}

#[test]
fn square_root_is_the_exact_integer_root() {
    assert_eq!(Fixed::from_ratio(4, 1).sqrt(), Fixed::from_ratio(2, 1));
    assert_eq!(Fixed::from_ratio(1, 4).sqrt(), Fixed::from_ratio(1, 2));
    // floor(sqrt(2) * 2^32) == 6074000999
    assert_eq!(Fixed::from_ratio(2, 1).sqrt().raw, 6074000999);
    assert_eq!(Fixed::from_ratio(-3, 1).sqrt(), Fixed::equilibrium());
}

#[test]
fn tangent_matches_reference_values() {
    // tan(pi/4) == 1
    let t = Fixed::from_ratio(1, 4).tan_pi();
    assert!((t.raw - FRAC_ONE).abs() < 10_000, "tan_pi(1/4) = {}", t.raw);
    // tan(pi/8) == sqrt(2) - 1 == 0.41421356...
    let t8 = Fixed::from_ratio(1, 8).tan_pi();
    let reference = 6074000999i64 - FRAC_ONE;
    assert!((t8.raw - reference).abs() < 10_000, "tan_pi(1/8) = {}", t8.raw);
}

#[test]
fn decibel_gain_matches_reference_values() {
    // 0 dB is exactly unity gain.
    assert_eq!(Fixed::equilibrium().gain_from_db(), Fixed::peak());
    // |20| dB is a gain of 10, from either sign.
    let up = Fixed::from_ratio(20, 1).gain_from_db();
    let down = Fixed::from_ratio(-20, 1).gain_from_db();
    assert!((up.raw - 10 * FRAC_ONE).abs() < 1_000_000, "gain(20) = {}", up.raw);
    assert_eq!(up, down);
    // 6 dB is very nearly a doubling.
    let six = Fixed::from_ratio(6, 1).gain_from_db();
    assert!((six.raw - 8569586389i64).abs() < 1_000_000, "gain(6) = {}", six.raw);
}
