use static_dsp::fixed::Fixed;
use static_dsp::modules::LowpassFeedbackComb;
use static_dsp::sample::Sample;

#[test]
fn lowpass_feedback_comb_test_basic_ticking() {
    let mut comb: LowpassFeedbackComb<Fixed> = LowpassFeedbackComb::new(2);
    assert_eq!(comb.process(Fixed::from_ratio(1, 1)), Fixed::from_ratio(0, 1));
    assert_eq!(comb.process(Fixed::from_ratio(0, 1)), Fixed::from_ratio(0, 1));
    assert_eq!(comb.process(Fixed::from_ratio(0, 1)), Fixed::from_ratio(1, 1));
    assert_eq!(comb.process(Fixed::from_ratio(0, 1)), Fixed::from_ratio(0, 1));
    assert_eq!(comb.process(Fixed::from_ratio(0, 1)), Fixed::from_ratio(1, 4));
    assert_eq!(comb.process(Fixed::from_ratio(0, 1)), Fixed::from_ratio(1, 8));
    assert_eq!(comb.process(Fixed::from_ratio(0, 1)), Fixed::from_ratio(1, 8));
    assert_eq!(comb.process(Fixed::from_ratio(0, 1)), Fixed::from_ratio(3, 32));
}
