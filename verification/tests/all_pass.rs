use static_dsp::fixed::Fixed;
use static_dsp::modules::AllPass;
use static_dsp::sample::Sample;

#[test]
fn all_pass_test_basic_ticking() {
    let mut allpass: AllPass<Fixed> = AllPass::new(2);
    assert_eq!(allpass.process(Fixed::from_ratio(1, 1)), Fixed::from_ratio(-1, 1));
    assert_eq!(allpass.process(Fixed::from_ratio(0, 1)), Fixed::from_ratio(0, 1));
    assert_eq!(allpass.process(Fixed::from_ratio(0, 1)), Fixed::from_ratio(1, 1));
    assert_eq!(allpass.process(Fixed::from_ratio(0, 1)), Fixed::from_ratio(0, 1));
    assert_eq!(allpass.process(Fixed::from_ratio(0, 1)), Fixed::from_ratio(1, 2));
    assert_eq!(allpass.process(Fixed::from_ratio(0, 1)), Fixed::from_ratio(0, 1));
    assert_eq!(allpass.process(Fixed::from_ratio(0, 1)), Fixed::from_ratio(1, 4));
}
