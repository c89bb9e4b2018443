use static_dsp::fixed::Fixed;
use static_dsp::modules::Comb;
use static_dsp::sample::Sample;

#[test]
fn comb_test_basic_ticking() {
    let mut comb: Comb<Fixed> = Comb::new(2);
    assert_eq!(comb.process(Fixed::from_ratio(1, 1)), Fixed::from_ratio(0, 1));
    assert_eq!(comb.process(Fixed::from_ratio(0, 1)), Fixed::from_ratio(0, 1));
    assert_eq!(comb.process(Fixed::from_ratio(0, 1)), Fixed::from_ratio(1, 1));
    assert_eq!(comb.process(Fixed::from_ratio(0, 1)), Fixed::from_ratio(0, 1));
    assert_eq!(comb.process(Fixed::from_ratio(0, 1)), Fixed::from_ratio(1, 4));
    assert_eq!(comb.process(Fixed::from_ratio(0, 1)), Fixed::from_ratio(1, 8));
    assert_eq!(comb.process(Fixed::from_ratio(0, 1)), Fixed::from_ratio(1, 8));
    assert_eq!(comb.process(Fixed::from_ratio(0, 1)), Fixed::from_ratio(3, 32));
}

#[test]
fn set_dampening_rederives_complement() {
    let mut comb: Comb<Fixed> = Comb::new(4);
    comb.set_dampening(Fixed::from_ratio(1, 5));
    assert_eq!(comb.dampening, Fixed::from_ratio(1, 5));
    // dampening + dampening_inverse == peak, exactly.
    assert_eq!(
        comb.dampening.add(comb.dampening_inverse),
        Fixed::peak(),
    );
    comb.set_dampening(Fixed::from_ratio(7, 9));
    assert_eq!(
        comb.dampening.add(comb.dampening_inverse),
        Fixed::peak(),
    );
}

#[test]
fn set_feedback_stores_raw_gain() {
    let mut comb: Comb<Fixed> = Comb::new(4);
    comb.set_feedback(Fixed::from_ratio(21, 25));
    assert_eq!(comb.feedback, Fixed::from_ratio(21, 25));
}
