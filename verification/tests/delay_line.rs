use static_dsp::fixed::Fixed;
use static_dsp::modules::DelayLine;
use static_dsp::sample::Sample;

#[test]
fn test_should_instansiate() {
    let delay: DelayLine<Fixed> = DelayLine::new(10);

    for x in delay.buffer.iter() {
        assert_eq!(x, &Fixed::equilibrium());
    }
    assert_eq!(delay.index, 0);
}

#[test]
fn impulse_response_single_slot() {
    // Capacity 1: the impulse comes back on the very first read.
    let mut delay: DelayLine<Fixed> = DelayLine::new(1);
    assert_eq!(delay.process(Fixed::peak()), Fixed::peak());
    assert_eq!(delay.process(Fixed::equilibrium()), Fixed::equilibrium());
}

#[test]
fn impulse_response_is_exact_n_sample_delay() {
    // Capacity 5: equilibrium for the first four reads, peak on the
    // fifth, equilibrium forever after.
    let mut delay: DelayLine<Fixed> = DelayLine::new(5);
    let mut outputs: Vec<Fixed> = Vec::new();
    outputs.push(delay.process(Fixed::peak()));
    for _ in 0..9 {
        outputs.push(delay.process(Fixed::equilibrium()));
    }
    for (t, out) in outputs.iter().enumerate() {
        if t == 4 {
            assert_eq!(out, &Fixed::peak());
        } else {
            assert_eq!(out, &Fixed::equilibrium());
        }
    }
}

#[test]
fn read_does_not_mutate() {
    let mut delay: DelayLine<Fixed> = DelayLine::new(3);
    delay.process(Fixed::from_ratio(1, 4));
    let first = delay.read();
    let second = delay.read();
    assert_eq!(first, second);
}
