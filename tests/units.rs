use signalo::constant::Constant;
use signalo::differentiate::Differentiate;
use signalo::div::Div;
use signalo::identity::Identity;
use signalo::increment::Increment;
use signalo::last::Last;
use signalo::sum::Sum;
use signalo::traits::{Filter, Sink, Source};

fn assert_close(output: &[f64], expected: &[f64]) {
    assert_eq!(output.len(), expected.len());
    for (i, (a, b)) in output.iter().zip(expected.iter()).enumerate() {
        assert!((a - b).abs() <= 1e-9 * b.abs().max(1.0), "at {}: {} != {}", i, a, b);
    }
}

#[test]
fn identity_test() {
    let filter = Identity::default();
    let input = vec![1.0, 1.0, 2.0, 3.0, 5.0, 8.0, 13.0, 21.0, 34.0];
    let output: Vec<_> = input
        .iter()
        .scan(filter, |filter, &input| Some(filter.filter(input)))
        .collect();
    assert_close(&output, &[1.0, 1.0, 2.0, 3.0, 5.0, 8.0, 13.0, 21.0, 34.0]);
}

#[test]
fn identity_integer() {
    let filter = Identity::default();
    let input = vec![1, 1, 2, 3, 5, 8, 13, 21, 34];
    let output: Vec<_> = input
        .iter()
        .scan(filter, |filter, &input| Some(filter.filter(input)))
        .collect();
    assert_eq!(output, vec![1, 1, 2, 3, 5, 8, 13, 21, 34]);
}

#[test]
fn identity_float() {
    let filter = Identity::default();
    let input = vec![1.0, 1.0, 2.0, 3.0, 5.0, 8.0, 13.0, 21.0, 34.0];
    let output: Vec<_> = input
        .iter()
        .scan(filter, |filter, &input| Some(filter.filter(input)))
        .collect();
    assert_close(&output, &[1.0, 1.0, 2.0, 3.0, 5.0, 8.0, 13.0, 21.0, 34.0]);
}

#[test]
fn fixed_point() {
    let filter = Div::new(42);
    let input = vec![
        0, 42, 294, 84, 210, 336, 672, 126, 798, 252, 588, 378, 378, 714, 714, 168, 504, 840, 840,
        294,
    ];
    let output: Vec<_> = input
        .iter()
        .scan(filter, |filter, &input| Some(filter.filter(input)))
        .collect();
    assert_eq!(output, vec![0, 1, 7, 2, 5, 8, 16, 3, 19, 6, 14, 9, 9, 17, 17, 4, 12, 20, 20, 7]);
}

#[test]
fn floating_point() {
    let filter = Div::new(4.2);
    let input = vec![
        0.0, 4.2, 29.4, 8.4, 21.0, 33.6, 67.2, 12.6, 79.8, 25.2, 58.8, 37.8, 37.8, 71.4, 71.4,
        16.8, 50.4, 84.0, 84.0, 29.4,
    ];
    let output: Vec<f64> = input
        .iter()
        .scan(filter, |filter, &input| Some(filter.filter(input)))
        .collect();
    assert_close(
        &output,
        &[
            0.0, 1.0, 7.0, 2.0, 5.0, 8.0, 16.0, 3.0, 19.0, 6.0, 14.0, 9.0, 9.0, 17.0, 17.0, 4.0,
            12.0, 20.0, 20.0, 7.0,
        ],
    );
}

#[test]
fn div_value_is_the_divisor() {
    let filter = Div::new(7u32);
    assert_eq!(*filter.value(), 7);
}

#[test]
fn differentiate_test() {
    let filter = Differentiate::default();
    // Sequence: https://en.wikipedia.org/wiki/Collatz_conjecture
    let input = vec![
        0.0, 1.0, 7.0, 2.0, 5.0, 8.0, 16.0, 3.0, 19.0, 6.0, 14.0, 9.0, 9.0, 17.0, 17.0, 4.0, 12.0,
        20.0, 20.0, 7.0,
    ];
    let output: Vec<f64> = input
        .iter()
        .scan(filter, |filter, &input| Some(filter.filter(input)))
        .collect();
    assert_close(
        &output,
        &[
            0.0, 1.0, 6.0, -5.0, 3.0, 3.0, 8.0, -13.0, 16.0, -13.0, 8.0, -5.0, 0.0, 8.0, 0.0,
            -13.0, 8.0, 8.0, 0.0, -13.0,
        ],
    );
}

#[test]
fn differentiate_starts_at_zero_after_reset() {
    let mut filter: Differentiate<i32> = Differentiate::new();
    assert_eq!(filter.filter(5), 0);
    assert_eq!(filter.filter(9), 4);
    filter.reset();
    assert_eq!(filter.filter(1), 0);
}

#[test]
fn sum_sink() {
    // Sequence: https://en.wikipedia.org/wiki/Collatz_conjecture
    let input = vec![0, 1, 7, 2, 5, 8, 16, 3, 19, 6, 14, 9, 9, 17, 17, 4, 12, 20, 20, 7];
    let mut sink = Sum::new();
    for input in input {
        sink.sink(input);
    }
    let subject = sink.finalize();
    assert_eq!(subject, 196);
}

#[test]
fn last_sink() {
    // Sequence: https://en.wikipedia.org/wiki/Collatz_conjecture
    let input = vec![0, 1, 7, 2, 5, 8, 16, 3, 19, 6, 14, 9, 9, 17, 17, 4, 12, 20, 20, 7];
    let mut sink = Last::new();
    for input in input {
        sink.sink(input);
    }
    let subject = sink.finalize();
    assert_eq!(subject, Some(7));
}

#[test]
fn last_sink_empty() {
    let sink: Last<u8> = Last::new();
    assert_eq!(sink.finalize(), None);
}

#[test]
fn increment_source() {
    let source = Increment::new(42, 2);
    let subject: Vec<_> = (0..5).scan(source, |source, _| source.source()).collect();
    let expected = vec![42, 44, 46, 48, 50];
    assert_eq!(subject, expected);
}

#[test]
fn constant_source() {
    const VALUE: usize = 42;
    const COUNT: usize = 3;
    let source = Constant::new(VALUE);
    let subject: Vec<_> = (0..COUNT).scan(source, |source, _| source.source()).collect();
    let expected = vec![VALUE; COUNT];
    assert_eq!(subject, expected);
}

#[test]
fn closure_acts_as_filter() {
    let mut double = |x: i32| x * 2;
    assert_eq!(Filter::filter(&mut double, 21), 42);
    let mut chain = signalo::filter_pipe::Pipe::new(|x: i64| x + 1, Identity);
    assert_eq!(chain.filter(9), 10);
}

#[test]
fn unit_system_filters_the_plain_value() {
    let mut system = signalo::unit_system::UnitSystem::new(Differentiate::<f64>::new());
    assert_eq!(system.filter_value(3.0), 0.0);
    assert_eq!(system.filter_value(7.5), 4.5);
    let from: signalo::unit_system::UnitSystem<Identity> = Identity.into();
    let mut from = from;
    assert_eq!(from.filter_value(4u8), 4);
}
