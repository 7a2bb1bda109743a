use dimensioned::si::Meter;
use dimensioned::traits::MapUnsafe;
use signalo::traits::Filter;
use signalo::unit_system::UnitSystem;

struct AddFourPointTwo;

impl Filter<f32> for AddFourPointTwo {
    type Output = f32;

    fn filter(&mut self, input: f32) -> Self::Output {
        input + 4.2
    }

    fn reset(&mut self) {}

    fn phase_shift(&self) -> isize {
        0
    }
}

#[test]
fn unit_system_test() {
    let add_fourty_two = AddFourPointTwo;

    let mut filter = UnitSystem::from(add_fourty_two);
    // Sequence: https://en.wikipedia.org/wiki/Collatz_conjecture

    let input: Vec<_> = vec![
        0.0, 1.0, 7.0, 2.0, 5.0, 8.0, 16.0, 3.0, 19.0, 6.0, 14.0, 9.0, 9.0, 17.0, 17.0, 4.0, 12.0,
        20.0, 20.0, 7.0,
    ]
    .into_iter()
    .map(|unitless| Meter::new(unitless))
    .collect();

    let expected: Vec<f32> = vec![
        4.200, 5.200, 11.200, 6.200, 9.200, 12.200, 20.200, 7.200, 23.200, 10.200, 18.200, 13.200,
        13.200, 21.200, 21.200, 8.200, 16.200, 24.200, 24.200, 11.200,
    ];

    let output: Vec<f32> = input
        .into_iter()
        .map(|quantity| quantity.map_unsafe(|unitless| filter.filter_value(unitless)))
        .map(|dimensioned: Meter<f32>| dimensioned.value_unsafe)
        .collect();
    assert_eq!(output.len(), expected.len());
    for (a, b) in output.iter().zip(expected.iter()) {
        assert!((a - b).abs() <= 1e-5 * b.abs().max(1.0), "{} != {}", a, b);
    }
}
