use signalo::peaks::Peak::{Max, Min, Neither};
use signalo::peaks::{Config as PeaksConfig, Peak, Peaks};
use signalo::slopes::Slope::{Falling, Flat, Rising};
use signalo::slopes::{Config as SlopesConfig, Slope, Slopes};
use signalo::traits::Filter;

#[test]
fn slopes_test() {
    let filter = Slopes::new(SlopesConfig {
        outputs: Slope::classes(),
    });
    // Sequence: https://en.wikipedia.org/wiki/Collatz_conjecture
    let input = vec![
        0, 1, 7, 2, 5, 8, 16, 3, 19, 6, 14, 9, 9, 17, 17, 4, 12, 20, 20, 7,
    ];
    let output: Vec<_> = input
        .iter()
        .scan(filter, |filter, &input| Some(filter.filter(input)))
        .collect();
    assert_eq!(
        output,
        vec![
            Flat, Rising, Rising, Falling, Rising, Rising, Rising, Falling, Rising, Falling,
            Rising, Falling, Flat, Rising, Flat, Falling, Rising, Rising, Flat, Falling,
        ]
    );
}

#[test]
fn values() {
    let filter = Peaks::with_config(PeaksConfig {
        outputs: Peak::classes(),
    });
    // Sequence: https://en.wikipedia.org/wiki/Collatz_conjecture
    let input = vec![
        0, 1, 7, 2, 5, 8, 16, 3, 19, 6, 14, 9, 9, 17, 17, 4, 12, 20, 20, 7,
    ];

    let output: Vec<_> = input
        .iter()
        .scan(filter, |filter, &input| Some(filter.filter(input)))
        .collect();
    assert_eq!(
        output,
        vec![
            Neither, Neither, Neither, Max, Min, Neither, Neither, Max, Min, Max, Min, Max,
            Neither, Neither, Neither, Neither, Min, Neither, Neither, Neither,
        ]
    );
}

#[test]
fn slopes() {
    let filter = Peaks::with_config(PeaksConfig {
        outputs: Peak::classes(),
    });
    // Sequence: https://en.wikipedia.org/wiki/Collatz_conjecture
    let input = {
        vec![
            Flat, Rising, Rising, Falling, Rising, Rising, Rising, Falling, Rising, Falling,
            Rising, Falling, Flat, Rising, Flat, Falling, Rising, Rising, Flat, Falling,
        ]
    };
    let output: Vec<_> = input
        .iter()
        .scan(filter, |filter, input| Some(filter.filter(input.clone())))
        .collect();
    assert_eq!(
        output,
        vec![
            Neither, Neither, Neither, Max, Min, Neither, Neither, Max, Min, Max, Min, Max,
            Neither, Neither, Neither, Neither, Min, Neither, Neither, Neither,
        ]
    );
}

fn run_slopes(input: &[i64]) -> Vec<Slope> {
    let mut filter = Slopes::new(SlopesConfig {
        outputs: Slope::classes(),
    });
    input.iter().map(|&x| filter.filter(x)).collect()
}

#[test]
fn constant_input_is_flat() {
    assert_eq!(run_slopes(&[4, 4, 4, 4]), vec![Slope::Flat; 4]);
}

#[test]
fn increasing_input_rises_from_second_value() {
    assert_eq!(
        run_slopes(&[-3, 0, 2, 9]),
        vec![Slope::Flat, Slope::Rising, Slope::Rising, Slope::Rising]
    );
}

#[test]
fn decreasing_input_falls_from_second_value() {
    assert_eq!(
        run_slopes(&[9, 2, 0, -3]),
        vec![Slope::Flat, Slope::Falling, Slope::Falling, Slope::Falling]
    );
}

#[test]
fn single_maximum_yields_one_max_after_the_peak() {
    let mut filter = Peaks::with_config(PeaksConfig {
        outputs: Peak::classes(),
    });
    let input = [1, 3, 5, 8, 6, 2, -1];
    let output: Vec<Peak> = input.iter().map(|&x| filter.filter(x)).collect();
    assert_eq!(
        output,
        vec![
            Peak::Neither,
            Peak::Neither,
            Peak::Neither,
            Peak::Neither,
            Peak::Max,
            Peak::Neither,
            Peak::Neither
        ]
    );
}

#[test]
fn peaks_reset_forgets_history() {
    let mut filter = Peaks::with_config(PeaksConfig {
        outputs: [10u8, 20, 30],
    });
    filter.filter(1);
    filter.filter(5);
    filter.reset();
    // After a reset the first falling slope has no rising one before it.
    assert_eq!(filter.filter(4), 20);
    assert_eq!(filter.filter(2), 20);
}

#[test]
fn slope_and_peak_defaults_are_neutral() {
    assert_eq!(Slope::default(), Slope::Flat);
    assert_eq!(Peak::default(), Peak::Neither);
}
