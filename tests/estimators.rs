use signalo::alpha_beta::{AlphaBeta, Config as AlphaBetaConfig};
use signalo::kalman::{Config as KalmanConfig, Kalman};
use signalo::traits::Filter;

fn assert_close(output: &[f32], expected: &[f32], epsilon: f32) {
    assert_eq!(output.len(), expected.len());
    for (i, (a, b)) in output.iter().zip(expected.iter()).enumerate() {
        assert!((a - b).abs() <= epsilon, "at {}: {} != {}", i, a, b);
    }
}

fn get_input() -> Vec<f32> {
    vec![
        0.0, 1.0, 7.0, 2.0, 5.0, 8.0, 16.0, 3.0, 19.0, 6.0, 14.0, 9.0, 9.0, 17.0, 17.0, 4.0, 12.0,
        20.0, 20.0, 7.0, 7.0, 15.0, 15.0, 10.0, 23.0, 10.0, 111.0, 18.0, 18.0, 18.0, 106.0, 5.0,
        26.0, 13.0, 13.0, 21.0, 21.0, 21.0, 34.0, 8.0, 109.0, 8.0, 29.0, 16.0, 16.0, 16.0, 104.0,
        11.0, 24.0, 24.0,
    ]
}

#[test]
fn alpha_beta_test() {
    let expected = vec![
        0.000, 0.500, 3.813, 3.367, 4.474, 6.593, 11.828, 8.467, 14.103, 11.034, 12.870, 11.429,
        10.405, 13.717, 15.784, 10.469, 11.003, 15.395, 18.166, 13.281, 10.053, 12.058, 13.428,
        11.809, 17.274, 14.222, 62.668, 46.433, 34.761, 26.830, 65.761, 39.756, 32.909, 22.122,
        15.588, 15.998, 16.828, 17.764, 25.137, 16.931, 62.212, 40.201, 35.670, 26.071, 20.013,
        16.482, 58.656, 38.911, 32.050, 27.613,
    ];
    let alpha = 0.5;
    let beta = 0.125;
    let filter = AlphaBeta::new(AlphaBetaConfig { alpha, beta });

    // Sequence: https://en.wikipedia.org/wiki/Collatz_conjecture
    let input = get_input();

    let output: Vec<_> = input
        .iter()
        .scan(filter, |filter, &input| Some(filter.filter(input)))
        .collect();

    assert_close(&output, &expected, 0.001);
}

#[test]
fn kalman_test() {
    let expected = vec![
        0.000, 0.524, 3.012, 2.682, 3.375, 4.693, 7.837, 6.510, 9.912, 8.851, 10.245, 9.908,
        9.663, 11.646, 13.092, 10.636, 11.004, 13.435, 15.208, 12.991, 11.372, 12.352, 13.068,
        12.239, 15.146, 13.756, 40.027, 34.076, 29.733, 26.563, 48.024, 36.401, 33.591, 28.028,
        23.968, 23.166, 22.581, 22.154, 25.354, 20.666, 44.530, 34.661, 33.132, 28.503, 25.126,
        22.660, 44.635, 35.548, 32.428, 30.151,
    ];
    let filter = Kalman::with_config(KalmanConfig {
        r: 0.0001, // Process noise
        q: 0.001,  // Measurement noise
        a: 1.0,    // State
        b: 0.0,    // Control
        c: 1.0,    // Measurement
    });

    // Sequence: https://en.wikipedia.org/wiki/Collatz_conjecture
    let input = get_input();
    let output: Vec<f32> = input
        .iter()
        .scan(filter, |filter, &input| Some(filter.filter(input)))
        .collect();

    assert_close(&output, &expected, 0.001);
}

#[test]
fn kalman_first_and_second_step_follow_the_update_formulas() {
    let mut filter = Kalman::with_config(KalmanConfig {
        r: 1.0f64,
        q: 4.0,
        a: 1.0,
        b: 0.0,
        c: 2.0,
    });
    // First sample: estimate = input / c, covariance = q / c^2.
    assert_eq!(filter.filter(8.0), 4.0);
    assert_eq!(filter.state_ref().cov, 1.0);
    // predicted_cov = 1 + 1 = 2; gain = 2*2 / (2*4 + 4) = 1/3;
    // estimate = 4 + (10 - 8) / 3; covariance = 2 - 2*2/3.
    let estimate = filter.filter(10.0);
    assert!((estimate - (4.0 + 2.0 / 3.0)).abs() < 1e-12);
    assert!((filter.state_ref().cov - (2.0 - 4.0 / 3.0)).abs() < 1e-12);
}

#[test]
fn kalman_with_control_input() {
    let mut filter = Kalman::with_config(KalmanConfig {
        r: 0i64,
        q: 1,
        a: 1,
        b: 2,
        c: 1,
    });
    assert_eq!(filter.filter((5, 0)), 5);
    // predicted_state = 5 + 2*3 = 11; predicted_cov = 1; gain = 1 / 2 = 0 (integer);
    // estimate = 11.
    assert_eq!(filter.filter((7, 3)), 11);
}

#[test]
fn kalman_default_is_identity_model() {
    let filter: Kalman<i32> = Kalman::default();
    let config = filter.config_ref();
    assert_eq!((config.r, config.q, config.a, config.b, config.c), (1, 1, 1, 0, 1));
    assert_eq!(filter.state_ref().value, None);
}

#[test]
fn kalman_constant_input_converges() {
    let mut filter = Kalman::with_config(KalmanConfig {
        r: 0.0f64,
        q: 0.5,
        a: 1.0,
        b: 0.0,
        c: 1.0,
    });
    for _ in 0..20 {
        assert_eq!(filter.filter(3.25), 3.25);
    }
    let mut integer = Kalman::with_config(KalmanConfig { r: 0i64, q: 3, a: 1, b: 0, c: 1 });
    for _ in 0..20 {
        assert_eq!(integer.filter(-17), -17);
    }
}

#[test]
fn kalman_reset_forgets_the_estimate() {
    let mut filter = Kalman::with_config(KalmanConfig { r: 0i64, q: 3, a: 1, b: 0, c: 1 });
    filter.filter(9);
    filter.reset();
    assert_eq!(filter.state_ref().value, None);
    assert_eq!(filter.state_ref().cov, 0);
    assert_eq!(filter.filter(2), 2);
}

#[test]
fn alpha_beta_constant_input_converges() {
    let mut filter = AlphaBeta::new(AlphaBetaConfig { alpha: 0.5f64, beta: 0.25 });
    for _ in 0..20 {
        assert_eq!(filter.filter(-2.5), -2.5);
    }
    assert_eq!(filter.state_ref().velocity, 0.0);
}

#[test]
fn alpha_beta_update_formulas() {
    let mut filter = AlphaBeta::new(AlphaBetaConfig { alpha: 0.5f64, beta: 0.25 });
    // First sample: the estimate is the input, the velocity stays zero.
    assert_eq!(filter.filter(2.0), 2.0);
    assert_eq!(filter.state_ref().velocity, 0.0);
    // predicted = 2; residual = 4; estimate = 2 + 2; velocity = 0 + 1.
    assert_eq!(filter.filter(6.0), 4.0);
    assert_eq!(filter.state_ref().velocity, 1.0);
    filter.reset();
    assert_eq!(filter.state_ref().value, None);
    assert_eq!(filter.state_ref().velocity, 0.0);
}
