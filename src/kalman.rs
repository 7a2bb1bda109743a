//! A one-dimensional Kalman filter.
use vstd::prelude::*;

use crate::numeric::{Number, exact, one, one_of, zero, zero_of};
use crate::traits::Filter;

verus! {

use vstd::std_specs::ops::{AddSpec, DivSpec, MulSpec, SubSpec};

/// The Kalman filter's configuration.
#[derive(Clone, Copy, Debug)]
pub struct Config<T> {
    /// Process noise covariance.
    pub r: T,
    /// Measurement noise covariance.
    pub q: T,
    /// State transition.
    pub a: T,
    /// Control transition.
    pub b: T,
    /// Measurement gain.
    pub c: T,
}

/// The Kalman filter's state.
#[derive(Clone, Copy, Debug)]
pub struct State<T> {
    /// Covariance (uncertainty) of the estimate.
    pub cov: T,
    /// The estimate, once there is one.
    pub value: Option<T>,
}

impl<T: Number> Default for Config<T> {
    /// The identity model without control: `r = q = a = c = 1`, `b = 0`.
    fn default() -> (r: Self)
        ensures
            exact::<T>() ==> r == (Config::<T> {
                r: one::<T>(),
                q: one::<T>(),
                a: one::<T>(),
                b: zero::<T>(),
                c: one::<T>(),
            }),
    {
        Config { r: one_of(), q: one_of(), a: one_of(), b: zero_of(), c: one_of() }
    }
}

/// The state after measuring `input` under control `control`.
pub open spec fn kalman_next<T: Number>(cfg: Config<T>, st: State<T>, input: T, control: T) -> State<T> {
    let c_squared = cfg.c.mul_spec(cfg.c);
    match st.value {
        Option::None => State { value: Some(input.div_spec(cfg.c)), cov: cfg.q.div_spec(c_squared) },
        Option::Some(value) => {
            let pred_state = cfg.a.mul_spec(value).add_spec(cfg.b.mul_spec(control));
            let pred_cov = cfg.a.mul_spec(st.cov).mul_spec(cfg.a).add_spec(cfg.r);
            let gain = pred_cov.mul_spec(cfg.c).div_spec(pred_cov.mul_spec(c_squared).add_spec(cfg.q));
            let innovation = input.sub_spec(cfg.c.mul_spec(pred_state));
            State {
                value: Some(pred_state.add_spec(gain.mul_spec(innovation))),
                cov: pred_cov.sub_spec(gain.mul_spec(cfg.c).mul_spec(pred_cov)),
            }
        },
    }
}

/// Whether every operation of `kalman_next` can be carried out (no overflow, no division by zero).
pub open spec fn kalman_ok<T: Number>(cfg: Config<T>, st: State<T>, input: T, control: T) -> bool {
    let c_squared = cfg.c.mul_spec(cfg.c);
    &&& exact::<T>()
    &&& cfg.c.mul_req(cfg.c)
    &&& match st.value {
        Option::None => input.div_req(cfg.c) && cfg.q.div_req(c_squared),
        Option::Some(value) => {
            let pred_state = cfg.a.mul_spec(value).add_spec(cfg.b.mul_spec(control));
            let pred_cov = cfg.a.mul_spec(st.cov).mul_spec(cfg.a).add_spec(cfg.r);
            let gain_num = pred_cov.mul_spec(cfg.c);
            let gain_den = pred_cov.mul_spec(c_squared).add_spec(cfg.q);
            let gain = gain_num.div_spec(gain_den);
            let innovation = input.sub_spec(cfg.c.mul_spec(pred_state));
            &&& cfg.a.mul_req(value)
            &&& cfg.b.mul_req(control)
            &&& cfg.a.mul_spec(value).add_req(cfg.b.mul_spec(control))
            &&& cfg.a.mul_req(st.cov)
            &&& cfg.a.mul_spec(st.cov).mul_req(cfg.a)
            &&& cfg.a.mul_spec(st.cov).mul_spec(cfg.a).add_req(cfg.r)
            &&& pred_cov.mul_req(cfg.c)
            &&& pred_cov.mul_req(c_squared)
            &&& pred_cov.mul_spec(c_squared).add_req(cfg.q)
            &&& gain_num.div_req(gain_den)
            &&& cfg.c.mul_req(pred_state)
            &&& input.sub_req(cfg.c.mul_spec(pred_state))
            &&& gain.mul_req(innovation)
            &&& pred_state.add_req(gain.mul_spec(innovation))
            &&& gain.mul_req(cfg.c)
            &&& gain.mul_spec(cfg.c).mul_req(pred_cov)
            &&& pred_cov.sub_req(gain.mul_spec(cfg.c).mul_spec(pred_cov))
        },
    }
}

/// A one-dimensional Kalman filter.
#[derive(Clone, Debug)]
pub struct Kalman<T> {
    config: Config<T>,
    state: State<T>,
}

impl<T: Number> Default for Kalman<T> {
    fn default() -> (r: Self)
        ensures
            exact::<T>() ==> r.config() == (Config::<T> {
                r: one::<T>(),
                q: one::<T>(),
                a: one::<T>(),
                b: zero::<T>(),
                c: one::<T>(),
            }) && r.state().cov == zero::<T>(),
            r.state().value is None,
    {
        Kalman::with_config(Config::default())
    }
}

impl<T: Number> Kalman<T> {
    /// Creates a filter with the given configuration and no estimate yet.
    pub fn with_config(config: Config<T>) -> (r: Self)
        ensures
            r.config() == config,
            r.state().value is None,
            exact::<T>() ==> r.state().cov == zero::<T>(),
    {
        let state = Self::initial_state(&config);
        Kalman { config, state }
    }

    /// The state a filter with `config` starts from: zero covariance, no estimate.
    pub fn initial_state(config: &Config<T>) -> (r: State<T>)
        ensures
            r.value is None,
            exact::<T>() ==> r.cov == zero::<T>(),
    {
        State { cov: zero_of(), value: None }
    }

    pub closed spec fn config(&self) -> Config<T> {
        self.config
    }

    pub closed spec fn state(&self) -> State<T> {
        self.state
    }

    /// The configuration.
    pub fn config_ref(&self) -> (r: &Config<T>)
        ensures
            *r == self.config(),
    {
        &self.config
    }

    /// The current state.
    pub fn state_ref(&self) -> (r: &State<T>)
        ensures
            *r == self.state(),
    {
        &self.state
    }

    /// Measures `input` under control `control` and returns the new estimate.
    pub fn process(&mut self, input: T, control: T) -> (r: T)
        requires
            kalman_ok(old(self).config(), old(self).state(), input, control),
        ensures
            final(self).config() == old(self).config(),
            final(self).state() == kalman_next(old(self).config(), old(self).state(), input, control),
            final(self).state().value == Some(r),
    {
        let c = self.config.c;
        let c_squared = c * c;
        let (value, cov) = match self.state.value {
            None => (input / c, self.config.q / c_squared),
            Some(value) => {
                let Config { r, q, a, b, c } = self.config;
                // Prediction:
                let pred_state = (a * value) + (b * control);
                let pred_cov = (a * self.state.cov * a) + r;
                // Gain:
                let gain = pred_cov * c / ((pred_cov * c_squared) + q);
                // Correction:
                let value = pred_state + gain * (input - (c * pred_state));
                let cov = pred_cov - (gain * c * pred_cov);
                (value, cov)
            },
        };
        self.state.value = Some(value);
        self.state.cov = cov;
        value
    }

    /// Restores the state derived from the configuration: zero covariance, no estimate.
    pub fn reset(&mut self)
        ensures
            final(self).config() == old(self).config(),
            final(self).state().value is None,
            exact::<T>() ==> final(self).state().cov == zero::<T>(),
    {
        self.state = Self::initial_state(&self.config);
    }
}

impl<T: Number> Filter<T> for Kalman<T> {
    type Output = T;

    open spec fn filter_ok(&self, input: T) -> bool {
        kalman_ok(self.config(), self.state(), input, zero::<T>())
    }

    open spec fn filter_post(&self, input: T, next: Self, output: T) -> bool {
        &&& next.config() == self.config()
        &&& next.state() == kalman_next(self.config(), self.state(), input, zero::<T>())
        &&& next.state().value == Some(output)
    }

    /// Measures `input` without control.
    fn filter(&mut self, input: T) -> (r: T) {
        let control = zero_of::<T>();
        self.process(input, control)
    }

    open spec fn reset_post(&self, next: Self) -> bool {
        &&& next.config() == self.config()
        &&& next.state().value is None
        &&& (exact::<T>() ==> next.state().cov == zero::<T>())
    }

    fn reset(&mut self) {
        Kalman::reset(self);
    }

    fn phase_shift(&self) -> (r: isize) {
        0
    }
}

impl<T: Number> Filter<(T, T)> for Kalman<T> {
    type Output = T;

    open spec fn filter_ok(&self, input: (T, T)) -> bool {
        kalman_ok(self.config(), self.state(), input.0, input.1)
    }

    open spec fn filter_post(&self, input: (T, T), next: Self, output: T) -> bool {
        &&& next.config() == self.config()
        &&& next.state() == kalman_next(self.config(), self.state(), input.0, input.1)
        &&& next.state().value == Some(output)
    }

    /// Measures `input.0` under control `input.1`.
    fn filter(&mut self, input: (T, T)) -> (r: T) {
        self.process(input.0, input.1)
    }

    open spec fn reset_post(&self, next: Self) -> bool {
        &&& next.config() == self.config()
        &&& next.state().value is None
        &&& (exact::<T>() ==> next.state().cov == zero::<T>())
    }

    fn reset(&mut self) {
        Kalman::reset(self);
    }

    fn phase_shift(&self) -> (r: isize) {
        0
    }
}

} // verus!
