//! An alpha-beta (position/velocity) tracker.
use vstd::prelude::*;

use crate::numeric::{Number, exact, zero, zero_of};
use crate::traits::Filter;

verus! {

use vstd::std_specs::ops::{AddSpec, MulSpec, SubSpec};

/// The alpha-beta filter's configuration.
#[derive(Clone, Copy, Debug)]
pub struct Config<T> {
    /// Gain applied to the residual for the estimate.
    pub alpha: T,
    /// Gain applied to the residual for the velocity.
    pub beta: T,
}

/// The alpha-beta filter's state.
#[derive(Clone, Copy, Debug)]
pub struct State<T> {
    /// Velocity.
    pub velocity: T,
    /// The estimate, once there is one.
    pub value: Option<T>,
}

/// The state after measuring `input`.
pub open spec fn alpha_beta_next<T: Number>(cfg: Config<T>, st: State<T>, input: T) -> State<T> {
    match st.value {
        Option::None => State { velocity: st.velocity, value: Some(input) },
        Option::Some(value) => {
            let predicted = value.add_spec(st.velocity);
            let residual = input.sub_spec(predicted);
            State {
                velocity: st.velocity.add_spec(cfg.beta.mul_spec(residual)),
                value: Some(predicted.add_spec(cfg.alpha.mul_spec(residual))),
            }
        },
    }
}

/// Whether every operation of `alpha_beta_next` can be carried out.
pub open spec fn alpha_beta_ok<T: Number>(cfg: Config<T>, st: State<T>, input: T) -> bool {
    &&& exact::<T>()
    &&& match st.value {
        Option::None => true,
        Option::Some(value) => {
            let predicted = value.add_spec(st.velocity);
            let residual = input.sub_spec(predicted);
            &&& value.add_req(st.velocity)
            &&& input.sub_req(predicted)
            &&& cfg.alpha.mul_req(residual)
            &&& predicted.add_req(cfg.alpha.mul_spec(residual))
            &&& cfg.beta.mul_req(residual)
            &&& st.velocity.add_req(cfg.beta.mul_spec(residual))
        },
    }
}

/// An alpha-beta filter.
#[derive(Clone, Debug)]
pub struct AlphaBeta<T> {
    config: Config<T>,
    state: State<T>,
}

impl<T: Number> AlphaBeta<T> {
    /// Creates a filter with the given gains, zero velocity and no estimate yet.
    pub fn new(config: Config<T>) -> (r: Self)
        ensures
            r.config() == config,
            r.state().value is None,
            exact::<T>() ==> r.state().velocity == zero::<T>(),
    {
        let state = Self::initial_state(&config);
        AlphaBeta { config, state }
    }

    /// The state a filter with `config` starts from.
    pub fn initial_state(config: &Config<T>) -> (r: State<T>)
        ensures
            r.value is None,
            exact::<T>() ==> r.velocity == zero::<T>(),
    {
        State { velocity: zero_of(), value: None }
    }

    pub closed spec fn config(&self) -> Config<T> {
        self.config
    }

    pub closed spec fn state(&self) -> State<T> {
        self.state
    }

    /// The configuration.
    pub fn config_ref(&self) -> (r: &Config<T>)
        ensures
            *r == self.config(),
    {
        &self.config
    }

    /// The current state.
    pub fn state_ref(&self) -> (r: &State<T>)
        ensures
            *r == self.state(),
    {
        &self.state
    }
}

impl<T: Number> Filter<T> for AlphaBeta<T> {
    type Output = T;

    open spec fn filter_ok(&self, input: T) -> bool {
        alpha_beta_ok(self.config(), self.state(), input)
    }

    open spec fn filter_post(&self, input: T, next: Self, output: T) -> bool {
        &&& next.config() == self.config()
        &&& next.state() == alpha_beta_next(self.config(), self.state(), input)
        &&& next.state().value == Some(output)
    }

    fn filter(&mut self, input: T) -> (r: T) {
        let (velocity, value) = match self.state.value {
            None => (self.state.velocity, input),
            Some(value) => {
                // Prediction:
                let predicted = value + self.state.velocity;
                // Residual (error):
                let residual = input - predicted;
                // Correction:
                let value = predicted + (self.config.alpha * residual);
                let velocity = self.state.velocity + (self.config.beta * residual);
                (velocity, value)
            },
        };
        self.state.velocity = velocity;
        self.state.value = Some(value);
        value
    }

    open spec fn reset_post(&self, next: Self) -> bool {
        &&& next.config() == self.config()
        &&& next.state().value is None
        &&& (exact::<T>() ==> next.state().velocity == zero::<T>())
    }

    fn reset(&mut self) {
        self.state = Self::initial_state(&self.config);
    }

    fn phase_shift(&self) -> (r: isize) {
        0
    }
}

} // verus!
