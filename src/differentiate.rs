//! The discrete derivative: each input minus the previous one.
use vstd::prelude::*;

use crate::numeric::{Number, exact, zero, zero_of};
use crate::traits::Filter;

verus! {

use vstd::std_specs::ops::SubSpec;

/// A differentiate filter's state.
#[derive(Clone, Copy, Debug)]
pub struct State<T> {
    /// The previous input, if any.
    pub value: Option<T>,
}

/// A filter producing the difference between consecutive inputs (0 for the first one).
#[derive(Clone, Debug)]
pub struct Differentiate<T> {
    state: State<T>,
}

impl<T: Number> Differentiate<T> {
    /// Creates a filter with no previous input.
    pub fn new() -> (r: Self)
        ensures
            r.state().value is None,
    {
        Differentiate { state: State { value: None } }
    }

    pub closed spec fn state(&self) -> State<T> {
        self.state
    }
}

impl<T: Number> Default for Differentiate<T> {
    fn default() -> (r: Self)
        ensures
            r.state().value is None,
    {
        Self::new()
    }
}

impl<T: Number> Filter<T> for Differentiate<T> {
    type Output = T;

    open spec fn filter_ok(&self, input: T) -> bool {
        &&& exact::<T>()
        &&& match self.state().value {
            Option::Some(last) => input.sub_req(last),
            Option::None => true,
        }
    }

    open spec fn filter_post(&self, input: T, next: Self, output: T) -> bool {
        &&& next.state().value == Some(input)
        &&& output == match self.state().value {
            Option::Some(last) => input.sub_spec(last),
            Option::None => zero::<T>(),
        }
    }

    fn filter(&mut self, input: T) -> (r: T) {
        let output = match self.state.value {
            None => zero_of(),
            Some(last) => input - last,
        };
        self.state.value = Some(input);
        output
    }

    open spec fn reset_post(&self, next: Self) -> bool {
        &&& next.state().value is None
    }

    fn reset(&mut self) {
        self.state = State { value: None };
    }

    fn phase_shift(&self) -> (r: isize) {
        0
    }
}

} // verus!
