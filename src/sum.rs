//! The sum of all received values.
use vstd::prelude::*;

use crate::numeric::{Number, exact, zero, zero_of};
use crate::traits::Sink;

verus! {

use vstd::std_specs::ops::AddSpec;

/// A sink computing the sum of all the values it receives.
#[derive(Clone, Copy, Debug)]
pub struct Sum<T> {
    state: T,
}

impl<T: Number> Sum<T> {
    /// Creates a sink whose sum is 0.
    pub fn new() -> (r: Self)
        ensures
            exact::<T>() ==> r.total() == zero::<T>(),
    {
        Sum { state: zero_of() }
    }

    /// The sum so far.
    pub closed spec fn total(&self) -> T {
        self.state
    }
}

impl<T: Number> Sink<T> for Sum<T> {
    type Output = T;

    open spec fn sink_ok(&self, input: T) -> bool {
        &&& exact::<T>()
        &&& self.total().add_req(input)
    }

    open spec fn sink_post(&self, input: T, next: Self) -> bool {
        next.total() == self.total().add_spec(input)
    }

    open spec fn finalize_post(&self, output: T) -> bool {
        output == self.total()
    }

    fn sink(&mut self, input: T) {
        self.state = self.state + input;
    }

    fn finalize(self) -> (r: T) {
        self.state
    }
}

} // verus!
