//! An arithmetic progression.
use vstd::prelude::*;

use crate::numeric::{Number, exact};
use crate::traits::Source;

verus! {

use vstd::std_specs::ops::AddSpec;

/// A source producing `initial`, `initial + interval`, `initial + 2 * interval`, ...
#[derive(Clone, Copy, Debug)]
pub struct Increment<T> {
    state: T,
    interval: T,
}

impl<T: Number> Increment<T> {
    /// Creates a source starting at `initial` and stepping by `interval`.
    pub fn new(initial: T, interval: T) -> (r: Self)
        ensures
            r.current() == initial,
            r.interval() == interval,
    {
        Increment { state: initial, interval }
    }

    /// The value produced next.
    pub closed spec fn current(&self) -> T {
        self.state
    }

    /// The step between consecutive values.
    pub closed spec fn interval(&self) -> T {
        self.interval
    }
}

impl<T: Number> Source for Increment<T> {
    type Output = T;

    open spec fn source_ok(&self) -> bool {
        &&& exact::<T>()
        &&& self.current().add_req(self.interval())
    }

    open spec fn source_post(&self, next: Self, output: Option<T>) -> bool {
        &&& output == Some(self.current())
        &&& next.current() == self.current().add_spec(self.interval())
        &&& next.interval() == self.interval()
    }

    fn source(&mut self) -> (r: Option<T>) {
        let output = self.state;
        self.state = self.state + self.interval;
        Some(output)
    }
}

} // verus!
