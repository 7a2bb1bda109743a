//! The last received value.
use vstd::prelude::*;

use crate::traits::Sink;

verus! {

/// A sink keeping the last value it receives.
#[derive(Clone, Copy, Debug)]
pub struct Last<T> {
    state: Option<T>,
}

impl<T> Last<T> {
    /// Creates a sink that has seen no value.
    pub fn new() -> (r: Self)
        ensures
            r.value() is None,
    {
        Last { state: None }
    }

    /// The last value seen, if any.
    pub closed spec fn value(&self) -> Option<T> {
        self.state
    }
}

impl<T> Sink<T> for Last<T> {
    type Output = Option<T>;

    open spec fn sink_post(&self, input: T, next: Self) -> bool {
        next.value() == Some(input)
    }

    open spec fn finalize_post(&self, output: Option<T>) -> bool {
        output == self.value()
    }

    fn sink(&mut self, input: T) {
        self.state = Some(input);
    }

    fn finalize(self) -> (r: Option<T>) {
        self.state
    }
}

} // verus!
