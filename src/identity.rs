//! The pass-through filter.
use vstd::prelude::*;

use crate::traits::Filter;

verus! {

/// A filter that returns the values it receives.
#[derive(Default, Clone, Copy, Debug)]
pub struct Identity;

impl<T> Filter<T> for Identity {
    type Output = T;

    open spec fn filter_post(&self, input: T, next: Self, output: T) -> bool {
        output == input
    }

    fn filter(&mut self, input: T) -> (r: T) {
        input
    }

    open spec fn reset_post(&self, next: Self) -> bool {
        next == *self
    }

    fn reset(&mut self) {
    }

    fn phase_shift(&self) -> (r: isize) {
        0
    }
}

} // verus!
