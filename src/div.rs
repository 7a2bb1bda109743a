//! Division of every input by a fixed value.
use vstd::prelude::*;

use core::ops::Div as DivOp;

use crate::traits::Filter;

verus! {

use vstd::std_specs::ops::DivSpec;

/// A filter dividing each input by a fixed divisor.
#[derive(Clone, Copy, Debug)]
pub struct Div<T> {
    value: T,
}

impl<T: Copy> Div<T> {
    /// Creates a filter dividing by `value`.
    pub fn new(value: T) -> (r: Self)
        ensures
            r.divisor() == value,
    {
        Div { value }
    }

    pub closed spec fn divisor(&self) -> T {
        self.value
    }

    /// The divisor.
    pub fn value(&self) -> (r: &T)
        ensures
            *r == self.divisor(),
    {
        &self.value
    }
}

impl<T: Copy, U: DivOp<T>> Filter<U> for Div<T> {
    type Output = <U as DivOp<T>>::Output;

    open spec fn filter_ok(&self, input: U) -> bool {
        &&& U::obeys_div_spec()
        &&& input.div_req(self.divisor())
    }

    open spec fn filter_post(&self, input: U, next: Self, output: Self::Output) -> bool {
        &&& next == *self
        &&& output == input.div_spec(self.divisor())
    }

    fn filter(&mut self, input: U) -> (r: Self::Output) {
        input / self.value
    }

    open spec fn reset_post(&self, next: Self) -> bool {
        next == *self
    }

    fn reset(&mut self) {
    }

    fn phase_shift(&self) -> (r: isize) {
        0
    }
}

} // verus!
