//! An endless repetition of one value.
use vstd::prelude::*;

use crate::traits::Source;

verus! {

/// A source producing the same value forever.
#[derive(Clone, Copy, Debug)]
pub struct Constant<T> {
    value: T,
}

impl<T: Copy> Constant<T> {
    /// Creates a source repeating `value`.
    pub fn new(value: T) -> (r: Self)
        ensures
            r.value() == value,
    {
        Constant { value }
    }

    /// The repeated value.
    pub closed spec fn value(&self) -> T {
        self.value
    }
}

impl<T: Copy> Source for Constant<T> {
    type Output = T;

    open spec fn source_post(&self, next: Self, output: Option<T>) -> bool {
        &&& next.value() == self.value()
        &&& output == Some(self.value())
    }

    fn source(&mut self) -> (r: Option<T>) {
        Some(self.value)
    }
}

} // verus!
