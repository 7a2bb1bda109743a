//! A two-threshold latch (hysteresis).
use vstd::prelude::*;

use crate::traits::Filter;

verus! {

use vstd::std_specs::cmp::PartialOrdSpec;
use core::cmp::Ordering;

/// A Schmitt trigger: off until the input exceeds the high threshold,
/// then on until the input falls below the low threshold.
#[derive(Clone, Debug)]
pub struct Schmitt<T, U> {
    /// `[low, high]` input thresholds.
    thresholds: [T; 2],
    /// `[off, on]` outputs.
    output: [U; 2],
    /// Whether the latch is on.
    state: bool,
}

/// The latch after `input` when it was `on` before, for the thresholds `[low, high]`.
pub open spec fn schmitt_next<T: PartialOrd>(on: bool, low: T, high: T, input: T) -> bool {
    if on {
        // on stays on unless input < low
        input.partial_cmp_spec(&low) is Some && input.partial_cmp_spec(&low) != Some(Ordering::Less)
    } else {
        input.partial_cmp_spec(&high) == Some(Ordering::Greater)
    }
}

impl<T, U: Copy> Schmitt<T, U> {
    /// Creates a trigger with `[low, high]` thresholds and `[off, on]` outputs, starting off.
    pub fn new(thresholds: [T; 2], output: [U; 2]) -> (r: Self)
        ensures
            r.thresholds() == thresholds@,
            r.outputs() == output@,
            !r.is_on(),
    {
        Schmitt { thresholds, output, state: false }
    }

    pub closed spec fn thresholds(&self) -> Seq<T> {
        self.thresholds@
    }

    pub closed spec fn outputs(&self) -> Seq<U> {
        self.output@
    }

    /// Whether the latch is on.
    pub closed spec fn is_on(&self) -> bool {
        self.state
    }
}

impl<T: PartialOrd, U: Copy> Filter<T> for Schmitt<T, U> {
    type Output = U;

    open spec fn filter_ok(&self, input: T) -> bool {
        T::obeys_partial_cmp_spec()
    }

    open spec fn filter_post(&self, input: T, next: Self, output: U) -> bool {
        &&& next.thresholds() == self.thresholds()
        &&& next.outputs() == self.outputs()
        &&& next.is_on() == schmitt_next(
            self.is_on(),
            self.thresholds()[0],
            self.thresholds()[1],
            input,
        )
        &&& output == self.outputs()[if next.is_on() { 1int } else { 0int }]
    }

    fn filter(&mut self, input: T) -> (r: U) {
        self.state = if self.state {
            input >= self.thresholds[0]
        } else {
            input > self.thresholds[1]
        };
        if self.state {
            self.output[1]
        } else {
            self.output[0]
        }
    }

    open spec fn reset_post(&self, next: Self) -> bool {
        &&& next.thresholds() == self.thresholds()
        &&& next.outputs() == self.outputs()
        &&& !next.is_on()
    }

    fn reset(&mut self) {
        self.state = false;
    }

    fn phase_shift(&self) -> (r: isize) {
        0
    }
}

} // verus!
