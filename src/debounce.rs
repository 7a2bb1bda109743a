//! A run-length confirmation gate.
use vstd::prelude::*;

use crate::traits::Filter;

verus! {

use vstd::std_specs::cmp::PartialEqSpec;

/// A debounce filter: switches on once the input has equalled the predicate
/// `threshold` times in a row, and off as soon as the run breaks.
#[derive(Clone, Debug)]
pub struct Debounce<T, U> {
    /// How many consecutive matching inputs switch the output on.
    threshold: usize,
    /// `[off, on]` outputs.
    output: [U; 2],
    /// The value whose runs are counted.
    predicate: T,
    /// The length of the current run, capped at `threshold`.
    counter: usize,
}

impl<T, U: Copy> Debounce<T, U> {
    /// Creates a gate counting runs of `predicate`, with `[off, on]` outputs.
    pub fn new(threshold: usize, predicate: T, output: [U; 2]) -> (r: Self)
        ensures
            r.wf(),
            r.threshold() == threshold,
            r.predicate() == predicate,
            r.outputs() == output@,
            r.counter() == 0,
    {
        Debounce { threshold, output, predicate, counter: 0 }
    }

    pub closed spec fn wf(&self) -> bool {
        self.counter <= self.threshold
    }

    pub closed spec fn threshold(&self) -> nat {
        self.threshold as nat
    }

    pub closed spec fn predicate(&self) -> T {
        self.predicate
    }

    pub closed spec fn outputs(&self) -> Seq<U> {
        self.output@
    }

    /// The length of the current run of matching inputs, capped at the threshold.
    pub closed spec fn counter(&self) -> nat {
        self.counter as nat
    }
}

impl<T: PartialEq, U: Copy> Filter<T> for Debounce<T, U> {
    type Output = U;

    open spec fn filter_ok(&self, input: T) -> bool {
        &&& self.wf()
        &&& T::obeys_eq_spec()
    }

    open spec fn filter_post(&self, input: T, next: Self, output: U) -> bool {
        &&& next.wf()
        &&& next.threshold() == self.threshold()
        &&& next.predicate() == self.predicate()
        &&& next.outputs() == self.outputs()
        &&& next.counter() == if input.eq_spec(&self.predicate()) {
            if self.counter() < self.threshold() {
                self.counter() + 1
            } else {
                self.threshold()
            }
        } else {
            0
        }
        &&& output == self.outputs()[if next.counter() >= next.threshold() { 1int } else { 0int }]
    }

    fn filter(&mut self, input: T) -> (r: U) {
        if input == self.predicate {
            self.counter = if self.counter < self.threshold {
                self.counter + 1
            } else {
                self.threshold
            };
        } else {
            self.counter = 0;
        }
        if self.counter >= self.threshold {
            self.output[1]
        } else {
            self.output[0]
        }
    }

    open spec fn reset_post(&self, next: Self) -> bool {
        &&& next.wf()
        &&& next.threshold() == self.threshold()
        &&& next.predicate() == self.predicate()
        &&& next.outputs() == self.outputs()
        &&& next.counter() == 0
    }

    fn reset(&mut self) {
        self.counter = 0;
    }

    fn phase_shift(&self) -> (r: isize) {
        0
    }
}

} // verus!
