//! The three capabilities of a processing unit: transform, accumulate, produce.
//!
//! Each method's contract is given through spec functions of the trait. Their
//! defaults (`true`, and no delay) leave a unit that does not override them
//! unconstrained; a unit of this library overrides them with the exact
//! relation that its method proves.
use vstd::prelude::*;

verus! {

/// A stateful one-input, one-output processing step.
pub trait Filter<Input>: Sized {
    type Output;

    /// Whether `filter` may be called with `input` in this state.
    open spec fn filter_ok(&self, input: Input) -> bool {
        true
    }

    /// How the state `next` and the result `output` follow from this state and `input`.
    open spec fn filter_post(&self, input: Input, next: Self, output: Self::Output) -> bool {
        true
    }

    /// Consumes one input and produces one output.
    fn filter(&mut self, input: Input) -> (r: Self::Output)
        requires
            old(self).filter_ok(input),
        ensures
            old(self).filter_post(input, *final(self), r),
    ;

    /// How the state `next` after a reset follows from this state.
    open spec fn reset_post(&self, next: Self) -> bool {
        true
    }

    /// The sample delay that the unit introduces (none, unless the unit says otherwise).
    open spec fn phase_shift_spec(&self) -> int {
        0
    }

    /// Restores the state derived from the configuration (nothing, for a stateless unit).
    fn reset(&mut self)
        ensures
            old(self).reset_post(*final(self)),
    ;

    /// The sample delay that the unit introduces.
    fn phase_shift(&self) -> (r: isize)
        ensures
            r == self.phase_shift_spec(),
    ;
}

/// An ordinary unary function acts as a stateless filter with a no-op reset.
impl<T, U, F: Fn(T) -> U> Filter<T> for F {
    type Output = U;

    open spec fn filter_ok(&self, input: T) -> bool {
        call_requires(*self, (input,))
    }

    open spec fn filter_post(&self, input: T, next: Self, output: U) -> bool {
        &&& next == *self
        &&& call_ensures(*self, (input,), output)
    }

    open spec fn reset_post(&self, next: Self) -> bool {
        next == *self
    }

    fn filter(&mut self, input: T) -> (r: U) {
        (self)(input)
    }

    fn reset(&mut self) {
    }

    fn phase_shift(&self) -> (r: isize) {
        0
    }
}

/// A sample delay that depends on the type of the unit alone.
pub trait LinearPhase {
    fn phase_shift() -> isize {
        0
    }
}

/// A unit that accumulates many inputs into one summary.
pub trait Sink<Input>: Sized {
    type Output;

    /// Whether `sink` may be called with `input` in this state.
    open spec fn sink_ok(&self, input: Input) -> bool {
        true
    }

    /// How the state `next` follows from this state and `input`.
    open spec fn sink_post(&self, input: Input, next: Self) -> bool {
        true
    }

    /// Whether `finalize` may be called in this state.
    open spec fn finalize_ok(&self) -> bool {
        true
    }

    /// What `finalize` returns in this state.
    open spec fn finalize_post(&self, output: Self::Output) -> bool {
        true
    }

    /// Takes in one input.
    fn sink(&mut self, input: Input)
        requires
            old(self).sink_ok(input),
        ensures
            old(self).sink_post(input, *final(self)),
    ;

    /// Consumes the unit and returns its summary.
    fn finalize(self) -> (r: Self::Output)
        requires
            self.finalize_ok(),
        ensures
            self.finalize_post(r),
    ;
}

/// A pull-based generator of values.
pub trait Source: Sized {
    type Output;

    /// Whether `source` may be called in this state.
    open spec fn source_ok(&self) -> bool {
        true
    }

    /// How the state `next` and the result `output` follow from this state.
    open spec fn source_post(&self, next: Self, output: Option<Self::Output>) -> bool {
        true
    }

    /// Produces the next value, or `None` once the source is exhausted.
    fn source(&mut self) -> (r: Option<Self::Output>)
        requires
            old(self).source_ok(),
        ensures
            old(self).source_post(*final(self), r),
    ;
}

} // verus!
