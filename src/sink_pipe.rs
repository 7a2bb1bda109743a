//! Composition ending in a sink: a single-sink wrapper and a filter chained into a sink.
use vstd::prelude::*;

use crate::traits::{Filter, Sink};

verus! {

/// A single sink lifted into the composition algebra, behaving as the sink itself.
#[derive(Default, Clone, Debug)]
pub struct UnitPipe<S> {
    sink: S,
}

impl<S> UnitPipe<S> {
    /// Wraps `sink`.
    pub fn new(sink: S) -> (r: Self)
        ensures
            r.inner() == sink,
    {
        UnitPipe { sink }
    }

    /// The wrapped sink.
    pub closed spec fn inner(&self) -> S {
        self.sink
    }
}

impl<I, S: Sink<I>> Sink<I> for UnitPipe<S> {
    type Output = S::Output;

    open spec fn sink_ok(&self, input: I) -> bool {
        self.inner().sink_ok(input)
    }

    open spec fn sink_post(&self, input: I, next: Self) -> bool {
        self.inner().sink_post(input, next.inner())
    }

    open spec fn finalize_ok(&self) -> bool {
        self.inner().finalize_ok()
    }

    open spec fn finalize_post(&self, output: S::Output) -> bool {
        self.inner().finalize_post(output)
    }

    fn sink(&mut self, input: I) {
        self.sink.sink(input)
    }

    fn finalize(self) -> (r: S::Output) {
        self.sink.finalize()
    }
}

/// A sink used as a filter: each input is accumulated, and the output is `()`.
impl<I, S: Sink<I>> Filter<I> for UnitPipe<S> {
    type Output = ();

    open spec fn filter_ok(&self, input: I) -> bool {
        self.inner().sink_ok(input)
    }

    open spec fn filter_post(&self, input: I, next: Self, output: ()) -> bool {
        self.inner().sink_post(input, next.inner())
    }

    open spec fn reset_post(&self, next: Self) -> bool {
        next == *self
    }

    fn filter(&mut self, input: I) -> (r: ()) {
        self.sink.sink(input)
    }

    /// A sink has no reset: accumulated inputs stay until it is finalized.
    fn reset(&mut self) {
    }

    fn phase_shift(&self) -> (r: isize) {
        0
    }
}

/// A filter chained into a sink: the whole is a sink, finalized at its tail.
#[derive(Clone, Debug)]
pub struct Pipe<F, S> {
    filter: F,
    sink: S,
}

impl<F, S> Pipe<F, S> {
    /// Links `filter` to `sink`.
    pub fn new(filter: F, sink: S) -> (r: Self)
        ensures
            r.first() == filter,
            r.second() == sink,
    {
        Pipe { filter, sink }
    }

    /// The filter stage.
    pub closed spec fn first(&self) -> F {
        self.filter
    }

    /// The sink stage.
    pub closed spec fn second(&self) -> S {
        self.sink
    }
}

impl<I, F: Filter<I>, S: Sink<F::Output>> Sink<I> for Pipe<F, S> {
    type Output = S::Output;

    /// The filter accepts `input`, and the sink accepts whatever the filter may produce.
    open spec fn sink_ok(&self, input: I) -> bool {
        &&& self.first().filter_ok(input)
        &&& forall|f: F, x: F::Output|
            #[trigger] self.first().filter_post(input, f, x) ==> self.second().sink_ok(x)
    }

    /// Some intermediate value `x` is what the filter made of `input` and what the sink took in.
    open spec fn sink_post(&self, input: I, next: Self) -> bool {
        exists|x: F::Output|
            #[trigger] self.first().filter_post(input, next.first(), x) && self.second().sink_post(
                x,
                next.second(),
            )
    }

    open spec fn finalize_ok(&self) -> bool {
        self.second().finalize_ok()
    }

    open spec fn finalize_post(&self, output: S::Output) -> bool {
        self.second().finalize_post(output)
    }

    fn sink(&mut self, input: I) {
        let x = self.filter.filter(input);
        self.sink.sink(x);
        assert(old(self).first().filter_post(input, self.first(), x));
    }

    fn finalize(self) -> (r: S::Output) {
        self.sink.finalize()
    }
}

} // verus!
