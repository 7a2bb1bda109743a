//! Composition starting at a source: a single-source wrapper and a source chained into a filter.
use vstd::prelude::*;

use crate::traits::{Filter, Source};

verus! {

/// A single source lifted into the composition algebra, behaving as the source itself.
#[derive(Default, Clone, Debug)]
pub struct UnitPipe<S> {
    source: S,
}

impl<S> UnitPipe<S> {
    /// Wraps `source`.
    pub fn new(source: S) -> (r: Self)
        ensures
            r.inner() == source,
    {
        UnitPipe { source }
    }

    /// The wrapped source.
    pub closed spec fn inner(&self) -> S {
        self.source
    }
}

impl<S: Source> Source for UnitPipe<S> {
    type Output = S::Output;

    open spec fn source_ok(&self) -> bool {
        self.inner().source_ok()
    }

    open spec fn source_post(&self, next: Self, output: Option<S::Output>) -> bool {
        self.inner().source_post(next.inner(), output)
    }

    fn source(&mut self) -> (r: Option<S::Output>) {
        self.source.source()
    }
}

/// A source chained into a filter: each produced value goes through the filter.
#[derive(Clone, Debug)]
pub struct Pipe<S, F> {
    source: S,
    filter: F,
}

impl<S, F> Pipe<S, F> {
    /// Links `source` to `filter`.
    pub fn new(source: S, filter: F) -> (r: Self)
        ensures
            r.first() == source,
            r.second() == filter,
    {
        Pipe { source, filter }
    }

    /// The source stage.
    pub closed spec fn first(&self) -> S {
        self.source
    }

    /// The filter stage.
    pub closed spec fn second(&self) -> F {
        self.filter
    }
}

impl<S: Source, F: Filter<S::Output>> Source for Pipe<S, F> {
    type Output = F::Output;

    /// The source may be pulled, and the filter accepts whatever it may produce.
    open spec fn source_ok(&self) -> bool {
        &&& self.first().source_ok()
        &&& forall|s: S, x: S::Output|
            #[trigger] self.first().source_post(s, Some(x)) ==> self.second().filter_ok(x)
    }

    /// An exhausted source ends the chain; otherwise the filter took in what the source produced.
    open spec fn source_post(&self, next: Self, output: Option<F::Output>) -> bool {
        ||| self.first().source_post(next.first(), None) && next.second() == self.second()
            && output is None
        ||| exists|x: S::Output|
            #[trigger] self.first().source_post(next.first(), Some(x)) && output is Some
                && self.second().filter_post(x, next.second(), output->Some_0)
    }

    fn source(&mut self) -> (r: Option<F::Output>) {
        match self.source.source() {
            Some(x) => {
                let y = self.filter.filter(x);
                assert(old(self).first().source_post(self.first(), Some(x)));
                Some(y)
            },
            None => None,
        }
    }
}

} // verus!
