//! Slope classification: rising, flat or falling, relative to the previous input.
use vstd::prelude::*;

use crate::traits::Filter;

verus! {

use vstd::std_specs::cmp::PartialOrdSpec;
use core::cmp::Ordering;

/// A slope's kind.
#[derive(Copy, Clone, PartialEq, Eq, Debug)]
pub enum Slope {
    /// A rising slope.
    Rising,
    /// A flat slope.
    Flat,
    /// A falling slope.
    Falling,
}

impl Default for Slope {
    fn default() -> (r: Self)
        ensures
            r == Slope::Flat,
    {
        Slope::Flat
    }
}

impl Slope {
    /// The classes in positional order `[rising, flat, falling]`.
    pub fn classes() -> (r: [Slope; 3])
        ensures
            r@ == slope_classes(),
    {
        [Slope::Rising, Slope::Flat, Slope::Falling]
    }
}

/// The slope classes in positional order.
pub open spec fn slope_classes() -> Seq<Slope> {
    seq![Slope::Rising, Slope::Flat, Slope::Falling]
}

/// The position of the class that `input` falls in after `last`:
/// 0 (rising), 1 (flat, or no previous input) or 2 (falling).
pub open spec fn slope_index<T: PartialOrd>(last: Option<T>, input: T) -> int {
    match last {
        Option::None => 1,
        Option::Some(l) => match l.partial_cmp_spec(&input) {
            Option::Some(Ordering::Less) => 0,
            Option::Some(Ordering::Equal) => 1,
            _ => 2,
        },
    }
}

/// Whether `input` can be ordered against `last` (trivially so without a last input).
pub open spec fn comparable<T: PartialOrd>(last: Option<T>, input: T) -> bool {
    match last {
        Option::None => true,
        Option::Some(l) => l.partial_cmp_spec(&input) is Some,
    }
}

/// The slope detection filter's configuration.
#[derive(Clone, Debug)]
pub struct Config<U> {
    /// `[rising, flat, falling]` outputs.
    pub outputs: [U; 3],
}

/// The slope detection filter's state.
#[derive(Clone, Debug)]
pub struct State<T> {
    /// The previous input, if any.
    pub input: Option<T>,
}

/// A slope detection filter.
#[derive(Clone, Debug)]
pub struct Slopes<T, U> {
    config: Config<U>,
    state: State<T>,
}

impl<T, U: Copy> Slopes<T, U> {
    /// Creates a filter with `[rising, flat, falling]` outputs and no previous input.
    pub fn new(config: Config<U>) -> (r: Self)
        ensures
            r.outputs() == config.outputs@,
            r.last() is None,
    {
        let state = Self::initial_state(&config);
        Slopes { config, state }
    }

    /// The state a filter with `config` starts from.
    pub fn initial_state(config: &Config<U>) -> (r: State<T>)
        ensures
            r.input is None,
    {
        State { input: Option::None }
    }

    pub closed spec fn outputs(&self) -> Seq<U> {
        self.config.outputs@
    }

    /// The previous input, if any.
    pub closed spec fn last(&self) -> Option<T> {
        self.state.input
    }

    /// The configuration.
    pub fn config(&self) -> (r: &Config<U>)
        ensures
            r.outputs@ == self.outputs(),
    {
        &self.config
    }

    /// Replaces the previous input that the next one is compared against.
    pub fn force_last(&mut self, input: Option<T>)
        ensures
            final(self).outputs() == old(self).outputs(),
            final(self).last() == input,
    {
        self.state.input = input;
    }
}

impl<T: PartialOrd, U: Copy> Filter<T> for Slopes<T, U> {
    type Output = U;

    open spec fn filter_ok(&self, input: T) -> bool {
        &&& T::obeys_partial_cmp_spec()
        &&& comparable(self.last(), input)
    }

    open spec fn filter_post(&self, input: T, next: Self, output: U) -> bool {
        &&& next.outputs() == self.outputs()
        &&& next.last() == Option::Some(input)
        &&& output == self.outputs()[slope_index(self.last(), input)]
    }

    fn filter(&mut self, input: T) -> (r: U) {
        let index: usize = match &self.state.input {
            Option::None => 1,
            Option::Some(last) => match last.partial_cmp(&input).unwrap() {
                Ordering::Less => 0,
                Ordering::Equal => 1,
                Ordering::Greater => 2,
            },
        };
        self.state.input = Option::Some(input);
        self.config.outputs[index]
    }

    open spec fn reset_post(&self, next: Self) -> bool {
        &&& next.outputs() == self.outputs()
        &&& next.last() is None
    }

    fn reset(&mut self) {
        self.state = Self::initial_state(&self.config);
    }

    fn phase_shift(&self) -> (r: isize) {
        0
    }
}

} // verus!
