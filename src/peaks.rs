//! Peak classification: local maxima and minima, from consecutive slopes.
use vstd::prelude::*;

use crate::slopes::{Config as SlopesConfig, Slope, Slopes, slope_classes, slope_index, comparable};
use crate::traits::Filter;

verus! {

use vstd::std_specs::cmp::PartialOrdSpec;

/// A peak's kind.
#[derive(Copy, Clone, PartialEq, Eq, Debug)]
pub enum Peak {
    /// A local maximum.
    Max,
    /// Neither a maximum nor a minimum.
    Neither,
    /// A local minimum.
    Min,
}

impl Default for Peak {
    fn default() -> (r: Self)
        ensures
            r == Peak::Neither,
    {
        Peak::Neither
    }
}

impl Peak {
    /// The classes in positional order `[max, neither, min]`.
    pub fn classes() -> (r: [Peak; 3])
        ensures
            r@ == peak_classes(),
    {
        [Peak::Max, Peak::Neither, Peak::Min]
    }
}

/// The peak classes in positional order.
pub open spec fn peak_classes() -> Seq<Peak> {
    seq![Peak::Max, Peak::Neither, Peak::Min]
}

/// The position of the class of the current slope `slope` after the previous one `prev`:
/// 0 (a maximum: rising, then falling), 2 (a minimum: falling, then rising), else 1.
pub open spec fn peak_index(prev: Option<Slope>, slope: Slope) -> int {
    match (prev, slope) {
        (Option::Some(Slope::Rising), Slope::Falling) => 0,
        (Option::Some(Slope::Falling), Slope::Rising) => 2,
        _ => 1,
    }
}

/// The peak detection filter's configuration.
#[derive(Clone, Debug)]
pub struct Config<U> {
    /// `[max, neither, min]` outputs.
    pub outputs: [U; 3],
}

/// The peak detection filter's state.
#[derive(Clone, Debug)]
pub struct State<T> {
    /// The slope classifier that the inputs go through.
    pub slopes: Slopes<T, Slope>,
    /// The previous slope, if any.
    pub slope: Option<Slope>,
}

/// A peak detection filter.
#[derive(Clone, Debug)]
pub struct Peaks<T, U> {
    config: Config<U>,
    state: State<T>,
}

impl<T, U: Copy> Peaks<T, U> {
    /// Creates a filter with `[max, neither, min]` outputs and an empty history.
    pub fn with_config(config: Config<U>) -> (r: Self)
        ensures
            r.wf(),
            r.outputs() == config.outputs@,
            r.last_input() is None,
            r.last_slope() is None,
    {
        let state = Self::initial_state(&config);
        Peaks { config, state }
    }

    /// The state a filter with `config` starts from.
    pub fn initial_state(config: &Config<U>) -> (r: State<T>)
        ensures
            r.slopes.outputs() == slope_classes(),
            r.slopes.last() is None,
            r.slope is None,
    {
        let slopes = Slopes::new(SlopesConfig { outputs: Slope::classes() });
        State { slopes, slope: Option::None }
    }

    pub closed spec fn wf(&self) -> bool {
        self.state.slopes.outputs() == slope_classes()
    }

    pub closed spec fn outputs(&self) -> Seq<U> {
        self.config.outputs@
    }

    /// The previous input, if any.
    pub closed spec fn last_input(&self) -> Option<T> {
        self.state.slopes.last()
    }

    /// The previous slope, if any.
    pub closed spec fn last_slope(&self) -> Option<Slope> {
        self.state.slope
    }

    /// The configuration.
    pub fn config(&self) -> (r: &Config<U>)
        ensures
            r.outputs@ == self.outputs(),
    {
        &self.config
    }

    /// The output position for the current slope, given the previous one.
    fn classify(&self, slope: Slope) -> (r: usize)
        ensures
            r == peak_index(self.last_slope(), slope),
    {
        match (self.state.slope, slope) {
            (Option::Some(Slope::Rising), Slope::Falling) => 0,
            (Option::Some(Slope::Falling), Slope::Rising) => 2,
            _ => 1,
        }
    }

    fn reset_state(&mut self)
        ensures
            final(self).wf(),
            final(self).outputs() == old(self).outputs(),
            final(self).last_input() is None,
            final(self).last_slope() is None,
    {
        self.state = Self::initial_state(&self.config);
    }
}

impl<T: PartialOrd, U: Copy> Filter<T> for Peaks<T, U> {
    type Output = U;

    open spec fn filter_ok(&self, input: T) -> bool {
        &&& self.wf()
        &&& T::obeys_partial_cmp_spec()
        &&& comparable(self.last_input(), input)
    }

    open spec fn filter_post(&self, input: T, next: Self, output: U) -> bool {
        let slope = slope_classes()[slope_index(self.last_input(), input)];
        &&& next.wf()
        &&& next.outputs() == self.outputs()
        &&& next.last_input() == Option::Some(input)
        &&& next.last_slope() == Option::Some(slope)
        &&& output == self.outputs()[peak_index(self.last_slope(), slope)]
    }

    fn filter(&mut self, input: T) -> (r: U) {
        let slope = self.state.slopes.filter(input);
        let index = self.classify(slope);
        self.state.slope = Option::Some(slope);
        self.config.outputs[index]
    }

    open spec fn reset_post(&self, next: Self) -> bool {
        &&& next.wf()
        &&& next.outputs() == self.outputs()
        &&& next.last_input() is None
        &&& next.last_slope() is None
    }

    fn reset(&mut self) {
        self.reset_state();
    }

    fn phase_shift(&self) -> (r: isize) {
        0
    }
}

impl<U: Copy> Filter<Slope> for Peaks<Slope, U> {
    type Output = U;

    open spec fn filter_ok(&self, slope: Slope) -> bool {
        self.wf()
    }

    open spec fn filter_post(&self, slope: Slope, next: Self, output: U) -> bool {
        &&& next.wf()
        &&& next.outputs() == self.outputs()
        &&& next.last_input() == Option::Some(slope)
        &&& next.last_slope() == Option::Some(slope)
        &&& output == self.outputs()[peak_index(self.last_slope(), slope)]
    }

    fn filter(&mut self, slope: Slope) -> (r: U) {
        let index = self.classify(slope);
        self.state.slopes.force_last(Option::Some(slope));
        self.state.slope = Option::Some(slope);
        self.config.outputs[index]
    }

    open spec fn reset_post(&self, next: Self) -> bool {
        &&& next.wf()
        &&& next.outputs() == self.outputs()
        &&& next.last_input() is None
        &&& next.last_slope() is None
    }

    fn reset(&mut self) {
        self.reset_state();
    }

    fn phase_shift(&self) -> (r: isize) {
        0
    }
}

} // verus!
