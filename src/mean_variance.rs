//! A bounded moving mean and variance over the last `N` inputs.
use vstd::prelude::*;

use crate::mean::Mean;
use crate::numeric::{Number, abs, abs_of, abs_ok, exact, zero};
use crate::traits::Filter;

verus! {

use vstd::std_specs::ops::{MulSpec, SubSpec};

/// The mean/variance filter's state.
#[derive(Clone, Debug)]
pub struct State<T, const N: usize> {
    /// The moving average of the inputs.
    pub mean: Mean<T, N>,
    /// The moving average of the squared deviations.
    pub variance: Mean<T, N>,
}

/// The product of the deviations of `input` from the mean before and after it.
pub open spec fn squared_deviation<T: Number>(input: T, old_mean: T, new_mean: T) -> T {
    abs(input.sub_spec(old_mean)).mul_spec(abs(input.sub_spec(new_mean)))
}

/// Whether `squared_deviation` can be computed.
pub open spec fn squared_deviation_ok<T: Number>(input: T, old_mean: T, new_mean: T) -> bool {
    &&& input.sub_req(old_mean)
    &&& input.sub_req(new_mean)
    &&& abs_ok(input.sub_spec(old_mean))
    &&& abs_ok(input.sub_spec(new_mean))
    &&& abs(input.sub_spec(old_mean)).mul_req(abs(input.sub_spec(new_mean)))
}

/// A filter producing the moving average and variance of a signal, as `(mean, variance)`.
#[derive(Clone, Debug)]
pub struct MeanVariance<T, const N: usize> {
    state: State<T, N>,
}

impl<T: Number, const N: usize> MeanVariance<T, N> {
    /// The state a filter starts from: two empty moving averages.
    pub fn initial_state() -> (r: State<T, N>)
        ensures
            exact::<T>() ==> r.mean.sum() == zero::<T>() && r.mean.weight() == zero::<T>()
                && r.variance.sum() == zero::<T>() && r.variance.weight() == zero::<T>(),
            r.mean.wf(),
            r.variance.wf(),
            r.mean.window() == Seq::<T>::empty(),
            r.variance.window() == Seq::<T>::empty(),
            r.mean.last() is None,
            r.variance.last() is None,
    {
        State { mean: Mean::new(), variance: Mean::new() }
    }

    pub closed spec fn state(&self) -> State<T, N> {
        self.state
    }

    /// The mean that the next input is first compared against: the last one, or else the input.
    pub open spec fn previous_mean(&self, input: T) -> T {
        match self.state().mean.last() {
            Option::Some(m) => m,
            Option::None => input,
        }
    }

    /// The current state.
    pub fn state_ref(&self) -> (r: &State<T, N>)
        ensures
            *r == self.state(),
    {
        &self.state
    }
}

impl<T: Number, const N: usize> Default for MeanVariance<T, N> {
    fn default() -> (r: Self)
        ensures
            exact::<T>() ==> r.state().mean.sum() == zero::<T>() && r.state().mean.weight() == zero::<T>()
                && r.state().variance.sum() == zero::<T>() && r.state().variance.weight() == zero::<T>(),
            r.state().mean.wf(),
            r.state().variance.wf(),
            r.state().mean.window() == Seq::<T>::empty(),
            r.state().variance.window() == Seq::<T>::empty(),
            r.state().mean.last() is None,
            r.state().variance.last() is None,
    {
        MeanVariance { state: Self::initial_state() }
    }
}

impl<T: Number, const N: usize> Filter<T> for MeanVariance<T, N> {
    type Output = (T, T);

    open spec fn filter_ok(&self, input: T) -> bool {
        let new_mean = self.state().mean.mean_after(input);
        &&& self.state().mean.step_ok(input)
        &&& squared_deviation_ok(input, self.previous_mean(input), new_mean)
        &&& self.state().variance.step_ok(
            squared_deviation(input, self.previous_mean(input), new_mean),
        )
    }

    open spec fn filter_post(&self, input: T, next: Self, output: (T, T)) -> bool {
        let squared = squared_deviation(input, self.previous_mean(input), output.0);
        &&& self.state().mean.filter_post(input, next.state().mean, output.0)
        &&& self.state().variance.filter_post(squared, next.state().variance, output.1)
    }

    fn filter(&mut self, input: T) -> (r: (T, T)) {
        let mean_old = match self.state.mean.mean() {
            Some(m) => m,
            None => input,
        };
        let mean_new = self.state.mean.filter(input);
        let deviation_old = abs_of(input - mean_old);
        let deviation_new = abs_of(input - mean_new);
        let squared = deviation_old * deviation_new;
        let variance = self.state.variance.filter(squared);
        (mean_new, variance)
    }

    open spec fn reset_post(&self, next: Self) -> bool {
        &&& (exact::<T>() ==> {
            &&& next.state().mean.sum() == zero::<T>()
            &&& next.state().mean.weight() == zero::<T>()
            &&& next.state().variance.sum() == zero::<T>()
            &&& next.state().variance.weight() == zero::<T>()
        })
        &&& next.state().mean.wf()
        &&& next.state().variance.wf()
        &&& next.state().mean.window() == Seq::<T>::empty()
        &&& next.state().variance.window() == Seq::<T>::empty()
        &&& next.state().mean.last() is None
        &&& next.state().variance.last() is None
    }

    fn reset(&mut self) {
        self.state = Self::initial_state();
    }

    fn phase_shift(&self) -> (r: isize) {
        0
    }
}

} // verus!
