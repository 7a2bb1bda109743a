//! An unbounded mean and variance sink (Welford's algorithm).
use vstd::prelude::*;

use crate::numeric::{Number, exact, one, one_of, zero, zero_of};
use crate::traits::Sink;

verus! {

use vstd::std_specs::cmp::PartialOrdSpec;
use vstd::std_specs::ops::{AddSpec, DivSpec, MulSpec, SubSpec};
use core::cmp::Ordering;

/// The running figures: how many values, their mean, and the sum of squared deviations.
#[derive(Clone, Copy, Debug)]
struct State<T> {
    count: T,
    mean: T,
    variance: T,
}

/// The running figures `(count, mean, sum of squared deviations)` after `input`.
pub open spec fn welford_next<T: Number>(figures: Option<(T, T, T)>, input: T) -> (T, T, T) {
    let (count, mean, sum_sq) = match figures {
        Option::Some(f) => f,
        Option::None => (zero::<T>(), zero::<T>(), zero::<T>()),
    };
    let new_count = count.add_spec(one::<T>());
    let delta_before = input.sub_spec(mean);
    let new_mean = mean.add_spec(delta_before.div_spec(new_count));
    let delta_after = input.sub_spec(new_mean);
    (new_count, new_mean, sum_sq.add_spec(delta_before.mul_spec(delta_after)))
}

/// Whether every operation of `welford_next` can be carried out.
pub open spec fn welford_ok<T: Number>(figures: Option<(T, T, T)>, input: T) -> bool {
    let (count, mean, sum_sq) = match figures {
        Option::Some(f) => f,
        Option::None => (zero::<T>(), zero::<T>(), zero::<T>()),
    };
    let new_count = count.add_spec(one::<T>());
    let delta_before = input.sub_spec(mean);
    let new_mean = mean.add_spec(delta_before.div_spec(new_count));
    let delta_after = input.sub_spec(new_mean);
    &&& exact::<T>()
    &&& count.add_req(one::<T>())
    &&& input.sub_req(mean)
    &&& delta_before.div_req(new_count)
    &&& mean.add_req(delta_before.div_spec(new_count))
    &&& input.sub_req(new_mean)
    &&& delta_before.mul_req(delta_after)
    &&& sum_sq.add_req(delta_before.mul_spec(delta_after))
}

/// The summary of the running figures: `(mean, sum_sq / (count - 1))` when more
/// than one value was seen, `(mean, sum_sq)` otherwise.
pub open spec fn welford_summary<T: Number>(figures: (T, T, T)) -> (T, T) {
    let (count, mean, sum_sq) = figures;
    if count.partial_cmp_spec(&one::<T>()) == Some(Ordering::Greater) {
        (mean, sum_sq.div_spec(count.sub_spec(one::<T>())))
    } else {
        (mean, sum_sq)
    }
}

/// Whether `welford_summary` can be computed.
pub open spec fn welford_summary_ok<T: Number>(figures: (T, T, T)) -> bool {
    let (count, mean, sum_sq) = figures;
    &&& exact::<T>()
    &&& count.partial_cmp_spec(&one::<T>()) == Some(Ordering::Greater) ==> {
        &&& count.sub_req(one::<T>())
        &&& sum_sq.div_req(count.sub_spec(one::<T>()))
    }
}

/// A sink computing the mean and variance of all the values it receives.
#[derive(Clone, Debug)]
pub struct MeanVariance<T> {
    state: Option<State<T>>,
}

impl<T: Number> MeanVariance<T> {
    /// Creates a sink that has seen no value.
    pub fn new() -> (r: Self)
        ensures
            r.figures() is None,
    {
        MeanVariance { state: None }
    }

    /// The running figures `(count, mean, sum of squared deviations)`, once a value was seen.
    pub closed spec fn figures(&self) -> Option<(T, T, T)> {
        match self.state {
            Option::Some(s) => Some((s.count, s.mean, s.variance)),
            Option::None => None,
        }
    }
}

impl<T: Number> Default for MeanVariance<T> {
    fn default() -> (r: Self)
        ensures
            r.figures() is None,
    {
        Self::new()
    }
}

impl<T: Number> Sink<T> for MeanVariance<T> {
    type Output = Option<(T, T)>;

    open spec fn sink_ok(&self, input: T) -> bool {
        welford_ok(self.figures(), input)
    }

    open spec fn finalize_ok(&self) -> bool {
        match self.figures() {
            Option::Some(f) => welford_summary_ok(f),
            Option::None => true,
        }
    }

    open spec fn sink_post(&self, input: T, next: Self) -> bool {
        next.figures() == Some(welford_next(self.figures(), input))
    }

    open spec fn finalize_post(&self, output: Option<(T, T)>) -> bool {
        output == match self.figures() {
            Option::Some(f) => Some(welford_summary(f)),
            Option::None => None,
        }
    }

    fn sink(&mut self, input: T) {
        let (old_count, old_mean, old_variance) = match self.state {
            Some(State { count, mean, variance }) => (count, mean, variance),
            None => (zero_of::<T>(), zero_of::<T>(), zero_of::<T>()),
        };
        let count = old_count + one_of();
        let mean = old_mean + ((input - old_mean) / count);
        let old_delta = input - old_mean;
        let delta = input - mean;
        let variance = old_variance + (old_delta * delta);
        self.state = Some(State { count, mean, variance });
    }

    fn finalize(self) -> (r: Option<(T, T)>) {
        match self.state {
            Some(State { count, mean, variance }) => {
                let one = one_of::<T>();
                let variance = if count > one {
                    variance / (count - one)
                } else {
                    variance
                };
                Some((mean, variance))
            },
            None => None,
        }
    }
}

} // verus!
