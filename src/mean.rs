//! A bounded moving average over the last `N` inputs.
use vstd::prelude::*;

use crate::circular_buffer::CircularBuffer;
use crate::numeric::{Number, exact, one, one_of, zero, zero_of};
use crate::traits::Filter;

verus! {

use vstd::std_specs::ops::{AddSpec, DivSpec, SubSpec};

/// A moving average: the running sum of the window divided by a weight that
/// ramps up from 1 to `N` while the window fills.
#[derive(Clone, Debug)]
pub struct Mean<T, const N: usize> {
    buffer: CircularBuffer<T, N>,
    sum: T,
    weight: T,
    mean: Option<T>,
}

impl<T: Number, const N: usize> Mean<T, N> {
    /// Creates a filter with an empty window.
    pub fn new() -> (r: Self)
        ensures
            r.wf(),
            r.window() == Seq::<T>::empty(),
            r.last() is None,
            exact::<T>() ==> r.sum() == zero::<T>() && r.weight() == zero::<T>(),
    {
        Mean { buffer: CircularBuffer::new(), sum: zero_of(), weight: zero_of(), mean: None }
    }

    pub closed spec fn wf(&self) -> bool {
        self.buffer.wf()
    }

    /// The window never holds more than `N` inputs.
    pub proof fn lemma_window_bound(&self)
        requires
            self.wf(),
        ensures
            self.window().len() <= N,
    {
        self.buffer.lemma_len_at_most_capacity();
    }

    /// The inputs in the window, oldest first.
    pub closed spec fn window(&self) -> Seq<T> {
        self.buffer@
    }

    /// The running sum of the window.
    pub closed spec fn sum(&self) -> T {
        self.sum
    }

    /// The current weight (the divisor).
    pub closed spec fn weight(&self) -> T {
        self.weight
    }

    /// The last output, if any.
    pub closed spec fn last(&self) -> Option<T> {
        self.mean
    }

    /// Whether the window holds `N` inputs.
    pub open spec fn is_full(&self) -> bool {
        self.window().len() == N
    }

    /// The window after `input`.
    pub open spec fn window_after(&self, input: T) -> Seq<T> {
        if self.is_full() {
            self.window().drop_first().push(input)
        } else {
            self.window().push(input)
        }
    }

    /// The running sum after `input`: the evicted input (if any) out, `input` in.
    pub open spec fn sum_after(&self, input: T) -> T {
        if self.is_full() {
            self.sum().sub_spec(self.window()[0]).add_spec(input)
        } else {
            self.sum().add_spec(input)
        }
    }

    /// The weight after `input`: one more while the window fills.
    pub open spec fn weight_after(&self) -> T {
        if self.is_full() {
            self.weight()
        } else {
            self.weight().add_spec(one::<T>())
        }
    }

    /// The output for `input`.
    pub open spec fn mean_after(&self, input: T) -> T {
        self.sum_after(input).div_spec(self.weight_after())
    }

    /// Whether every operation of the step on `input` can be carried out.
    pub open spec fn step_ok(&self, input: T) -> bool {
        &&& N > 0
        &&& self.wf()
        &&& exact::<T>()
        &&& if self.is_full() {
            &&& self.sum().sub_req(self.window()[0])
            &&& self.sum().sub_spec(self.window()[0]).add_req(input)
        } else {
            &&& self.sum().add_req(input)
            &&& self.weight().add_req(one::<T>())
        }
        &&& self.sum_after(input).div_req(self.weight_after())
    }

    /// The last output, if any.
    pub fn mean(&self) -> (r: Option<T>)
        ensures
            r == self.last(),
    {
        self.mean
    }
}

impl<T: Number, const N: usize> Default for Mean<T, N> {
    fn default() -> (r: Self)
        ensures
            r.wf(),
            r.window() == Seq::<T>::empty(),
            r.last() is None,
            exact::<T>() ==> r.sum() == zero::<T>() && r.weight() == zero::<T>(),
    {
        Self::new()
    }
}

impl<T: Number, const N: usize> Filter<T> for Mean<T, N> {
    type Output = T;

    open spec fn filter_ok(&self, input: T) -> bool {
        self.step_ok(input)
    }

    open spec fn filter_post(&self, input: T, next: Self, output: T) -> bool {
        &&& next.wf()
        &&& next.window() == self.window_after(input)
        &&& next.sum() == self.sum_after(input)
        &&& next.weight() == self.weight_after()
        &&& output == self.mean_after(input)
        &&& next.last() == Some(output)
    }

    fn filter(&mut self, input: T) -> (r: T) {
        let ghost before = *self;
        proof {
            self.buffer.lemma_len_at_most_capacity();
        }
        let (sum, weight) = match self.buffer.push_back(input) {
            Some(evicted) => {
                assert(before.is_full());
                assert(evicted == before.window()[0]);
                ((self.sum - evicted) + input, self.weight)
            },
            None => (self.sum + input, self.weight + one_of()),
        };
        self.sum = sum;
        self.weight = weight;
        let mean = sum / weight;
        self.mean = Some(mean);
        mean
    }

    open spec fn reset_post(&self, next: Self) -> bool {
        &&& next.wf()
        &&& next.window() == Seq::<T>::empty()
        &&& next.last() is None
        &&& (exact::<T>() ==> next.sum() == zero::<T>() && next.weight() == zero::<T>())
    }

    fn reset(&mut self) {
        *self = Self::new();
    }

    fn phase_shift(&self) -> (r: isize) {
        0
    }
}

} // verus!
