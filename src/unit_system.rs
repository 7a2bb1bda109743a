//! A wrapper that lets a filter on plain values act on values carrying units.
//!
//! The wrapper applies its inner filter to the value without units; the units
//! themselves pass through unchanged.
use vstd::prelude::*;

use crate::traits::Filter;

verus! {

/// A filter on plain values, to be applied to the value inside a quantity with units.
#[derive(Clone, Debug)]
pub struct UnitSystem<T> {
    /// The inner filter.
    pub inner: T,
}

impl<T> UnitSystem<T> {
    /// Wraps `inner`.
    pub fn new(inner: T) -> (r: Self)
        ensures
            r.inner == inner,
    {
        UnitSystem { inner }
    }

    /// Filters the value of a quantity, its units set aside.
    pub fn filter_value<V>(&mut self, value: V) -> (r: V)
        where
            T: Filter<V, Output = V>,
        requires
            old(self).inner.filter_ok(value),
        ensures
            old(self).inner.filter_post(value, final(self).inner, r),
    {
        self.inner.filter(value)
    }
}

impl<T> From<T> for UnitSystem<T> {
    fn from(inner: T) -> (r: Self) {
        UnitSystem { inner }
    }
}

impl<T> vstd::std_specs::convert::FromSpecImpl<T> for UnitSystem<T> {
    open spec fn obeys_from_spec() -> bool {
        true
    }

    open spec fn from_spec(inner: T) -> Self {
        UnitSystem { inner }
    }
}

} // verus!
