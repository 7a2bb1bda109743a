//! The arithmetic capability that the estimators ask of their values.
//!
//! A value type needs `+ - * /`, an order, and the small constants 0 and 1
//! (taken from `i8`). Where Verus has a specification for all of them (the
//! primitive signed integers) the estimators' contracts pin their results
//! exactly; for other types (floating point) the contracts say nothing about
//! the values, and the code runs all the same.
use vstd::prelude::*;

use core::ops::{Add, Div, Mul, Sub};

verus! {

use vstd::std_specs::cmp::PartialOrdSpec;
use vstd::std_specs::convert::FromSpec;
use vstd::std_specs::ops::{AddSpec, DivSpec, MulSpec, SubSpec};
use core::cmp::Ordering;

/// A value type with field operations, an order, and the constants 0 and 1.
pub trait Number: Copy + Add<Output = Self> + Sub<Output = Self> + Mul<Output = Self> + Div<
    Output = Self,
> + PartialOrd + From<i8> {

}

impl<T> Number for T where
    T: Copy + Add<Output = T> + Sub<Output = T> + Mul<Output = T> + Div<Output = T> + PartialOrd
        + From<i8>,
 {

}

/// Whether every operation of `T` that the estimators use has a specification.
pub open spec fn exact<T: Number>() -> bool {
    &&& T::obeys_add_spec()
    &&& T::obeys_sub_spec()
    &&& T::obeys_mul_spec()
    &&& T::obeys_div_spec()
    &&& T::obeys_partial_cmp_spec()
    &&& <T as FromSpec<i8>>::obeys_from_spec()
}

/// The value 0 of `T`.
pub open spec fn zero<T: Number>() -> T {
    <T as FromSpec<i8>>::from_spec(0i8)
}

/// The value 1 of `T`.
pub open spec fn one<T: Number>() -> T {
    <T as FromSpec<i8>>::from_spec(1i8)
}

/// The absolute value of `x`.
pub open spec fn abs<T: Number>(x: T) -> T {
    if x.partial_cmp_spec(&zero::<T>()) == Some(Ordering::Less) {
        zero::<T>().sub_spec(x)
    } else {
        x
    }
}

/// Whether `abs(x)` can be computed.
pub open spec fn abs_ok<T: Number>(x: T) -> bool {
    x.partial_cmp_spec(&zero::<T>()) == Some(Ordering::Less) ==> zero::<T>().sub_req(x)
}

/// Returns 0.
pub fn zero_of<T: Number>() -> (r: T)
    ensures
        exact::<T>() ==> r == zero::<T>(),
{
    T::from(0i8)
}

/// Returns 1.
pub fn one_of<T: Number>() -> (r: T)
    ensures
        exact::<T>() ==> r == one::<T>(),
{
    T::from(1i8)
}

/// Returns the absolute value of `x`.
pub fn abs_of<T: Number>(x: T) -> (r: T)
    requires
        exact::<T>(),
        abs_ok(x),
    ensures
        r == abs(x),
{
    let z = zero_of::<T>();
    if x < z {
        z - x
    } else {
        x
    }
}

} // verus!
