use vstd::prelude::*;
use crate::float::{le, lt, max, maximum, min, minimum, Float};

verus! {

/// The numbers from `min` to `max`.  With `min` above `max` it holds none.
#[derive(Clone, Copy, Debug, PartialEq)]
pub struct Interval<T> {
    pub min: T,
    pub max: T,
}

impl<T: Float> core::default::Default for Interval<T> {
    fn default() -> (r: Interval<T>)
        ensures
            r == Interval::<T>::spec_universe(),
    {
        Interval::universe()
    }
}

impl<T: Float> Interval<T> {
    /// The interval that holds no number, from infinity down to minus infinity.
    pub open spec fn spec_empty() -> Self {
        Interval { min: T::infinity_spec(), max: T::infinity_spec().neg_spec() }
    }

    /// The interval from minus infinity to infinity.
    pub open spec fn spec_universe() -> Self {
        Interval { min: T::infinity_spec().neg_spec(), max: T::infinity_spec() }
    }

    pub open spec fn spec_size(self) -> T {
        self.max.sub_spec(self.min)
    }

    /// Whether `x` lies in the interval, its ends included.
    pub open spec fn spec_contains(self, x: T) -> bool {
        le(self.min, x) && le(x, self.max)
    }

    /// Whether `x` lies in the interval, its ends left out.
    pub open spec fn spec_surrounds(self, x: T) -> bool {
        lt(self.min, x) && lt(x, self.max)
    }

    /// The number of the interval nearest to `x`.
    pub open spec fn spec_clamp(self, x: T) -> T {
        maximum(self.min, minimum(self.max, x))
    }

    pub fn new(min: T, max: T) -> (r: Self)
        ensures
            r == (Interval { min, max }),
    {
        Interval { min, max }
    }

    pub fn size(&self) -> (r: T)
        ensures
            r == self.spec_size(),
    {
        self.max.sub(self.min)
    }

    pub fn contains(&self, x: T) -> (r: bool)
        ensures
            r == self.spec_contains(x),
    {
        self.min.le(x) && x.le(self.max)
    }

    pub fn surrounds(&self, x: T) -> (r: bool)
        ensures
            r == self.spec_surrounds(x),
    {
        self.min.lt(x) && x.lt(self.max)
    }

    pub fn clamp(&self, x: T) -> (r: T)
        ensures
            r == self.spec_clamp(x),
    {
        max(self.min, min(self.max, x))
    }

    pub fn empty() -> (r: Self)
        ensures
            r == Self::spec_empty(),
    {
        Interval { min: T::infinity(), max: T::infinity().neg() }
    }

    pub fn universe() -> (r: Self)
        ensures
            r == Self::spec_universe(),
    {
        Interval { min: T::infinity().neg(), max: T::infinity() }
    }
}

} // verus!
