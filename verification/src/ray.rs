use vstd::prelude::*;
use crate::float::Float;
use crate::vec3::Vec3;

verus! {

/// A half-line: the points `origin + t * direction`.  The direction is taken as
/// it is given, whatever its length.
#[derive(Clone, Copy, Debug, PartialEq)]
pub struct Ray<T> {
    pub origin: Vec3<T>,
    pub direction: Vec3<T>,
}

impl<T: Float> core::default::Default for Ray<T> {
    fn default() -> (r: Ray<T>)
        ensures
            r == (Ray { origin: Vec3::<T>::spec_zero(), direction: Vec3::<T>::spec_zero() }),
    {
        Ray { origin: Vec3::default(), direction: Vec3::default() }
    }
}

impl<T: Float> Ray<T> {
    /// The point at parameter `t`.
    pub open spec fn spec_at(self, t: T) -> Vec3<T> {
        self.origin.spec_add(self.direction.spec_mul(t))
    }

    pub fn new(origin: Vec3<T>, direction: Vec3<T>) -> (r: Self)
        ensures
            r == (Ray { origin, direction }),
    {
        Ray { origin, direction }
    }

    pub fn at(&self, t: T) -> (r: Vec3<T>)
        ensures
            r == self.spec_at(t),
    {
        self.origin.add(self.direction.mul(t))
    }
}

} // verus!
