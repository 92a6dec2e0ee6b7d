use vstd::prelude::*;
use crate::float::{lt, max, maximum, zero, Float};
use crate::hittable::{HitRecord, Hittable};
use crate::interval::Interval;
use crate::material::MaterialKind;
use crate::ray::Ray;
use crate::vec3::Vec3;

verus! {

/// A sphere of one material.  Its radius is not below zero, and a sphere whose
/// radius is not above zero is never hit.
#[derive(Clone, Copy, Debug, PartialEq)]
pub struct Sphere<T> {
    pub center: Vec3<T>,
    pub radius: T,
    pub material: MaterialKind<T>,
}

impl<T: Float> Sphere<T> {
    /// The radius of a sphere made with `radius`: zero where `radius` is below it.
    pub open spec fn spec_radius(radius: T) -> T {
        maximum(radius, T::from_i64_spec(0))
    }

    /// From the ray's origin to the centre.
    pub open spec fn to_center(self, ray: Ray<T>) -> Vec3<T> {
        self.center.spec_sub(ray.origin)
    }

    /// `h = d . oc`, a quarter of the linear term of `|o + t d - c|^2 = r^2`,
    /// sign turned.
    pub open spec fn half_b(self, ray: Ray<T>) -> T {
        ray.direction.spec_dot(self.to_center(ray))
    }

    /// `h^2 - a c` with `a = d . d` and `c = oc . oc - r^2`: a quarter of the
    /// discriminant of `|o + t d - c|^2 = r^2`.
    pub open spec fn discriminant(self, ray: Ray<T>) -> T {
        let oc = self.to_center(ray);
        let a = ray.direction.spec_len_squared();
        let h = self.half_b(ray);
        let c = oc.spec_len_squared().sub_spec(self.radius.mul_spec(self.radius));
        h.mul_spec(h).sub_spec(a.mul_spec(c))
    }

    /// The smaller solution, `(h - sqrt(discriminant)) / a`.
    pub open spec fn near_root(self, ray: Ray<T>) -> T {
        self.half_b(ray).sub_spec(self.discriminant(ray).sqrt_spec()).div_spec(
            ray.direction.spec_len_squared(),
        )
    }

    /// The larger solution, `(h + sqrt(discriminant)) / a`.
    pub open spec fn far_root(self, ray: Ray<T>) -> T {
        self.half_b(ray).add_spec(self.discriminant(ray).sqrt_spec()).div_spec(
            ray.direction.spec_len_squared(),
        )
    }

    /// The parameter at which the ray hits: the smaller solution where the
    /// interval surrounds it, else the larger one where the interval surrounds
    /// that; nothing where the radius is not above zero, the discriminant is
    /// negative or neither solution is surrounded.
    pub open spec fn root(self, ray: Ray<T>, interval: Interval<T>) -> Option<T> {
        if !lt(T::from_i64_spec(0), self.radius) {
            None
        } else if lt(self.discriminant(ray), T::from_i64_spec(0)) {
            None
        } else if interval.spec_surrounds(self.near_root(ray)) {
            Some(self.near_root(ray))
        } else if interval.spec_surrounds(self.far_root(ray)) {
            Some(self.far_root(ray))
        } else {
            None
        }
    }

    /// The record of the hit at parameter `t`: the point of the ray there, and
    /// as outward normal the line from the centre to it, divided by the radius.
    pub open spec fn record_at(self, ray: Ray<T>, t: T) -> HitRecord<T> {
        let point = ray.spec_at(t);
        HitRecord::spec_new(
            point,
            t,
            point.spec_sub(self.center).spec_div(self.radius),
            ray,
            self.material,
        )
    }

    pub fn new(center: Vec3<T>, radius: T, material: MaterialKind<T>) -> (r: Self)
        ensures
            r == (Sphere { center, radius: Self::spec_radius(radius), material }),
    {
        Sphere { center, radius: max(radius, zero()), material }
    }
}

impl<T: Float> Hittable<T> for Sphere<T> {
    open spec fn spec_hit(&self, ray: Ray<T>, interval: Interval<T>) -> Option<HitRecord<T>> {
        match self.root(ray, interval) {
            Some(t) => Some(self.record_at(ray, t)),
            None => None,
        }
    }

    fn hit(&self, ray: &Ray<T>, interval: &Interval<T>) -> (r: Option<HitRecord<T>>)
        ensures
            r matches Some(rec) ==> rec.point == ray.spec_at(rec.time) && rec.material
                == self.material,
            !lt(T::from_i64_spec(0), self.radius) ==> r is None,
    {
        if !zero::<T>().lt(self.radius) {
            return None;
        }
        let oc = self.center.sub(ray.origin);
        let a = ray.direction.len_squared();
        let h = ray.direction.dot(&oc);
        let c = oc.len_squared().sub(self.radius.mul(self.radius));

        let d = h.mul(h).sub(a.mul(c));
        if d.lt(zero()) {
            return None;
        }
        let dsqrt = d.sqrt();

        let near = h.sub(dsqrt).div(a);
        let root = if !interval.surrounds(near) {
            h.add(dsqrt).div(a)
        } else {
            near
        };
        if !interval.surrounds(root) {
            return None;
        }
        let point = ray.at(root);
        let normal = point.sub(self.center).div(self.radius);
        Some(HitRecord::new(point, root, normal, ray, self.material))
    }
}

} // verus!
