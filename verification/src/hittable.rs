use vstd::prelude::*;
use crate::float::{lemma_sign_symmetric, lt, same_number, zero, Float};
use crate::interval::Interval;
use crate::material::MaterialKind;
use crate::ray::Ray;
use crate::vec3::Vec3;

verus! {

/// Where and how a ray met a surface.  The normal is the surface's outward
/// normal, turned to stand against the ray.
#[derive(Clone, Copy, Debug, PartialEq)]
pub struct HitRecord<T> {
    pub point: Vec3<T>,
    pub normal: Vec3<T>,
    pub material: MaterialKind<T>,
    pub time: T,
    pub front_face: bool,
}

impl<T: Float> HitRecord<T> {
    /// Whether a ray meets a surface with the given outward normal from outside:
    /// whether the two point against each other.
    pub open spec fn faces(ray: Ray<T>, outward_normal: Vec3<T>) -> bool {
        lt(ray.direction.spec_dot(outward_normal), T::from_i64_spec(0))
    }

    /// The outward normal where the ray comes from outside, and its opposite
    /// where the ray comes from inside.
    pub open spec fn orient(ray: Ray<T>, outward_normal: Vec3<T>) -> Vec3<T> {
        if Self::faces(ray, outward_normal) {
            outward_normal
        } else {
            outward_normal.spec_neg()
        }
    }

    pub open spec fn spec_new(
        hit_point: Vec3<T>,
        hit_time: T,
        outward_normal: Vec3<T>,
        ray: Ray<T>,
        material: MaterialKind<T>,
    ) -> Self {
        HitRecord {
            point: hit_point,
            normal: Self::orient(ray, outward_normal),
            material,
            time: hit_time,
            front_face: Self::faces(ray, outward_normal),
        }
    }

    /// The record of a hit, with the normal set against the ray.
    pub fn new(
        hit_point: Vec3<T>,
        hit_time: T,
        outward_normal: Vec3<T>,
        ray: &Ray<T>,
        material: MaterialKind<T>,
    ) -> (rec: Self)
        ensures
            rec == Self::spec_new(hit_point, hit_time, outward_normal, *ray, material),
            rec.front_face <==> lt(ray.direction.spec_dot(outward_normal), T::from_i64_spec(0)),
            rec.normal == outward_normal || rec.normal == outward_normal.spec_neg(),
    {
        let front_face = ray.direction.dot(&outward_normal).lt(zero());
        let normal = if front_face {
            outward_normal
        } else {
            outward_normal.neg()
        };
        HitRecord { point: hit_point, normal, material, time: hit_time, front_face }
    }
}

/// The normal of a record never points along the ray: `normal . direction` is
/// not above zero.  It is below zero wherever the ray came from outside.  Where
/// the ray does not point along the outward normal, that is the only case:
/// then `normal . direction < 0` if and only if `front_face`.  (A ray from
/// inside that points along the outward normal has its normal turned, so that
/// `normal . direction < 0` with `front_face` false.)
pub proof fn lemma_normal_is_against_ray<T: Float>(
    hit_point: Vec3<T>,
    hit_time: T,
    outward_normal: Vec3<T>,
    ray: Ray<T>,
    material: MaterialKind<T>,
)
    ensures
        ({
            let rec = HitRecord::spec_new(hit_point, hit_time, outward_normal, ray, material);
            let zero = T::from_i64_spec(0);
            &&& !lt(zero, rec.normal.spec_dot(ray.direction))
            &&& rec.front_face ==> lt(rec.normal.spec_dot(ray.direction), zero)
            &&& !lt(zero, ray.direction.spec_dot(outward_normal)) ==> (lt(
                rec.normal.spec_dot(ray.direction),
                zero,
            ) <==> rec.front_face)
        }),
{
    lemma_sign_symmetric::<T>();
    let o = outward_normal;
    let d = ray.direction;
    let a = o.x.mul_spec(d.x);
    let b = o.y.mul_spec(d.y);
    let c = o.z.mul_spec(d.z);
    assert(d.spec_dot(o) == o.spec_dot(d));
    if !HitRecord::faces(ray, o) {
        let n = o.spec_neg();
        assert(n.x.mul_spec(d.x) == a.neg_spec());
        assert(n.y.mul_spec(d.y) == b.neg_spec());
        assert(n.z.mul_spec(d.z) == c.neg_spec());
        let first = a.neg_spec().add_spec(b.neg_spec());
        assert(same_number(first, a.add_spec(b).neg_spec()));
        assert(same_number(
            first.add_spec(c.neg_spec()),
            a.add_spec(b).neg_spec().add_spec(c.neg_spec()),
        ));
        assert(same_number(
            a.add_spec(b).neg_spec().add_spec(c.neg_spec()),
            a.add_spec(b).add_spec(c).neg_spec(),
        ));
        assert(same_number(n.spec_dot(d), o.spec_dot(d).neg_spec()));
    }
}

/// Something that a ray can hit.
pub trait Hittable<T: Float> {
    /// The hit of the ray on this object at a parameter inside the interval, if
    /// there is one.
    spec fn spec_hit(&self, ray: Ray<T>, interval: Interval<T>) -> Option<HitRecord<T>>;

    /// The hit of the ray at a parameter strictly inside the interval, or
    /// nothing.
    fn hit(&self, ray: &Ray<T>, interval: &Interval<T>) -> (r: Option<HitRecord<T>>)
        ensures
            r == self.spec_hit(*ray, *interval),
            r matches Some(rec) ==> interval.spec_surrounds(rec.time),
    ;
}

} // verus!
