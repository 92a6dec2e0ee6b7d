use vstd::prelude::*;
use crate::float::{fraction, le, lt, max, maximum, min, minimum, one, ratio, zero, Float};
use crate::random::{random_between, range_point, unit_float};

verus! {

/// A vector of three scalars.
#[derive(Clone, Copy, Debug, PartialEq)]
pub struct Vec3<T> {
    pub x: T,
    pub y: T,
    pub z: T,
}

/// The failure to find the direction of a vector that has none: one whose
/// length is not a number above zero.
#[derive(Clone, Copy, Debug, PartialEq, Eq)]
pub struct DegenerateVector;

/// A point in space.
pub type Point3<T> = Vec3<T>;

/// How many points of the cube `random_unit` draws before it gives up.
pub const MAX_DRAWS: u32 = 1000;

impl<T: Float> core::default::Default for Vec3<T> {
    fn default() -> (r: Vec3<T>)
        ensures
            r == Vec3::<T>::spec_zero(),
    {
        Vec3 { x: zero(), y: zero(), z: zero() }
    }
}

impl<T: Float> Vec3<T> {
    /// The vector whose components are all zero.
    pub open spec fn spec_zero() -> Self {
        Vec3 { x: T::from_i64_spec(0), y: T::from_i64_spec(0), z: T::from_i64_spec(0) }
    }

    pub open spec fn spec_neg(self) -> Self {
        Vec3 { x: self.x.neg_spec(), y: self.y.neg_spec(), z: self.z.neg_spec() }
    }

    pub open spec fn spec_add(self, rhs: Self) -> Self {
        Vec3 {
            x: self.x.add_spec(rhs.x),
            y: self.y.add_spec(rhs.y),
            z: self.z.add_spec(rhs.z),
        }
    }

    pub open spec fn spec_sub(self, rhs: Self) -> Self {
        Vec3 {
            x: self.x.sub_spec(rhs.x),
            y: self.y.sub_spec(rhs.y),
            z: self.z.sub_spec(rhs.z),
        }
    }

    /// Each component times the scalar `k`.
    pub open spec fn spec_mul(self, k: T) -> Self {
        Vec3 { x: self.x.mul_spec(k), y: self.y.mul_spec(k), z: self.z.mul_spec(k) }
    }

    /// Each component divided by the scalar `k`.
    pub open spec fn spec_div(self, k: T) -> Self {
        Vec3 { x: self.x.div_spec(k), y: self.y.div_spec(k), z: self.z.div_spec(k) }
    }

    /// Each component times the same component of `rhs`.
    pub open spec fn spec_mul_each(self, rhs: Self) -> Self {
        Vec3 {
            x: self.x.mul_spec(rhs.x),
            y: self.y.mul_spec(rhs.y),
            z: self.z.mul_spec(rhs.z),
        }
    }

    /// Each component divided by the same component of `rhs`.
    pub open spec fn spec_div_each(self, rhs: Self) -> Self {
        Vec3 {
            x: self.x.div_spec(rhs.x),
            y: self.y.div_spec(rhs.y),
            z: self.z.div_spec(rhs.z),
        }
    }

    /// `self * a + b` in each component, rounded once.
    pub open spec fn spec_mul_add(self, a: Self, b: Self) -> Self {
        Vec3 {
            x: self.x.mul_add_spec(a.x, b.x),
            y: self.y.mul_add_spec(a.y, b.y),
            z: self.z.mul_add_spec(a.z, b.z),
        }
    }

    /// The products of the components, summed from `x` to `z`.
    pub open spec fn spec_dot(self, rhs: Self) -> T {
        self.x.mul_spec(rhs.x).add_spec(self.y.mul_spec(rhs.y)).add_spec(self.z.mul_spec(rhs.z))
    }

    pub open spec fn spec_cross(self, rhs: Self) -> Self {
        Vec3 {
            x: self.y.mul_spec(rhs.z).sub_spec(self.z.mul_spec(rhs.y)),
            y: self.z.mul_spec(rhs.x).sub_spec(self.x.mul_spec(rhs.z)),
            z: self.x.mul_spec(rhs.y).sub_spec(self.y.mul_spec(rhs.x)),
        }
    }

    pub open spec fn spec_len_squared(self) -> T {
        self.spec_dot(self)
    }

    pub open spec fn spec_len(self) -> T {
        self.spec_len_squared().sqrt_spec()
    }

    /// Whether the vector has a direction: whether its length is a number
    /// above zero.
    pub open spec fn has_direction(self) -> bool {
        lt(T::from_i64_spec(0), self.spec_len())
    }

    /// The vector divided by its length: its direction, where it has one.
    pub open spec fn spec_unit(self) -> Self
        recommends
            self.has_direction(),
    {
        self.spec_div(self.spec_len())
    }

    /// The direction of the vector, or the failure to find one.
    pub open spec fn spec_try_unit(self) -> Result<Self, DegenerateVector> {
        if self.has_direction() {
            Ok(self.spec_unit())
        } else {
            Err(DegenerateVector)
        }
    }

    /// Whether `c` lies strictly between `-1e-8` and `1e-8`.
    pub open spec fn tiny(c: T) -> bool {
        lt(ratio::<T>(1, 100_000_000).neg_spec(), c) && lt(c, ratio::<T>(1, 100_000_000))
    }

    /// Whether every component is tiny.
    pub open spec fn spec_near_zero(self) -> bool {
        Self::tiny(self.x) && Self::tiny(self.y) && Self::tiny(self.z)
    }

    /// `v - 2 (v . n) n`: the mirror image of `v` at the plane with unit normal `n`.
    pub open spec fn spec_reflect(v: Self, n: Self) -> Self {
        v.spec_sub(n.spec_mul(T::from_i64_spec(2).mul_spec(v.spec_dot(n))))
    }

    /// The part of the refracted direction that lies across the normal.
    pub open spec fn refract_across(uv: Self, n: Self, etai_over_etat: T) -> Self {
        let cos_theta = minimum(uv.spec_neg().spec_dot(n), T::from_i64_spec(1));
        uv.spec_add(n.spec_mul(cos_theta)).spec_mul(etai_over_etat)
    }

    /// The part of the refracted direction that lies along the normal.
    pub open spec fn refract_along(across: Self, n: Self) -> Self {
        let rest = maximum(
            T::from_i64_spec(0),
            T::from_i64_spec(1).sub_spec(across.spec_len_squared()),
        );
        n.spec_mul(rest.sqrt_spec().neg_spec())
    }

    /// The direction of a unit vector `uv` after it crosses a surface with unit
    /// normal `n`, by Snell's law for the ratio of the two refractive indices.
    pub open spec fn spec_refract(uv: Self, n: Self, etai_over_etat: T) -> Self {
        let across = Self::refract_across(uv, n, etai_over_etat);
        across.spec_add(Self::refract_along(across, n))
    }

    /// The point of the cube `[-1, 1)^3` that three words of random bits stand for.
    pub open spec fn cube_point(bits: (u64, u64, u64)) -> Self {
        let low = T::from_i64_spec(1).neg_spec();
        let high = T::from_i64_spec(1);
        Vec3 {
            x: range_point(low, high, unit_float::<T>(bits.0)),
            y: range_point(low, high, unit_float::<T>(bits.1)),
            z: range_point(low, high, unit_float::<T>(bits.2)),
        }
    }

    /// Whether `p` is a point of the unit ball other than its centre, and has a
    /// direction.
    pub open spec fn in_ball(p: Self) -> bool {
        lt(T::from_i64_spec(0), p.spec_len_squared()) && le(
            p.spec_len_squared(),
            T::from_i64_spec(1),
        ) && p.has_direction()
    }

    /// The direction of `p`, for a point of the unit ball other than its centre.
    pub open spec fn spec_direction_in_ball(p: Self) -> Option<Self> {
        if Self::in_ball(p) {
            Some(p.spec_unit())
        } else {
            None
        }
    }

    /// The first axis, which `random_unit` returns once it has given up.
    pub open spec fn spec_first_axis() -> Self {
        Vec3 { x: T::from_i64_spec(1), y: T::from_i64_spec(0), z: T::from_i64_spec(0) }
    }

    /// What `random_unit` can return: the direction of a random point of the cube
    /// that lies in the unit ball; or the first axis, after `MAX_DRAWS` random
    /// points of the cube of which none lies in the unit ball.
    pub open spec fn is_random_unit(u: Self) -> bool {
        ||| exists|bits: (u64, u64, u64)|
            Self::in_ball(#[trigger] Self::cube_point(bits)) && u == Self::cube_point(
                bits,
            ).spec_unit()
        ||| u == Self::spec_first_axis() && exists|missed: Seq<(u64, u64, u64)>|
            #![trigger missed.len()]
            missed.len() == MAX_DRAWS && forall|k: int|
                0 <= k < missed.len() ==> !Self::in_ball(#[trigger] Self::cube_point(missed[k]))
    }

    pub fn new(x: T, y: T, z: T) -> (r: Self)
        ensures
            r == (Vec3 { x, y, z }),
    {
        Vec3 { x, y, z }
    }

    pub fn len(&self) -> (r: T)
        ensures
            r == self.spec_len(),
    {
        self.len_squared().sqrt()
    }

    pub fn len_squared(&self) -> (r: T)
        ensures
            r == self.spec_len_squared(),
    {
        self.dot(self)
    }

    pub fn dot(&self, rhs: &Self) -> (r: T)
        ensures
            r == self.spec_dot(*rhs),
    {
        self.x.mul(rhs.x).add(self.y.mul(rhs.y)).add(self.z.mul(rhs.z))
    }

    pub fn cross(&self, rhs: &Self) -> (r: Self)
        ensures
            r == self.spec_cross(*rhs),
    {
        Vec3 {
            x: self.y.mul(rhs.z).sub(self.z.mul(rhs.y)),
            y: self.z.mul(rhs.x).sub(self.x.mul(rhs.z)),
            z: self.x.mul(rhs.y).sub(self.y.mul(rhs.x)),
        }
    }

    /// The direction of a vector that has one: the vector divided by its
    /// length.
    pub fn unit(&self) -> (r: Self)
        requires
            self.has_direction(),
        ensures
            r == self.spec_unit(),
    {
        self.div(self.len())
    }

    /// The direction of the vector, and `DegenerateVector` for a vector whose
    /// length is not a number above zero.
    pub fn try_unit(&self) -> (r: Result<Self, DegenerateVector>)
        ensures
            r == self.spec_try_unit(),
    {
        let len = self.len();
        if zero::<T>().lt(len) {
            Ok(self.div(len))
        } else {
            Err(DegenerateVector)
        }
    }

    pub fn neg(self) -> (r: Self)
        ensures
            r == self.spec_neg(),
    {
        Vec3 { x: self.x.neg(), y: self.y.neg(), z: self.z.neg() }
    }

    pub fn add(self, rhs: Self) -> (r: Self)
        ensures
            r == self.spec_add(rhs),
    {
        Vec3 { x: self.x.add(rhs.x), y: self.y.add(rhs.y), z: self.z.add(rhs.z) }
    }

    pub fn sub(self, rhs: Self) -> (r: Self)
        ensures
            r == self.spec_sub(rhs),
    {
        Vec3 { x: self.x.sub(rhs.x), y: self.y.sub(rhs.y), z: self.z.sub(rhs.z) }
    }

    pub fn mul(self, k: T) -> (r: Self)
        ensures
            r == self.spec_mul(k),
    {
        Vec3 { x: self.x.mul(k), y: self.y.mul(k), z: self.z.mul(k) }
    }

    pub fn div(self, k: T) -> (r: Self)
        ensures
            r == self.spec_div(k),
    {
        Vec3 { x: self.x.div(k), y: self.y.div(k), z: self.z.div(k) }
    }

    /// Each component times the same component of `rhs`.
    pub fn mul_each(self, rhs: Self) -> (r: Self)
        ensures
            r == self.spec_mul_each(rhs),
    {
        Vec3 { x: self.x.mul(rhs.x), y: self.y.mul(rhs.y), z: self.z.mul(rhs.z) }
    }

    pub fn add_assign(&mut self, rhs: Self)
        ensures
            *final(self) == old(self).spec_add(rhs),
    {
        self.x = self.x.add(rhs.x);
        self.y = self.y.add(rhs.y);
        self.z = self.z.add(rhs.z);
    }

    pub fn sub_assign(&mut self, rhs: Self)
        ensures
            *final(self) == old(self).spec_sub(rhs),
    {
        self.x = self.x.sub(rhs.x);
        self.y = self.y.sub(rhs.y);
        self.z = self.z.sub(rhs.z);
    }

    /// Multiplies each component by the scalar `k`.
    pub fn mul_assign(&mut self, k: T)
        ensures
            *final(self) == old(self).spec_mul(k),
    {
        self.x = self.x.mul(k);
        self.y = self.y.mul(k);
        self.z = self.z.mul(k);
    }

    /// Divides each component by the scalar `k`.
    pub fn div_assign(&mut self, k: T)
        ensures
            *final(self) == old(self).spec_div(k),
    {
        self.x = self.x.div(k);
        self.y = self.y.div(k);
        self.z = self.z.div(k);
    }

    /// Multiplies each component by the same component of `rhs`.
    pub fn mul_assign_each(&mut self, rhs: Self)
        ensures
            *final(self) == old(self).spec_mul_each(rhs),
    {
        self.x = self.x.mul(rhs.x);
        self.y = self.y.mul(rhs.y);
        self.z = self.z.mul(rhs.z);
    }

    /// Divides each component by the same component of `rhs`.
    pub fn div_assign_each(&mut self, rhs: Self)
        ensures
            *final(self) == old(self).spec_div_each(rhs),
    {
        self.x = self.x.div(rhs.x);
        self.y = self.y.div(rhs.y);
        self.z = self.z.div(rhs.z);
    }

    /// Replaces the vector by `self * a + b`, each component rounded once.
    pub fn mul_add_assign(&mut self, a: Self, b: Self)
        ensures
            *final(self) == old(self).spec_mul_add(a, b),
    {
        self.x = self.x.mul_add(a.x, b.x);
        self.y = self.y.mul_add(a.y, b.y);
        self.z = self.z.mul_add(a.z, b.z);
    }

    pub fn near_zero(&self) -> (r: bool)
        ensures
            r == self.spec_near_zero(),
    {
        let eps: T = fraction(1, 100_000_000);
        let low = eps.neg();
        low.lt(self.x) && self.x.lt(eps) && low.lt(self.y) && self.y.lt(eps) && low.lt(self.z)
            && self.z.lt(eps)
    }

    pub fn reflect(v: &Self, n: &Self) -> (r: Self)
        ensures
            r == Self::spec_reflect(*v, *n),
    {
        let two: T = T::from_i64(2);
        v.sub(n.mul(two.mul(v.dot(n))))
    }

    pub fn refract(uv: &Self, n: &Self, etai_over_etat: T) -> (r: Self)
        ensures
            r == Self::spec_refract(*uv, *n, etai_over_etat),
    {
        let cos_theta = min(uv.neg().dot(n), one());
        let across = uv.add(n.mul(cos_theta)).mul(etai_over_etat);
        let rest = max(zero(), one::<T>().sub(across.len_squared()));
        let along = n.mul(rest.sqrt().neg());
        across.add(along)
    }

    /// The direction of `p` where `p` is a point of the unit ball other than its
    /// centre and has a direction, and nothing for any other point.
    pub fn direction_in_ball(p: &Self) -> (r: Option<Self>)
        ensures
            r == Self::spec_direction_in_ball(*p),
    {
        let lensq = p.len_squared();
        if zero::<T>().lt(lensq) && lensq.le(one()) {
            match p.try_unit() {
                Ok(u) => Some(u),
                Err(_) => None,
            }
        } else {
            None
        }
    }

    /// A random point of the cube `[-1, 1)^3`.
    pub fn random_in_cube() -> (r: Self)
        ensures
            exists|bits: (u64, u64, u64)| r == Self::cube_point(bits),
    {
        let (x, Ghost(bx)) = random_between::<T>(one::<T>().neg(), one());
        let (y, Ghost(by)) = random_between::<T>(one::<T>().neg(), one());
        let (z, Ghost(bz)) = random_between::<T>(one::<T>().neg(), one());
        assert(Vec3 { x, y, z } == Self::cube_point((bx, by, bz)));
        Vec3 { x, y, z }
    }

    /// A random direction: the direction of the first of up to `MAX_DRAWS` random
    /// points of the cube that lies in the unit ball but not at its centre.  Each
    /// point does so with a chance of more than one half; should none of them do,
    /// the result is the first axis.
    pub fn random_unit() -> (r: Self)
        ensures
            Self::is_random_unit(r),
    {
        let ghost mut missed: Seq<(u64, u64, u64)> = Seq::empty();
        let mut draws: u32 = 0;
        while draws < MAX_DRAWS
            invariant
                draws <= MAX_DRAWS,
                missed.len() == draws,
                forall|k: int|
                    0 <= k < missed.len() ==> !Self::in_ball(
                        #[trigger] Self::cube_point(missed[k]),
                    ),
            decreases MAX_DRAWS - draws,
        {
            let p = Self::random_in_cube();
            let ghost bits = choose|bits: (u64, u64, u64)| p == Self::cube_point(bits);
            match Self::direction_in_ball(&p) {
                Some(u) => {
                    assert(Self::in_ball(Self::cube_point(bits)));
                    return u;
                },
                None => {
                    proof {
                        missed = missed.push(bits);
                    }
                },
            }
            draws += 1;
        }
        assert(missed.len() == MAX_DRAWS);
        Vec3 { x: one(), y: zero(), z: zero() }
    }
}

} // verus!
