use vstd::prelude::*;
use crate::color::Color;
use crate::float::{lt, min, minimum, one, zero, Float};
use crate::hittable::HitRecord;
use crate::interval::Interval;
use crate::random::{random_float, unit_float};
use crate::ray::Ray;
use crate::vec3::Vec3;

verus! {

/// A ray that leaves a surface, and how much of the light that comes back along
/// it the surface lets through, channel by channel.
#[derive(Clone, Copy, Debug, PartialEq)]
pub struct Scatter<T> {
    pub ray: Ray<T>,
    pub attenuation: Color<T>,
}

/// How a surface scatters the rays that hit it.
pub trait Material<T: Float> {
    /// Whether `out` is a way in which the surface may scatter the ray: scattering
    /// draws random numbers, so there is more than one.
    spec fn may_scatter(&self, ray: Ray<T>, hit: HitRecord<T>, out: Option<Scatter<T>>) -> bool;

    /// Scatters the ray at the hit, or absorbs it and returns nothing.
    fn scatter(&self, ray: &Ray<T>, hit: &HitRecord<T>) -> (out: Option<Scatter<T>>)
        ensures
            self.may_scatter(*ray, *hit, out),
    ;
}

/// A matte surface.
#[derive(Clone, Copy, Debug, PartialEq)]
pub struct Lambertian<T> {
    pub albedo: Color<T>,
}

/// A mirror, blurred by `fuzz`, which lies between 0 and 1.
#[derive(Clone, Copy, Debug, PartialEq)]
pub struct Metal<T> {
    pub albedo: Color<T>,
    pub fuzz: T,
}

/// A clear material such as glass.
#[derive(Clone, Copy, Debug, PartialEq)]
pub struct Dielectric<T> {
    pub refraction_index: T,
}

/// One of the materials of this library.
#[derive(Clone, Copy, Debug, PartialEq)]
pub enum MaterialKind<T> {
    Lambertian(Lambertian<T>),
    Metal(Metal<T>),
    Dielectric(Dielectric<T>),
}

impl<T: Float> Lambertian<T> {
    /// The scattering for the random direction `u`: from the hit point along
    /// `normal + u`, or along the normal where that sum all but vanishes.
    pub open spec fn spec_scatter_with(self, hit: HitRecord<T>, u: Vec3<T>) -> Scatter<T> {
        let toward = hit.normal.spec_add(u);
        Scatter {
            ray: Ray {
                origin: hit.point,
                direction: if toward.spec_near_zero() {
                    hit.normal
                } else {
                    toward
                },
            },
            attenuation: self.albedo,
        }
    }

    pub fn new(albedo: Color<T>) -> (r: Self)
        ensures
            r == (Lambertian { albedo }),
    {
        Lambertian { albedo }
    }

    /// Scatters with `u` in place of a random direction.
    pub fn scatter_with(&self, hit: &HitRecord<T>, u: Vec3<T>) -> (out: Scatter<T>)
        ensures
            out == self.spec_scatter_with(*hit, u),
    {
        let toward = hit.normal.add(u);
        let direction = if toward.near_zero() {
            hit.normal
        } else {
            toward
        };
        Scatter { ray: Ray::new(hit.point, direction), attenuation: self.albedo }
    }
}

impl<T: Float> Material<T> for Lambertian<T> {
    /// A matte surface always scatters, toward some random direction.
    open spec fn may_scatter(&self, ray: Ray<T>, hit: HitRecord<T>, out: Option<Scatter<T>>) -> bool {
        exists|u: Vec3<T>|
            Vec3::is_random_unit(u) && out == Some(#[trigger] self.spec_scatter_with(hit, u))
    }

    fn scatter(&self, ray: &Ray<T>, hit: &HitRecord<T>) -> (out: Option<Scatter<T>>)
        ensures
            out is Some,
    {
        let u = Vec3::random_unit();
        Some(self.scatter_with(hit, u))
    }
}

impl<T: Float> Metal<T> {
    /// The blur of a metal made with `fuzz`: `fuzz` clamped into 0 to 1.
    pub open spec fn spec_fuzz(fuzz: T) -> T {
        (Interval { min: T::from_i64_spec(0), max: T::from_i64_spec(1) }).spec_clamp(fuzz)
    }

    /// The scattering for the random direction `u`: along the mirror image of
    /// the ray, made a unit vector and moved by `fuzz * u`.  The ray is absorbed
    /// where its mirror image has no direction, and where the scattered ray
    /// would not point out of the surface.
    pub open spec fn spec_scatter_with(self, ray: Ray<T>, hit: HitRecord<T>, u: Vec3<T>) -> Option<
        Scatter<T>,
    > {
        let reflected = Vec3::spec_reflect(ray.direction, hit.normal);
        let direction = reflected.spec_unit().spec_add(u.spec_mul(self.fuzz));
        if reflected.has_direction() && lt(T::from_i64_spec(0), direction.spec_dot(hit.normal)) {
            Some(Scatter { ray: Ray { origin: hit.point, direction }, attenuation: self.albedo })
        } else {
            None
        }
    }

    pub fn new(albedo: Color<T>, fuzz: T) -> (r: Self)
        ensures
            r == (Metal { albedo, fuzz: Self::spec_fuzz(fuzz) }),
    {
        let unit: Interval<T> = Interval { min: zero(), max: one() };
        Metal { albedo, fuzz: unit.clamp(fuzz) }
    }

    /// Scatters with `u` in place of a random direction.
    pub fn scatter_with(&self, ray: &Ray<T>, hit: &HitRecord<T>, u: Vec3<T>) -> (out: Option<
        Scatter<T>,
    >)
        ensures
            out == self.spec_scatter_with(*ray, *hit, u),
    {
        let reflected = Vec3::reflect(&ray.direction, &hit.normal);
        match reflected.try_unit() {
            Ok(mirrored) => {
                let direction = mirrored.add(u.mul(self.fuzz));
                if zero::<T>().lt(direction.dot(&hit.normal)) {
                    Some(Scatter { ray: Ray::new(hit.point, direction), attenuation: self.albedo })
                } else {
                    None
                }
            },
            Err(_) => None,
        }
    }
}

impl<T: Float> Material<T> for Metal<T> {
    open spec fn may_scatter(&self, ray: Ray<T>, hit: HitRecord<T>, out: Option<Scatter<T>>) -> bool {
        exists|u: Vec3<T>|
            Vec3::is_random_unit(u) && out == #[trigger] self.spec_scatter_with(ray, hit, u)
    }

    fn scatter(&self, ray: &Ray<T>, hit: &HitRecord<T>) -> (out: Option<Scatter<T>>) {
        let u = Vec3::random_unit();
        self.scatter_with(ray, hit, u)
    }
}

impl<T: Float> Dielectric<T> {
    /// The ratio of the refractive indices on the two sides of the surface, the
    /// side the ray comes from first.
    pub open spec fn spec_ratio(self, front_face: bool) -> T {
        if front_face {
            T::from_i64_spec(1).div_spec(self.refraction_index)
        } else {
            self.refraction_index
        }
    }

    /// Schlick's estimate of the share of light that a clear surface reflects:
    /// `r0 + (1 - r0) (1 - cosine)^5` with `r0 = ((1 - ratio) / (1 + ratio))^2`.
    pub open spec fn spec_reflectance(cosine: T, ratio: T) -> T {
        let one = T::from_i64_spec(1);
        let q = one.sub_spec(ratio).div_spec(one.add_spec(ratio));
        let r0 = q.mul_spec(q);
        let x = one.sub_spec(cosine);
        let x2 = x.mul_spec(x);
        let x5 = x2.mul_spec(x2).mul_spec(x);
        r0.add_spec(one.sub_spec(r0).mul_spec(x5))
    }

    /// The cosine of the angle between the unit direction and the normal,
    /// capped at 1.
    pub open spec fn spec_cos_theta(unit_direction: Vec3<T>, normal: Vec3<T>) -> T {
        minimum(unit_direction.spec_neg().spec_dot(normal), T::from_i64_spec(1))
    }

    /// Whether no refracted ray exists: whether the ratio times the sine of the
    /// angle is above 1.
    pub open spec fn spec_cannot_refract(cos_theta: T, ratio: T) -> bool {
        let sin_theta = T::from_i64_spec(1).sub_spec(cos_theta.mul_spec(cos_theta)).sqrt_spec();
        lt(T::from_i64_spec(1), ratio.mul_spec(sin_theta))
    }

    /// The direction in which a ray with the unit direction `unit_direction`
    /// goes on for the random number `xi`: the mirror image where no refracted
    /// ray exists or the reflectance is above `xi`, else the refracted
    /// direction.
    pub open spec fn spec_bend(self, unit_direction: Vec3<T>, hit: HitRecord<T>, xi: T) -> Vec3<T> {
        let ratio = self.spec_ratio(hit.front_face);
        let cos_theta = Self::spec_cos_theta(unit_direction, hit.normal);
        if Self::spec_cannot_refract(cos_theta, ratio) || lt(
            xi,
            Self::spec_reflectance(cos_theta, ratio),
        ) {
            Vec3::spec_reflect(unit_direction, hit.normal)
        } else {
            Vec3::spec_refract(unit_direction, hit.normal, ratio)
        }
    }

    /// The direction in which the ray goes on for the random number `xi`:
    /// mirrored or refracted.  A ray that has no direction goes on as it is.
    pub open spec fn spec_direction(self, ray: Ray<T>, hit: HitRecord<T>, xi: T) -> Vec3<T> {
        if ray.direction.has_direction() {
            self.spec_bend(ray.direction.spec_unit(), hit, xi)
        } else {
            ray.direction
        }
    }

    /// The scattering for the random number `xi`: from the hit point, mirrored
    /// or refracted, with nothing taken from the light.
    pub open spec fn spec_scatter_with(self, ray: Ray<T>, hit: HitRecord<T>, xi: T) -> Scatter<T> {
        Scatter {
            ray: Ray { origin: hit.point, direction: self.spec_direction(ray, hit, xi) },
            attenuation: Color::spec_new(
                T::from_i64_spec(1),
                T::from_i64_spec(1),
                T::from_i64_spec(1),
            ),
        }
    }

    pub fn new(refraction_index: T) -> (r: Self)
        ensures
            r == (Dielectric { refraction_index }),
    {
        Dielectric { refraction_index }
    }

    pub fn reflectance(cosine: T, ratio: T) -> (r: T)
        ensures
            r == Self::spec_reflectance(cosine, ratio),
    {
        let one: T = one();
        let q = one.sub(ratio).div(one.add(ratio));
        let r0 = q.mul(q);
        let x = one.sub(cosine);
        let x2 = x.mul(x);
        let x5 = x2.mul(x2).mul(x);
        r0.add(one.sub(r0).mul(x5))
    }

    /// Scatters with `xi` in place of a random number from `[0, 1)`.
    pub fn scatter_with(&self, ray: &Ray<T>, hit: &HitRecord<T>, xi: T) -> (out: Scatter<T>)
        ensures
            out == self.spec_scatter_with(*ray, *hit, xi),
    {
        let one: T = one();
        let direction = match ray.direction.try_unit() {
            Ok(unit_direction) => {
                let ratio = if hit.front_face {
                    one.div(self.refraction_index)
                } else {
                    self.refraction_index
                };
                let cos_theta = min(unit_direction.neg().dot(&hit.normal), one);
                let sin_theta = one.sub(cos_theta.mul(cos_theta)).sqrt();
                let cannot_refract = one.lt(ratio.mul(sin_theta));
                if cannot_refract || xi.lt(Self::reflectance(cos_theta, ratio)) {
                    Vec3::reflect(&unit_direction, &hit.normal)
                } else {
                    Vec3::refract(&unit_direction, &hit.normal, ratio)
                }
            },
            Err(_) => ray.direction,
        };
        Scatter { ray: Ray::new(hit.point, direction), attenuation: Color::new(one, one, one) }
    }
}

impl<T: Float> Material<T> for Dielectric<T> {
    /// A clear surface always scatters, for some random number.
    open spec fn may_scatter(&self, ray: Ray<T>, hit: HitRecord<T>, out: Option<Scatter<T>>) -> bool {
        exists|bits: u64|
            out == Some(#[trigger] self.spec_scatter_with(ray, hit, unit_float::<T>(bits)))
    }

    fn scatter(&self, ray: &Ray<T>, hit: &HitRecord<T>) -> (out: Option<Scatter<T>>)
        ensures
            out is Some,
    {
        let xi: T = random_float();
        Some(self.scatter_with(ray, hit, xi))
    }
}

impl<T: Float> Material<T> for MaterialKind<T> {
    open spec fn may_scatter(&self, ray: Ray<T>, hit: HitRecord<T>, out: Option<Scatter<T>>) -> bool {
        match *self {
            MaterialKind::Lambertian(m) => m.may_scatter(ray, hit, out),
            MaterialKind::Metal(m) => m.may_scatter(ray, hit, out),
            MaterialKind::Dielectric(m) => m.may_scatter(ray, hit, out),
        }
    }

    fn scatter(&self, ray: &Ray<T>, hit: &HitRecord<T>) -> (out: Option<Scatter<T>>) {
        match self {
            MaterialKind::Lambertian(m) => m.scatter(ray, hit),
            MaterialKind::Metal(m) => m.scatter(ray, hit),
            MaterialKind::Dielectric(m) => m.scatter(ray, hit),
        }
    }
}

} // verus!
