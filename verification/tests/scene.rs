use raytracer::color::Color;
use raytracer::float::Float;
use raytracer::hittable::{HitRecord, Hittable};
use raytracer::hittable_list::HittableList;
use raytracer::interval::Interval;
use raytracer::material::{Dielectric, Lambertian, Material, MaterialKind, Metal};
use raytracer::ray::Ray;
use raytracer::sphere::Sphere;
use raytracer::vec3::Vec3;

/// The scalar of these tests: an IEEE 754 double.
#[derive(Clone, Copy, Debug, PartialEq, PartialOrd)]
struct F(f64);

impl Float for F {
    fn is_nan_spec(self) -> bool {
        self.0.is_nan()
    }
    fn ord(self) -> i64 {
        let bits = self.0.to_bits();
        let magnitude = (bits & 0x7fff_ffff_ffff_ffff) as i64;
        if bits >> 63 == 1 {
            -magnitude
        } else {
            magnitude
        }
    }
    fn from_i64_spec(n: i64) -> Self {
        F(n as f64)
    }
    fn to_i32_spec(self) -> i32 {
        self.0 as i32
    }
    fn to_u8_spec(self) -> u8 {
        self.0 as u8
    }
    fn infinity_spec() -> Self {
        F(f64::INFINITY)
    }
    fn neg_spec(self) -> Self {
        F(-self.0)
    }
    fn add_spec(self, rhs: Self) -> Self {
        F(self.0 + rhs.0)
    }
    fn sub_spec(self, rhs: Self) -> Self {
        F(self.0 - rhs.0)
    }
    fn mul_spec(self, rhs: Self) -> Self {
        F(self.0 * rhs.0)
    }
    fn div_spec(self, rhs: Self) -> Self {
        F(self.0 / rhs.0)
    }
    fn sqrt_spec(self) -> Self {
        F(num::Float::sqrt(self.0))
    }
    fn mul_add_spec(self, a: Self, b: Self) -> Self {
        F(num::Float::mul_add(self.0, a.0, b.0))
    }
    fn from_i64(n: i64) -> Self {
        Self::from_i64_spec(n)
    }
    fn to_i32(self) -> i32 {
        self.to_i32_spec()
    }
    fn to_u8(self) -> u8 {
        self.to_u8_spec()
    }
    fn infinity() -> Self {
        Self::infinity_spec()
    }
    fn is_nan(self) -> bool {
        self.is_nan_spec()
    }
    fn lt(self, rhs: Self) -> bool {
        self.0 < rhs.0
    }
    fn le(self, rhs: Self) -> bool {
        self.0 <= rhs.0
    }
    fn neg(self) -> Self {
        self.neg_spec()
    }
    fn add(self, rhs: Self) -> Self {
        self.add_spec(rhs)
    }
    fn sub(self, rhs: Self) -> Self {
        self.sub_spec(rhs)
    }
    fn mul(self, rhs: Self) -> Self {
        self.mul_spec(rhs)
    }
    fn div(self, rhs: Self) -> Self {
        self.div_spec(rhs)
    }
    fn sqrt(self) -> Self {
        self.sqrt_spec()
    }
    fn mul_add(self, a: Self, b: Self) -> Self {
        self.mul_add_spec(a, b)
    }
    // The two laws hold of IEEE 754 arithmetic; there is nothing to run.
    fn rounding_keeps_order() {}
    fn signs_are_alike() {}
}

fn v(x: f64, y: f64, z: f64) -> Vec3<F> {
    Vec3::new(F(x), F(y), F(z))
}

fn close(a: f64, b: f64, tolerance: f64) -> bool {
    (a - b).abs() <= tolerance
}

fn matte(r: f64, g: f64, b: f64) -> MaterialKind<F> {
    MaterialKind::Lambertian(Lambertian::new(Color::new(F(r), F(g), F(b))))
}

fn from(min: f64) -> Interval<F> {
    Interval::new(F(min), F(f64::INFINITY))
}

fn flat_hit(normal: Vec3<F>, front_face: bool) -> HitRecord<F> {
    HitRecord {
        point: v(1.0, 2.0, 3.0),
        normal,
        material: matte(0.5, 0.5, 0.5),
        time: F(1.0),
        front_face,
    }
}

#[test]
fn hit_record_keeps_the_outward_normal_of_a_ray_from_outside() {
    let ray = Ray::new(v(0.0, 0.0, 0.0), v(0.0, 0.0, -1.0));
    let rec = HitRecord::new(v(0.0, 0.0, -1.0), F(1.0), v(0.0, 0.0, 1.0), &ray, matte(0.1, 0.2, 0.3));
    assert!(rec.front_face);
    assert_eq!(rec.normal, v(0.0, 0.0, 1.0));
    assert_eq!(rec.point, v(0.0, 0.0, -1.0));
    assert_eq!(rec.time, F(1.0));
    assert_eq!(rec.material, matte(0.1, 0.2, 0.3));
    assert!(rec.normal.dot(&ray.direction).0 < 0.0);
}

#[test]
fn hit_record_turns_the_normal_of_a_ray_from_inside() {
    let ray = Ray::new(v(0.0, 0.0, 0.0), v(0.0, 0.0, 1.0));
    let rec = HitRecord::new(v(0.0, 0.0, 1.0), F(1.0), v(0.0, 0.0, 1.0), &ray, matte(0.1, 0.2, 0.3));
    assert!(!rec.front_face);
    assert_eq!(rec.normal, v(0.0, 0.0, -1.0));
    assert!(rec.normal.dot(&ray.direction).0 <= 0.0);
}

#[test]
fn hit_record_of_a_grazing_ray_counts_as_from_inside() {
    let ray = Ray::new(v(0.0, 0.0, 0.0), v(1.0, 0.0, 0.0));
    let rec = HitRecord::new(v(1.0, 0.0, 0.0), F(1.0), v(0.0, 1.0, 0.0), &ray, matte(0.1, 0.2, 0.3));
    assert!(!rec.front_face);
    assert_eq!(rec.normal.dot(&ray.direction).0, 0.0);
}

#[test]
fn normals_are_units_and_against_the_ray() {
    let sphere = Sphere::new(v(0.5, -0.25, -3.0), F(1.5), matte(0.5, 0.5, 0.5));
    let mut hits = 0;
    for ix in -10..=10 {
        for iy in -10..=10 {
            let ray = Ray::new(v(0.0, 0.0, 0.0), v(ix as f64 / 10.0, iy as f64 / 10.0, -1.0));
            if let Some(rec) = sphere.hit(&ray, &from(0.001)) {
                hits += 1;
                assert!(close(rec.normal.len().0, 1.0, 1e-6));
                assert!(rec.front_face);
                assert!(rec.normal.dot(&ray.direction).0 < 0.0);
            }
            let inside = Ray::new(v(0.5, -0.25, -3.0), ray.direction);
            let rec = sphere.hit(&inside, &from(0.001)).unwrap();
            assert!(close(rec.normal.len().0, 1.0, 1e-6));
            assert!(!rec.front_face);
            assert!(rec.normal.dot(&inside.direction).0 < 0.0);
        }
    }
    assert!(hits > 50);
}

#[test]
fn sphere_new_keeps_a_radius_that_is_not_negative() {
    let s = Sphere::new(v(1.0, 2.0, 3.0), F(0.5), matte(0.1, 0.2, 0.3));
    assert_eq!(s.center, v(1.0, 2.0, 3.0));
    assert_eq!(s.radius, F(0.5));
    assert_eq!(s.material, matte(0.1, 0.2, 0.3));
    assert_eq!(Sphere::new(v(0.0, 0.0, 0.0), F(-2.0), matte(0.1, 0.2, 0.3)).radius, F(0.0));
    assert_eq!(Sphere::new(v(0.0, 0.0, 0.0), F(0.0), matte(0.1, 0.2, 0.3)).radius, F(0.0));
}

#[test]
fn ray_through_the_middle_hits_the_unit_sphere_at_one() {
    let sphere = Sphere::new(v(0.0, 0.0, -2.0), F(1.0), matte(0.5, 0.5, 0.5));
    let ray = Ray::new(v(0.0, 0.0, 0.0), v(0.0, 0.0, -1.0));
    let rec = sphere.hit(&ray, &from(0.001)).unwrap();
    assert_eq!(rec.time, F(1.0));
    assert_eq!(rec.point, v(0.0, 0.0, -1.0));
    assert_eq!(rec.normal, v(0.0, 0.0, 1.0));
    assert!(rec.front_face);
    assert_eq!(rec.material, matte(0.5, 0.5, 0.5));
}

#[test]
fn sphere_gives_the_far_root_where_the_near_one_is_left_out() {
    let sphere = Sphere::new(v(0.0, 0.0, -2.0), F(1.0), matte(0.5, 0.5, 0.5));
    let ray = Ray::new(v(0.0, 0.0, 0.0), v(0.0, 0.0, -1.0));
    let far = sphere.hit(&ray, &from(1.0)).unwrap();
    assert_eq!(far.time, F(3.0));
    assert_eq!(far.normal, v(0.0, 0.0, 1.0));
    assert!(!far.front_face);
    assert!(sphere.hit(&ray, &from(3.0)).is_none());
    assert!(sphere.hit(&ray, &Interval::new(F(1.0), F(3.0))).is_none());
    assert!(sphere.hit(&ray, &Interval::new(F(0.001), F(1.0))).is_none());
    assert_eq!(sphere.hit(&ray, &Interval::new(F(0.001), F(1.5))).unwrap().time, F(1.0));
}

#[test]
fn ray_from_inside_a_sphere_hits_it_from_inside() {
    let sphere = Sphere::new(v(0.0, 0.0, 0.0), F(2.0), matte(0.5, 0.5, 0.5));
    let ray = Ray::new(v(0.0, 0.0, 0.0), v(0.0, 1.0, 0.0));
    let rec = sphere.hit(&ray, &from(0.001)).unwrap();
    assert_eq!(rec.time, F(2.0));
    assert_eq!(rec.point, v(0.0, 2.0, 0.0));
    assert_eq!(rec.normal, v(0.0, -1.0, 0.0));
    assert!(!rec.front_face);
}

#[test]
fn ray_past_a_sphere_misses() {
    let sphere = Sphere::new(v(0.0, 0.0, -2.0), F(1.0), matte(0.5, 0.5, 0.5));
    assert!(sphere.hit(&Ray::new(v(0.0, 0.0, 0.0), v(0.0, 1.0, 0.0)), &from(0.001)).is_none());
    assert!(sphere.hit(&Ray::new(v(0.0, 0.0, 0.0), v(0.0, 0.0, 1.0)), &from(0.001)).is_none());
    assert!(sphere.hit(&Ray::new(v(0.0, 2.0, 0.0), v(0.0, 0.0, -1.0)), &from(0.001)).is_none());
    let empty: Interval<F> = Interval::empty();
    assert!(sphere.hit(&Ray::new(v(0.0, 0.0, 0.0), v(0.0, 0.0, -1.0)), &empty).is_none());
}

#[test]
fn slanted_ray_hits_at_the_near_root_or_at_one() {
    // a = 5, h = 4, c = 3: the discriminant is 1 and the roots are 0.6 and 1.
    let sphere = Sphere::new(v(0.0, 0.0, -2.0), F(1.0), matte(0.5, 0.5, 0.5));
    let ray = Ray::new(v(0.0, 0.0, 0.0), v(1.0, 0.0, -2.0));
    let near = sphere.hit(&ray, &from(0.001)).unwrap();
    assert!(close(near.time.0, 0.6, 1e-12));
    let far = sphere.hit(&ray, &from(0.7)).unwrap();
    assert!(close(far.time.0, 1.0, 1e-12));
    assert!(close(far.point.x.0, 1.0, 1e-12) && close(far.point.z.0, -2.0, 1e-12));
    assert!(sphere.hit(&ray, &Interval::new(F(0.7), F(0.9))).is_none());
}

#[test]
fn tangent_ray_hits_only_strictly_inside_the_interval() {
    let sphere = Sphere::new(v(0.0, 1.0, -2.0), F(1.0), matte(0.5, 0.5, 0.5));
    let ray = Ray::new(v(0.0, 0.0, 0.0), v(0.0, 0.0, -1.0));
    let rec = sphere.hit(&ray, &from(0.001)).unwrap();
    assert_eq!(rec.time, F(2.0));
    assert_eq!(rec.point, v(0.0, 0.0, -2.0));
    assert_eq!(rec.normal, v(0.0, 1.0, 0.0));
    assert!(sphere.hit(&ray, &Interval::new(F(0.001), F(2.0))).is_none());
    assert!(sphere.hit(&ray, &from(2.0)).is_none());
}

#[test]
fn sphere_of_radius_zero_is_missed() {
    let sphere = Sphere::new(v(0.0, 0.5, -2.0), F(0.0), matte(0.5, 0.5, 0.5));
    for ix in -5..=5 {
        let ray = Ray::new(v(0.0, 0.0, 0.0), v(ix as f64 / 5.0, 0.0, -1.0));
        assert!(sphere.hit(&ray, &from(0.001)).is_none());
    }
}

#[test]
fn sphere_of_radius_zero_is_missed_by_a_ray_at_its_centre() {
    let ray = Ray::new(v(0.0, 0.0, 0.0), v(0.0, 0.0, -1.0));
    let point = Sphere::new(v(0.0, 0.0, -2.0), F(0.0), matte(0.5, 0.5, 0.5));
    assert!(point.hit(&ray, &from(0.001)).is_none());
    assert!(point.hit(&ray, &Interval::universe()).is_none());
    let shrunk = Sphere::new(v(0.0, 0.0, -2.0), F(-1.0), matte(0.5, 0.5, 0.5));
    assert!(shrunk.hit(&ray, &from(0.001)).is_none());
    let slanted = Ray::new(v(1.0, 1.0, 0.0), v(-1.0, -1.0, -2.0));
    assert!(point.hit(&slanted, &from(0.001)).is_none());
    let mut odd = point;
    odd.radius = F(f64::NAN);
    assert!(odd.hit(&ray, &from(0.001)).is_none());
    let list = HittableList::new(vec![point, shrunk]);
    assert!(list.hit(&ray, &from(0.001)).is_none());
}

#[test]
fn ray_without_direction_hits_nothing() {
    let sphere = Sphere::new(v(0.0, 0.0, -2.0), F(1.0), matte(0.5, 0.5, 0.5));
    let ray = Ray::new(v(0.0, 0.0, 0.0), v(0.0, 0.0, 0.0));
    assert!(sphere.hit(&ray, &from(0.001)).is_none());
    let inside = Ray::new(v(0.0, 0.0, -2.0), v(0.0, 0.0, 0.0));
    assert!(sphere.hit(&inside, &from(0.001)).is_none());
}

#[test]
fn hits_lie_on_the_sphere_and_inside_the_interval() {
    let center = v(0.25, -0.5, -4.0);
    let radius = 1.75;
    let sphere = Sphere::new(center, F(radius), matte(0.5, 0.5, 0.5));
    let interval = Interval::new(F(0.001), F(4.5));
    let mut hits = 0;
    for ix in -20..=20 {
        for iy in -20..=20 {
            let ray = Ray::new(v(0.1, 0.2, 0.3), v(ix as f64 / 20.0, iy as f64 / 20.0, -1.0));
            if let Some(rec) = sphere.hit(&ray, &interval) {
                hits += 1;
                assert!(0.001 < rec.time.0 && rec.time.0 < 4.5);
                assert_eq!(rec.point, ray.at(rec.time));
                let distance = rec.point.sub(center).len().0;
                assert!(close(distance, radius, 1e-6 * radius));
            }
        }
    }
    assert!(hits > 100);
}

#[test]
fn list_starts_empty_and_grows_in_order() {
    let mut list: HittableList<Sphere<F>> = HittableList::default();
    assert!(list.objects.is_empty());
    let a = Sphere::new(v(0.0, 0.0, -2.0), F(1.0), matte(0.1, 0.1, 0.1));
    let b = Sphere::new(v(0.0, 0.0, -5.0), F(1.0), matte(0.2, 0.2, 0.2));
    list.add(a);
    list.add(b);
    list.add(a);
    assert_eq!(list.objects, vec![a, b, a]);
    list.clear();
    assert!(list.objects.is_empty());
    let made = HittableList::new(vec![b, a]);
    assert_eq!(made.objects, vec![b, a]);
}

#[test]
fn empty_list_is_never_hit() {
    let list: HittableList<Sphere<F>> = HittableList::new(Vec::new());
    assert!(list.hit(&Ray::new(v(0.0, 0.0, 0.0), v(0.0, 0.0, -1.0)), &from(0.001)).is_none());
}

#[test]
fn list_gives_the_nearest_hit_whatever_the_order() {
    let near = Sphere::new(v(0.0, 0.0, -2.0), F(1.0), matte(0.1, 0.1, 0.1));
    let middle = Sphere::new(v(0.0, 0.0, -5.0), F(1.0), matte(0.2, 0.2, 0.2));
    let far = Sphere::new(v(0.0, 0.0, -9.0), F(1.0), matte(0.3, 0.3, 0.3));
    let aside = Sphere::new(v(0.0, 10.0, -2.0), F(1.0), matte(0.4, 0.4, 0.4));
    let ray = Ray::new(v(0.0, 0.0, 0.0), v(0.0, 0.0, -1.0));
    let orders = [
        vec![near, middle, far, aside],
        vec![far, middle, near, aside],
        vec![aside, middle, far, near],
        vec![middle, near, aside, far],
    ];
    for objects in orders {
        let list = HittableList::new(objects);
        let rec = list.hit(&ray, &from(0.001)).unwrap();
        assert_eq!(rec.time, F(1.0));
        assert_eq!(rec.material, matte(0.1, 0.1, 0.1));
    }
    let behind = HittableList::new(vec![near, middle, far]);
    let rec = behind.hit(&ray, &from(3.5)).unwrap();
    assert_eq!(rec.time, F(4.0));
    assert_eq!(rec.material, matte(0.2, 0.2, 0.2));
    assert!(behind.hit(&ray, &from(10.5)).is_none());
}

#[test]
fn list_hit_is_the_least_of_the_hits_of_its_objects() {
    let mut objects = Vec::new();
    for k in 0..12 {
        let z = -3.0 - ((k * 7) % 12) as f64;
        objects.push(Sphere::new(v(0.1 * k as f64, 0.0, z), F(0.9), matte(0.5, 0.5, 0.5)));
    }
    let list = HittableList::new(objects.clone());
    for ix in -10..=10 {
        let ray = Ray::new(v(0.0, 0.0, 0.0), v(ix as f64 / 40.0, 0.0, -1.0));
        let interval = from(0.001);
        let mut least: Option<f64> = None;
        for object in objects.iter() {
            if let Some(rec) = object.hit(&ray, &interval) {
                least = Some(match least {
                    Some(t) if t <= rec.time.0 => t,
                    _ => rec.time.0,
                });
            }
        }
        assert_eq!(list.hit(&ray, &interval).map(|rec| rec.time.0), least);
    }
}

#[test]
fn of_two_equal_hits_the_list_gives_the_first() {
    let first = Sphere::new(v(0.0, 0.0, -2.0), F(1.0), matte(0.1, 0.1, 0.1));
    let second = Sphere::new(v(0.0, 0.0, -2.0), F(1.0), matte(0.9, 0.9, 0.9));
    let ray = Ray::new(v(0.0, 0.0, 0.0), v(0.0, 0.0, -1.0));
    let rec = HittableList::new(vec![first, second]).hit(&ray, &from(0.001)).unwrap();
    assert_eq!(rec.material, matte(0.1, 0.1, 0.1));
    let rec = HittableList::new(vec![second, first]).hit(&ray, &from(0.001)).unwrap();
    assert_eq!(rec.material, matte(0.9, 0.9, 0.9));
}

#[test]
fn list_of_lists_is_hit_like_one_list() {
    let near = Sphere::new(v(0.0, 0.0, -2.0), F(1.0), matte(0.1, 0.1, 0.1));
    let far = Sphere::new(v(0.0, 0.0, -9.0), F(1.0), matte(0.3, 0.3, 0.3));
    let nested = HittableList::new(vec![HittableList::new(vec![far]), HittableList::new(vec![near])]);
    let ray = Ray::new(v(0.0, 0.0, 0.0), v(0.0, 0.0, -1.0));
    assert_eq!(nested.hit(&ray, &from(0.001)).unwrap().time, F(1.0));
}

#[test]
fn lambertian_scatters_along_normal_plus_direction() {
    let material = Lambertian::new(Color::new(F(0.1), F(0.2), F(0.5)));
    assert_eq!(material.albedo, Color::new(F(0.1), F(0.2), F(0.5)));
    let hit = flat_hit(v(0.0, 0.0, 1.0), true);
    let s = material.scatter_with(&hit, v(0.0, 1.0, 0.0));
    assert_eq!(s.ray, Ray::new(v(1.0, 2.0, 3.0), v(0.0, 1.0, 1.0)));
    assert_eq!(s.attenuation, Color::new(F(0.1), F(0.2), F(0.5)));
}

#[test]
fn lambertian_falls_back_to_the_normal() {
    let material = Lambertian::new(Color::new(F(0.1), F(0.2), F(0.5)));
    let hit = flat_hit(v(0.0, 0.0, 1.0), true);
    let s = material.scatter_with(&hit, v(0.0, 0.0, -1.0));
    assert_eq!(s.ray.direction, v(0.0, 0.0, 1.0));
    let s = material.scatter_with(&hit, v(1e-9, 0.0, -1.0));
    assert_eq!(s.ray.direction, v(0.0, 0.0, 1.0));
    let s = material.scatter_with(&hit, v(1e-7, 0.0, -1.0));
    assert_eq!(s.ray.direction, v(1e-7, 0.0, 0.0));
}

#[test]
fn lambertian_always_scatters_from_the_hit_point() {
    let material = Lambertian::new(Color::new(F(0.1), F(0.2), F(0.5)));
    let hit = flat_hit(v(0.0, 0.0, 1.0), true);
    let ray = Ray::new(v(1.0, 2.0, 4.0), v(0.0, 0.0, -1.0));
    for _ in 0..500 {
        let s = material.scatter(&ray, &hit).unwrap();
        assert_eq!(s.ray.origin, v(1.0, 2.0, 3.0));
        assert_eq!(s.attenuation, Color::new(F(0.1), F(0.2), F(0.5)));
        let offset = s.ray.direction.sub(hit.normal).len().0;
        assert!(close(offset, 1.0, 1e-6) || s.ray.direction == hit.normal);
    }
}

#[test]
fn metal_clamps_the_fuzz_into_zero_to_one() {
    let albedo = Color::new(F(0.8), F(0.6), F(0.2));
    assert_eq!(Metal::new(albedo, F(0.3)).fuzz, F(0.3));
    assert_eq!(Metal::new(albedo, F(1.0)).fuzz, F(1.0));
    assert_eq!(Metal::new(albedo, F(2.5)).fuzz, F(1.0));
    assert_eq!(Metal::new(albedo, F(-0.5)).fuzz, F(0.0));
    assert_eq!(Metal::new(albedo, F(0.3)).albedo, albedo);
}

#[test]
fn polished_metal_mirrors_the_ray() {
    let metal = Metal::new(Color::new(F(0.8), F(0.6), F(0.2)), F(0.0));
    let hit = flat_hit(v(0.0, 1.0, 0.0), true);
    let ray = Ray::new(v(0.0, 3.0, 3.0), v(3.0, -4.0, 0.0));
    let s = metal.scatter_with(&ray, &hit, v(0.0, 0.0, 1.0)).unwrap();
    assert_eq!(s.ray.origin, v(1.0, 2.0, 3.0));
    assert_eq!(s.ray.direction, v(3.0 / 5.0, 4.0 / 5.0, 0.0));
    assert_eq!(s.attenuation, Color::new(F(0.8), F(0.6), F(0.2)));
    for _ in 0..100 {
        let random = metal.scatter(&ray, &hit).unwrap();
        assert_eq!(random.ray.direction, v(3.0 / 5.0, 4.0 / 5.0, 0.0));
    }
}

#[test]
fn fuzzy_metal_moves_the_mirrored_ray() {
    let metal = Metal::new(Color::new(F(0.8), F(0.6), F(0.2)), F(0.5));
    let hit = flat_hit(v(0.0, 1.0, 0.0), true);
    let ray = Ray::new(v(0.0, 3.0, 3.0), v(3.0, -4.0, 0.0));
    let s = metal.scatter_with(&ray, &hit, v(0.0, 0.0, 1.0)).unwrap();
    assert_eq!(s.ray.direction, v(3.0 / 5.0, 4.0 / 5.0, 0.5));
}

#[test]
fn metal_absorbs_a_ray_pushed_under_the_surface() {
    let metal = Metal::new(Color::new(F(0.8), F(0.6), F(0.2)), F(1.0));
    let hit = flat_hit(v(0.0, 1.0, 0.0), true);
    let ray = Ray::new(v(0.0, 3.0, 3.0), v(4.0, -3.0, 0.0));
    assert!(metal.scatter_with(&ray, &hit, v(0.0, -1.0, 0.0)).is_none());
    // exactly along the surface counts as under it
    let grazing = Metal::new(Color::new(F(0.8), F(0.6), F(0.2)), F(0.0));
    let along = Ray::new(v(0.0, 2.0, 3.0), v(1.0, 0.0, 0.0));
    assert!(grazing.scatter_with(&along, &hit, v(0.0, 0.0, 1.0)).is_none());
    // a ray without direction has no mirror image
    let still = Ray::new(v(0.0, 3.0, 3.0), v(0.0, 0.0, 0.0));
    assert!(grazing.scatter_with(&still, &hit, v(0.0, 0.0, 1.0)).is_none());
}

#[test]
fn reflectance_follows_schlick() {
    assert!(close(Dielectric::reflectance(F(1.0), F(1.5)).0, 0.04, 1e-15));
    assert!(close(Dielectric::reflectance(F(1.0), F(1.0 / 1.5)).0, 0.04, 1e-15));
    assert_eq!(Dielectric::reflectance(F(0.0), F(1.5)), F(1.0));
    assert_eq!(Dielectric::reflectance(F(0.5), F(1.0)), F(0.03125));
    let r0 = 0.04f64;
    assert!(close(Dielectric::reflectance(F(0.5), F(1.5)).0, r0 + (1.0 - r0) * 0.03125, 1e-15));
}

#[test]
fn glass_reflects_where_no_refracted_ray_exists() {
    let glass = Dielectric::new(F(1.5));
    assert_eq!(glass.refraction_index, F(1.5));
    // from inside: the ratio is 1.5, the sine 0.8, and 1.5 * 0.8 > 1
    let hit = flat_hit(v(0.0, 1.0, 0.0), false);
    let ray = Ray::new(v(0.0, 3.0, 3.0), v(0.8, -0.6, 0.0));
    for xi in [0.0, 0.25, 0.5, 0.999999] {
        let s = glass.scatter_with(&ray, &hit, F(xi));
        assert_eq!(s.ray.origin, v(1.0, 2.0, 3.0));
        assert!(close(s.ray.direction.x.0, 0.8, 1e-12));
        assert!(close(s.ray.direction.y.0, 0.6, 1e-12));
        assert_eq!(s.ray.direction.z, F(0.0));
        assert_eq!(s.attenuation, Color::new(F(1.0), F(1.0), F(1.0)));
    }
    for _ in 0..200 {
        let s = glass.scatter(&ray, &hit).unwrap();
        assert!(s.ray.direction.y.0 > 0.0);
    }
}

#[test]
fn glass_refracts_or_reflects_by_the_random_number() {
    let glass = Dielectric::new(F(1.5));
    let hit = flat_hit(v(0.0, 1.0, 0.0), true);
    let ray = Ray::new(v(1.0, 5.0, 3.0), v(0.0, -3.0, 0.0));
    // straight on, the reflectance is 0.04
    let through = glass.scatter_with(&ray, &hit, F(0.5));
    assert_eq!(through.ray.direction, v(0.0, -1.0, 0.0));
    let back = glass.scatter_with(&ray, &hit, F(0.01));
    assert_eq!(back.ray.direction, v(0.0, 1.0, 0.0));
    let slanted = Ray::new(v(0.0, 5.0, 3.0), v(0.5, -(0.75f64.sqrt()), 0.0));
    let bent = glass.scatter_with(&slanted, &hit, F(0.9));
    assert!(close(bent.ray.direction.x.0, 1.0 / 3.0, 1e-12));
    assert!(close(bent.ray.direction.y.0, -((1.0f64 - 1.0 / 9.0).sqrt()), 1e-12));
}

#[test]
fn glass_passes_on_a_ray_without_direction() {
    let glass = Dielectric::new(F(1.5));
    let hit = flat_hit(v(0.0, 1.0, 0.0), true);
    let still = Ray::new(v(0.0, 5.0, 3.0), v(0.0, 0.0, 0.0));
    for xi in [0.0, 0.5, 0.99] {
        let s = glass.scatter_with(&still, &hit, F(xi));
        assert_eq!(s.ray, Ray::new(v(1.0, 2.0, 3.0), v(0.0, 0.0, 0.0)));
        assert_eq!(s.attenuation, Color::new(F(1.0), F(1.0), F(1.0)));
    }
    assert_eq!(glass.scatter(&still, &hit).unwrap().ray.direction, v(0.0, 0.0, 0.0));
}

#[test]
fn glass_from_inside_bends_away_from_the_normal() {
    let glass = Dielectric::new(F(1.5));
    let hit = flat_hit(v(0.0, 1.0, 0.0), false);
    // sine 0.28: 1.5 * 0.28 = 0.42
    let ray = Ray::new(v(0.0, 5.0, 3.0), v(0.28, -0.96, 0.0));
    let s = glass.scatter_with(&ray, &hit, F(0.9));
    assert!(close(s.ray.direction.x.0, 0.42, 1e-12));
    assert!(close(s.ray.direction.len().0, 1.0, 1e-12));
}

#[test]
fn material_kind_scatters_as_its_material() {
    let hit = flat_hit(v(0.0, 1.0, 0.0), true);
    let ray = Ray::new(v(0.0, 3.0, 3.0), v(3.0, -4.0, 0.0));
    let mirror = MaterialKind::Metal(Metal::new(Color::new(F(0.8), F(0.6), F(0.2)), F(0.0)));
    let s = mirror.scatter(&ray, &hit).unwrap();
    assert_eq!(s.ray.direction, v(3.0 / 5.0, 4.0 / 5.0, 0.0));
    let s = matte(0.1, 0.2, 0.5).scatter(&ray, &hit).unwrap();
    assert_eq!(s.attenuation, Color::new(F(0.1), F(0.2), F(0.5)));
    let glass = MaterialKind::Dielectric(Dielectric::new(F(1.5)));
    let s = glass.scatter(&ray, &hit).unwrap();
    assert_eq!(s.attenuation, Color::new(F(1.0), F(1.0), F(1.0)));
    assert!(close(s.ray.direction.len().0, 1.0, 1e-12));
}
