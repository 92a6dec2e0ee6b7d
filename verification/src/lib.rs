pub mod camera;
pub mod color;
pub mod float;
pub mod hittable;
pub mod hittable_list;
pub mod interval;
pub mod material;
pub mod random;
pub mod ray;
pub mod sphere;
pub mod text;
pub mod vec3;
