//! A recursive Monte Carlo path tracer for scenes of analytic spheres.
//!
//! Every algorithm of the renderer is written over an abstract [`scalar::Scalar`]
//! number type and verified once for all such types. The random numbers a
//! render consumes are drawn by the caller and handed in as plain values, so
//! every function here is a pure function of its arguments.
//!
//! A render goes from [`render::render_pixel`] through [`camera::Camera`] to
//! [`ray::Ray::cast`], which asks the [`world::World`] for the nearest
//! [`sphere::Sphere`] and lets its [`material::Material`] scatter the ray.

pub mod camera;
pub mod color;
pub mod fixed;
pub mod hit_record;
pub mod material;
pub mod ray;
pub mod render;
pub mod scalar;
pub mod sphere;
pub mod vec3;
pub mod world;
