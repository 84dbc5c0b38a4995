//! Materials: how a surface scatters the light that reaches it.

pub mod dielectric;
pub mod lambertian;
pub mod metal;

use crate::color::Color;
use crate::hit_record::HitRecord;
use crate::material::dielectric::Dielectric;
use crate::material::lambertian::Lambertian;
use crate::material::metal::Metal;
use crate::ray::Ray;
use crate::scalar::Scalar;
use crate::vec3::Vec3;
use vstd::prelude::*;

verus! {

/// The random numbers one bounce may consume: a sample of the cube
/// `[-1, 1]^3`, drawn component by component, and a number of `[0, 1)`.
#[derive(Clone, Copy)]
pub struct Draw<S: Scalar> {
    pub cube: Vec3<S>,
    pub coin: S,
}

/// The material of a surface.
#[derive(Clone, Copy)]
pub enum Material<S: Scalar> {
    Lambertian(Lambertian<S>),
    Metal(Metal<S>),
    Dielectric(Dielectric<S>),
}

impl<S: Scalar> Material<S> {
    pub open spec fn scatter_spec(self, ray: Ray<S>, hit_record: HitRecord<'_, S>, draw: Draw<S>) -> Option<
        (Color<S>, Ray<S>),
    > {
        match self {
            Material::Lambertian(m) => m.scatter_spec(ray, hit_record, draw),
            Material::Metal(m) => m.scatter_spec(ray, hit_record, draw),
            Material::Dielectric(m) => m.scatter_spec(ray, hit_record, draw),
        }
    }

    /// The attenuation and the outgoing ray for a ray that met the surface as
    /// `hit_record` tells, or `None` where the surface absorbs the light.
    pub fn scatter(&self, ray: &Ray<S>, hit_record: &HitRecord<'_, S>, draw: &Draw<S>) -> (r:
        Option<(Color<S>, Ray<S>)>)
        ensures
            r == self.scatter_spec(*ray, *hit_record, *draw),
    {
        match self {
            Material::Lambertian(m) => m.scatter(ray, hit_record, draw),
            Material::Metal(m) => m.scatter(ray, hit_record, draw),
            Material::Dielectric(m) => m.scatter(ray, hit_record, draw),
        }
    }
}

} // verus!
