//! Ideal diffuse surfaces.

use crate::color::Color;
use crate::hit_record::HitRecord;
use crate::material::Draw;
use crate::ray::Ray;
use crate::scalar::Scalar;
use crate::vec3::Vec3;
use vstd::prelude::*;

verus! {

/// A diffuse surface that scatters around its normal and tints by `albedo`.
#[derive(Clone, Copy)]
pub struct Lambertian<S: Scalar> {
    albedo: Color<S>,
}

impl<S: Scalar> Lambertian<S> {
    pub closed spec fn albedo(self) -> Color<S> {
        self.albedo
    }

    /// The direction a ray leaves in: the normal plus the unit vector of the
    /// cube sample, or the bare normal where that sum is near zero.
    pub open spec fn scatter_direction(normal: Vec3<S>, cube: Vec3<S>) -> Vec3<S> {
        let sum = normal.plus(cube.normalized_spec());
        if sum.is_near_zero_spec() {
            normal
        } else {
            sum
        }
    }

    pub open spec fn scatter_spec(self, ray: Ray<S>, hit_record: HitRecord<'_, S>, draw: Draw<S>) -> Option<
        (Color<S>, Ray<S>),
    > {
        Some(
            (
                self.albedo(),
                Ray {
                    origin: hit_record.hit_point,
                    direction: Self::scatter_direction(hit_record.normal, draw.cube),
                },
            ),
        )
    }

    pub fn new(albedo: Color<S>) -> (r: Self)
        ensures
            r.albedo() == albedo,
    {
        Lambertian { albedo }
    }

    /// Scatters every ray: the attenuation is the albedo and the outgoing
    /// ray starts at the hit point.
    pub fn scatter(&self, _ray: &Ray<S>, hit_record: &HitRecord<'_, S>, draw: &Draw<S>) -> (r:
        Option<(Color<S>, Ray<S>)>)
        ensures
            r == self.scatter_spec(*_ray, *hit_record, *draw),
            r matches Some((attenuation, scattered)) && attenuation == self.albedo() && scattered.origin
                == hit_record.hit_point,
    {
        let mut reflection_dir = hit_record.normal + Vec3::new_rand_normalized(draw.cube);
        if reflection_dir.is_near_zero() {
            reflection_dir = hit_record.normal;
        }
        let reflection_ray = Ray::new(hit_record.hit_point, reflection_dir);

        Some((self.albedo, reflection_ray))
    }
}

} // verus!
