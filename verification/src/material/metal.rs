//! Specular surfaces with an optional blur.

use crate::color::Color;
use crate::fixed::{lemma_zero_is_neutral, Fixed};
use crate::hit_record::HitRecord;
use crate::material::Draw;
use crate::ray::Ray;
use crate::scalar::Scalar;
use crate::vec3::Vec3;
use vstd::prelude::*;

verus! {

/// A mirror tinted by `albedo` whose reflections are blurred by `fuzz`.
#[derive(Clone, Copy)]
pub struct Metal<S: Scalar> {
    albedo: Color<S>,
    fuzz: S,
}

/// `x` held to the range from zero to one: zero where `x` is below zero, one
/// where it is above one, and `x` itself otherwise.
pub open spec fn clamp_unit<S: Scalar>(x: S) -> S {
    let low = if x.lt_spec(S::from_int_spec(0)) {
        S::from_int_spec(0)
    } else {
        x
    };
    if S::from_int_spec(1).lt_spec(low) {
        S::from_int_spec(1)
    } else {
        low
    }
}

impl<S: Scalar> Metal<S> {
    pub closed spec fn albedo(self) -> Color<S> {
        self.albedo
    }

    pub closed spec fn fuzz(self) -> S {
        self.fuzz
    }

    /// The fuzz is neither below zero nor above one.
    pub open spec fn wf(self) -> bool {
        &&& !self.fuzz().lt_spec(S::from_int_spec(0))
        &&& !S::from_int_spec(1).lt_spec(self.fuzz())
    }

    /// The direction a ray leaves in: the unit vector of the mirrored
    /// direction plus `fuzz` times the unit vector of the cube sample.
    pub open spec fn scatter_direction(self, incoming: Vec3<S>, normal: Vec3<S>, cube: Vec3<S>) -> Vec3<S> {
        incoming.reflect_spec(normal).normalized_spec().plus(
            cube.normalized_spec().scaled(self.fuzz()),
        )
    }

    pub open spec fn scatter_spec(self, ray: Ray<S>, hit_record: HitRecord<'_, S>, draw: Draw<S>) -> Option<
        (Color<S>, Ray<S>),
    > {
        Some(
            (
                self.albedo(),
                Ray {
                    origin: hit_record.hit_point,
                    direction: self.scatter_direction(ray.direction, hit_record.normal, draw.cube),
                },
            ),
        )
    }

    /// A metal with the given tint; `fuzz` is clamped to the range from zero
    /// to one.
    pub fn new(albedo: Color<S>, fuzz: S) -> (r: Self)
        ensures
            r.albedo() == albedo,
            r.fuzz() == clamp_unit(fuzz),
            r.wf(),
    {
        let zero = S::from_int(0);
        let one = S::from_int(1);
        let low = if fuzz.lt(zero) {
            zero
        } else {
            fuzz
        };
        let clamped = if one.lt(low) {
            one
        } else {
            low
        };
        proof {
            S::law_lt_irreflexive(zero);
            S::law_lt_irreflexive(one);
            S::law_from_int_monotone(0, 1);
        }
        Metal { albedo, fuzz: clamped }
    }

    /// Scatters every ray: the attenuation is the albedo and the outgoing
    /// ray starts at the hit point.
    pub fn scatter(&self, ray: &Ray<S>, hit_record: &HitRecord<'_, S>, draw: &Draw<S>) -> (r:
        Option<(Color<S>, Ray<S>)>)
        ensures
            r == self.scatter_spec(*ray, *hit_record, *draw),
            r matches Some((attenuation, scattered)) && attenuation == self.albedo() && scattered.origin
                == hit_record.hit_point,
    {
        let reflection_dir = ray.direction().reflect(&hit_record.normal);
        let reflection_dir_fuzzed = reflection_dir.normalized() + (Vec3::new_rand_normalized(
            draw.cube,
        ) * self.fuzz);
        let reflection_ray = Ray::new(hit_record.hit_point, reflection_dir_fuzzed);

        Some((self.albedo, reflection_ray))
    }
}

/// With the fixed-point scalar, a metal without fuzz scatters along the exact
/// unit vector of the mirrored direction, whatever the cube sample is.
pub proof fn lemma_no_fuzz_mirrors(
    metal: Metal<Fixed>,
    incoming: Vec3<Fixed>,
    normal: Vec3<Fixed>,
    cube: Vec3<Fixed>,
)
    requires
        metal.fuzz() == Fixed::from_int_spec(0),
    ensures
        metal.scatter_direction(incoming, normal, cube) == incoming.reflect_spec(
            normal,
        ).normalized_spec(),
{
    let unit = cube.normalized_spec();
    let mirrored = incoming.reflect_spec(normal).normalized_spec();
    lemma_zero_is_neutral(unit.x);
    lemma_zero_is_neutral(unit.y);
    lemma_zero_is_neutral(unit.z);
    lemma_zero_is_neutral(mirrored.x);
    lemma_zero_is_neutral(mirrored.y);
    lemma_zero_is_neutral(mirrored.z);
}

} // verus!
