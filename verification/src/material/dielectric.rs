//! Clear refracting surfaces such as glass.

use crate::color::Color;
use crate::hit_record::HitRecord;
use crate::material::Draw;
use crate::ray::Ray;
use crate::scalar::Scalar;
use crate::vec3::Vec3;
use core::ops::Neg;
use vstd::prelude::*;

verus! {

/// A clear material. `refraction_index` is its refractive index in vacuum or
/// air, or the ratio of its index over that of the enclosing medium.
#[derive(Clone, Copy)]
pub struct Dielectric<S: Scalar> {
    refraction_index: S,
}

/// The fifth power `x * (x^2)^2`.
pub open spec fn pow5_spec<S: Scalar>(x: S) -> S {
    let x2 = x.mul_spec(x);
    x.mul_spec(x2.mul_spec(x2))
}

/// Schlick's approximation of the share of light that is reflected:
/// `r0 + (1 - r0) (1 - cos)^5` with `r0 = ((1 - ratio) / (1 + ratio))^2`.
pub open spec fn reflectance_spec<S: Scalar>(cos: S, ratio: S) -> S {
    let one = S::from_int_spec(1);
    let temp = one.sub_spec(ratio).div_spec(one.add_spec(ratio));
    let r0 = temp.mul_spec(temp);
    r0.add_spec(one.sub_spec(r0).mul_spec(pow5_spec(one.sub_spec(cos))))
}

/// Schlick's approximation of the reflectance at the incidence cosine `cos`
/// for the refraction ratio `refraction_index`.
pub fn reflectance<S: Scalar>(cos: S, refraction_index: S) -> (r: S)
    ensures
        r == reflectance_spec(cos, refraction_index),
{
    let one = S::from_int(1);
    let temp = one.sub(refraction_index).div(one.add(refraction_index));
    let r0 = temp.mul(temp);
    let x = one.sub(cos);
    let x2 = x.mul(x);
    r0.add(one.sub(r0).mul(x.mul(x2.mul(x2))))
}

impl<S: Scalar> Dielectric<S> {
    pub closed spec fn refraction_index(self) -> S {
        self.refraction_index
    }

    /// The ratio of the refractive indices a ray crosses: the inverse of the
    /// index on the way in, the index itself on the way out.
    pub open spec fn ratio(self, front_face: bool) -> S {
        if front_face {
            S::from_int_spec(1).div_spec(self.refraction_index())
        } else {
            self.refraction_index()
        }
    }

    /// The cosine between the reversed unit direction and the normal.
    pub open spec fn cos_spec(unit_dir: Vec3<S>, normal: Vec3<S>) -> S {
        unit_dir.dot_spec(normal.negated())
    }

    /// The sine that belongs to the cosine `cos`.
    pub open spec fn sin_spec(cos: S) -> S {
        S::from_int_spec(1).sub_spec(cos.mul_spec(cos)).sqrt_spec()
    }

    /// Total internal reflection: the ratio times the sine exceeds one.
    pub open spec fn cannot_refract(ratio: S, cos: S) -> bool {
        S::from_int_spec(1).lt_spec(ratio.mul_spec(Self::sin_spec(cos)))
    }

    /// Whether the ray is reflected: always under total internal reflection,
    /// and otherwise where the coin is below the reflectance.
    pub open spec fn reflects(ratio: S, cos: S, coin: S) -> bool {
        Self::cannot_refract(ratio, cos) || coin.lt_spec(reflectance_spec(cos, ratio))
    }

    /// The refracted direction by Snell's law, from its parts across and
    /// along the normal.
    pub open spec fn refract_spec(unit_dir: Vec3<S>, normal: Vec3<S>, ratio: S, cos: S) -> Vec3<S> {
        let r_out_perp = unit_dir.plus(normal.scaled(cos)).scaled(ratio);
        let r_out_parallel = normal.scaled(
            S::from_int_spec(1).sub_spec(r_out_perp.length_squared_spec()).sqrt_spec().neg_spec(),
        );
        r_out_perp.plus(r_out_parallel)
    }

    /// The direction a ray leaves in.
    pub open spec fn scatter_direction(self, incoming: Vec3<S>, normal: Vec3<S>, front_face: bool, coin: S) -> Vec3<S> {
        let unit_dir = incoming.normalized_spec();
        let ratio = self.ratio(front_face);
        let cos = Self::cos_spec(unit_dir, normal);
        if Self::reflects(ratio, cos, coin) {
            unit_dir.reflect_spec(normal)
        } else {
            Self::refract_spec(unit_dir, normal, ratio, cos)
        }
    }

    pub open spec fn scatter_spec(self, ray: Ray<S>, hit_record: HitRecord<'_, S>, draw: Draw<S>) -> Option<
        (Color<S>, Ray<S>),
    > {
        Some(
            (
                Color::diag(S::from_int_spec(1)),
                Ray {
                    origin: hit_record.hit_point,
                    direction: self.scatter_direction(
                        ray.direction,
                        hit_record.normal,
                        hit_record.front_face,
                        draw.coin,
                    ),
                },
            ),
        )
    }

    pub fn new(refraction_index: S) -> (r: Self)
        ensures
            r.refraction_index() == refraction_index,
    {
        Dielectric { refraction_index }
    }

    /// Scatters every ray without loss: the attenuation is white. Under
    /// total internal reflection the ray is mirrored whatever the coin says.
    pub fn scatter(&self, ray: &Ray<S>, hit_record: &HitRecord<'_, S>, draw: &Draw<S>) -> (r:
        Option<(Color<S>, Ray<S>)>)
        ensures
            r == self.scatter_spec(*ray, *hit_record, *draw),
            r matches Some((attenuation, scattered)) && attenuation == Color::<S>::diag(S::from_int_spec(1)) && scattered.origin
                == hit_record.hit_point,
            Self::cannot_refract(
                self.ratio(hit_record.front_face),
                Self::cos_spec(ray.direction.normalized_spec(), hit_record.normal),
            ) ==> (r matches Some((_, scattered)) && scattered.direction
                == ray.direction.normalized_spec().reflect_spec(hit_record.normal)),
    {
        let ray_dir = ray.direction().normalized();
        let n = hit_record.normal;
        let one = S::from_int(1);
        let r = if hit_record.front_face {
            one.div(self.refraction_index)
        } else {
            self.refraction_index
        };

        let cos = ray_dir.dot(&n.neg());
        let sin = one.sub(cos.mul(cos)).sqrt();

        let cannot_refract = one.lt(r.mul(sin));
        let ray_out_dir = if cannot_refract || draw.coin.lt(reflectance(cos, r)) {
            ray_dir.reflect(&n)
        } else {
            let r_out_perp = (ray_dir + (n * cos)) * r;
            let r_out_parallel = n * one.sub(r_out_perp.length_squared()).sqrt().neg();

            r_out_perp + r_out_parallel
        };

        let ray_out = Ray::new(hit_record.hit_point, ray_out_dir);
        Some((Color::new_diag(one), ray_out))
    }
}

} // verus!
