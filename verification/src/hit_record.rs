//! The result of an intersection test, and what can be intersected.

use crate::material::Material;
use crate::ray::Ray;
use crate::scalar::Scalar;
use crate::vec3::{Point3, Vec3};
use vstd::prelude::*;

verus! {

/// Where a ray met a surface.
///
/// The normal is the surface normal turned against the incoming ray, and
/// `front_face` records whether the ray came from outside. The material is
/// that of the shape that was hit.
#[derive(Clone, Copy)]
pub struct HitRecord<'a, S: Scalar> {
    pub hit_point: Point3<S>,
    pub normal: Vec3<S>,
    pub t: S,
    pub front_face: bool,
    pub material: &'a Material<S>,
}

impl<'a, S: Scalar> HitRecord<'a, S> {
    /// Whether a ray along `direction` meets a surface with the outward
    /// normal `outward_normal` from outside.
    pub open spec fn faces_front(direction: Vec3<S>, outward_normal: Vec3<S>) -> bool {
        direction.dot_spec(outward_normal).lt_spec(S::from_int_spec(0))
    }

    /// The outward normal turned against a ray along `direction`.
    pub open spec fn facing_normal(direction: Vec3<S>, outward_normal: Vec3<S>) -> Vec3<S> {
        if Self::faces_front(direction, outward_normal) {
            outward_normal
        } else {
            outward_normal.scaled(S::from_int_spec(-1i64))
        }
    }

    /// The record with its normal and face set from `outward_normal`.
    pub open spec fn with_face_normal(self, r: Ray<S>, outward_normal: Vec3<S>) -> Self {
        HitRecord {
            front_face: Self::faces_front(r.direction, outward_normal),
            normal: Self::facing_normal(r.direction, outward_normal),
            ..self
        }
    }

    pub fn new(
        hit_point: Point3<S>,
        normal: Vec3<S>,
        t: S,
        front_face: bool,
        material: &'a Material<S>,
    ) -> (r: Self)
        ensures
            r == (HitRecord { hit_point, normal, t, front_face, material }),
    {
        HitRecord { hit_point, normal, t, front_face, material }
    }

    /// Orients the record against the ray `r`: the ray meets the front face
    /// exactly when its direction and the outward normal have a strictly
    /// negative dot product, and the stored normal is the outward normal
    /// itself on the front face and its opposite otherwise.
    pub fn set_face_normal(&mut self, r: &Ray<S>, outward_normal: Vec3<S>)
        ensures
            *final(self) == old(self).with_face_normal(*r, outward_normal),
    {
        self.front_face = r.direction().dot(&outward_normal).lt(S::from_int(0));
        self.normal = if self.front_face {
            outward_normal
        } else {
            outward_normal * S::from_int(-1)
        };
    }
}

/// A shape that a ray can meet.
pub trait Hittable<S: Scalar> {
    /// The nearest meeting of `ray` with the shape whose parameter lies
    /// strictly between `t_min` and `t_max`, if there is one.
    spec fn hit_spec(&self, ray: Ray<S>, t_min: S, t_max: S) -> Option<HitRecord<'_, S>>;

    fn hit(&self, ray: Ray<S>, t_min: S, t_max: S) -> (r: Option<HitRecord<'_, S>>)
        ensures
            r == self.hit_spec(ray, t_min, t_max),
    ;

    /// A hit lies in the range it was asked for: its parameter is neither at
    /// or below `t_min` nor at or above `t_max`.
    proof fn law_hit_in_range(&self, ray: Ray<S>, t_min: S, t_max: S)
        requires
            self.hit_spec(ray, t_min, t_max) is Some,
        ensures
            !self.hit_spec(ray, t_min, t_max)->0.t.le_spec(t_min),
            !t_max.le_spec(self.hit_spec(ray, t_min, t_max)->0.t),
    ;

    /// Lowering the upper bound to a value still above a hit keeps that hit.
    proof fn law_hit_narrowing(&self, ray: Ray<S>, t_min: S, t_max: S, bound: S)
        requires
            self.hit_spec(ray, t_min, t_max) is Some,
            self.hit_spec(ray, t_min, t_max)->0.t.lt_spec(bound),
            bound.le_spec(t_max),
        ensures
            self.hit_spec(ray, t_min, bound) == self.hit_spec(ray, t_min, t_max),
    ;
}

} // verus!
