//! Spheres and the analytic ray-sphere solver.

use crate::fixed::{
    lemma_div_is_monotone, lemma_sqrt_is_not_negative, lemma_square_is_not_negative, Fixed,
};
use crate::hit_record::{HitRecord, Hittable};
use crate::material::Material;
use crate::ray::Ray;
use crate::scalar::Scalar;
use crate::vec3::{Point3, Vec3};
use crate::world::{answers_widen, hit_among, lemma_hit_order_independent};
use vstd::prelude::*;

verus! {

/// A sphere with its material. It does not change once it is built.
pub struct Sphere<S: Scalar> {
    center: Point3<S>,
    radius: S,
    material: Material<S>,
}

/// `t` lies outside the open range between `t_min` and `t_max`.
pub open spec fn out_of_range<S: Scalar>(t: S, t_min: S, t_max: S) -> bool {
    t.le_spec(t_min) || t_max.le_spec(t)
}

impl<S: Scalar> Sphere<S> {
    pub closed spec fn center(&self) -> Point3<S> {
        self.center
    }

    pub closed spec fn radius(&self) -> S {
        self.radius
    }

    pub closed spec fn material(&self) -> &Material<S> {
        &self.material
    }

    /// The radius is strictly positive.
    pub open spec fn wf(&self) -> bool {
        S::from_int_spec(0).lt_spec(self.radius())
    }

    /// The vector from the ray's origin to the centre.
    pub open spec fn oc(&self, ray: Ray<S>) -> Vec3<S> {
        self.center().minus(ray.origin)
    }

    /// The quadratic's leading coefficient: the squared length of the direction.
    pub open spec fn quad_a(ray: Ray<S>) -> S {
        ray.direction.length_squared_spec()
    }

    /// Half of the quadratic's linear coefficient, with its sign turned.
    pub open spec fn quad_half_b(&self, ray: Ray<S>) -> S {
        self.oc(ray).dot_spec(ray.direction)
    }

    /// The quadratic's constant coefficient.
    pub open spec fn quad_c(&self, ray: Ray<S>) -> S {
        self.oc(ray).length_squared_spec().sub_spec(self.radius().mul_spec(self.radius()))
    }

    /// `half_b^2 - a c`: negative where the ray's line misses the sphere.
    pub open spec fn discriminant(&self, ray: Ray<S>) -> S {
        self.quad_half_b(ray).mul_spec(self.quad_half_b(ray)).sub_spec(
            Self::quad_a(ray).mul_spec(self.quad_c(ray)),
        )
    }

    /// The smaller root `(half_b - sqrt(disc)) / a`.
    pub open spec fn near_root(&self, ray: Ray<S>) -> S {
        self.quad_half_b(ray).sub_spec(self.discriminant(ray).sqrt_spec()).div_spec(
            Self::quad_a(ray),
        )
    }

    /// The larger root `(half_b + sqrt(disc)) / a`.
    pub open spec fn far_root(&self, ray: Ray<S>) -> S {
        self.quad_half_b(ray).add_spec(self.discriminant(ray).sqrt_spec()).div_spec(
            Self::quad_a(ray),
        )
    }

    /// The parameter at which the ray is taken to meet the sphere: none
    /// where the discriminant is negative; else the smaller root if it lies
    /// in the range; else the larger root if that one does; else none.
    pub open spec fn root_spec(&self, ray: Ray<S>, t_min: S, t_max: S) -> Option<S> {
        if self.discriminant(ray).lt_spec(S::from_int_spec(0)) {
            None
        } else if !out_of_range(self.near_root(ray), t_min, t_max) {
            Some(self.near_root(ray))
        } else if !out_of_range(self.far_root(ray), t_min, t_max) {
            Some(self.far_root(ray))
        } else {
            None
        }
    }

    /// The outward unit normal at the point `p` of the surface.
    pub open spec fn outward_normal(&self, p: Point3<S>) -> Vec3<S> {
        p.minus(self.center()).divided(self.radius())
    }

    /// The record of the meeting at the parameter `t`.
    pub open spec fn record_at(&self, ray: Ray<S>, t: S) -> HitRecord<'_, S> {
        let p = ray.at_spec(t);
        let outward = self.outward_normal(p);
        HitRecord {
            hit_point: p,
            normal: HitRecord::<S>::facing_normal(ray.direction, outward),
            t,
            front_face: HitRecord::<S>::faces_front(ray.direction, outward),
            material: self.material(),
        }
    }

    /// A sphere around `center`. The radius is a divisor and must be
    /// strictly positive.
    pub fn new(center: Point3<S>, radius: S, material: Material<S>) -> (r: Self)
        requires
            S::from_int_spec(0).lt_spec(radius),
        ensures
            r.center() == center,
            r.radius() == radius,
            *r.material() == material,
            r.wf(),
    {
        Sphere { center, radius, material }
    }
}

impl<S: Scalar> Hittable<S> for Sphere<S> {
    open spec fn hit_spec(&self, ray: Ray<S>, t_min: S, t_max: S) -> Option<HitRecord<'_, S>> {
        match self.root_spec(ray, t_min, t_max) {
            None => None,
            Some(t) => Some(self.record_at(ray, t)),
        }
    }

    fn hit(&self, ray: Ray<S>, t_min: S, t_max: S) -> (r: Option<HitRecord<'_, S>>) {
        let oc = self.center - ray.origin();
        let a = ray.direction().length_squared();
        let half_b = oc.dot(&ray.direction());
        let c = oc.length_squared().sub(self.radius.mul(self.radius));

        let discriminant = half_b.mul(half_b).sub(a.mul(c));
        if discriminant.lt(S::from_int(0)) {
            return None;
        }
        // Find the nearest root that lies in the acceptable range.

        let sqrt_discriminant = discriminant.sqrt();
        let mut root = half_b.sub(sqrt_discriminant).div(a);
        if root.le(t_min) || t_max.le(root) {
            root = half_b.add(sqrt_discriminant).div(a);
            if root.le(t_min) || t_max.le(root) {
                return None;
            }
        }
        let mut hit = HitRecord::new(ray.at(root), Vec3::new_zero(), root, false, &self.material);
        let outward_normal = (hit.hit_point - self.center) / self.radius;
        hit.set_face_normal(&ray, outward_normal);

        Some(hit)
    }

    proof fn law_hit_in_range(&self, ray: Ray<S>, t_min: S, t_max: S) {
    }

    proof fn law_hit_narrowing(&self, ray: Ray<S>, t_min: S, t_max: S, bound: S) {
        let t = self.root_spec(ray, t_min, t_max)->0;
        S::law_lt_excludes_ge(t, bound);
        if t_max.le_spec(self.near_root(ray)) {
            S::law_le_transitive(bound, t_max, self.near_root(ray));
        }
    }
}

/// A ray whose line misses the sphere, so that the discriminant is negative,
/// meets nothing, and neither does a ray whose two roots both lie outside
/// the range.
pub proof fn lemma_miss<S: Scalar>(sphere: Sphere<S>, ray: Ray<S>, t_min: S, t_max: S)
    requires
        sphere.discriminant(ray).lt_spec(S::from_int_spec(0)) || (out_of_range(
            sphere.near_root(ray),
            t_min,
            t_max,
        ) && out_of_range(sphere.far_root(ray), t_min, t_max)),
    ensures
        sphere.hit_spec(ray, t_min, t_max) is None,
{
}

/// A hit lies at a root of the quadratic that is in range: at the smaller
/// root, or at the larger one where the smaller is out of range.
pub proof fn lemma_hit_at_nearest_root<S: Scalar>(
    sphere: Sphere<S>,
    ray: Ray<S>,
    t_min: S,
    t_max: S,
)
    requires
        sphere.hit_spec(ray, t_min, t_max) is Some,
    ensures
        !sphere.discriminant(ray).lt_spec(S::from_int_spec(0)),
        ({
            let t = sphere.hit_spec(ray, t_min, t_max)->0.t;
            &&& !out_of_range(t, t_min, t_max)
            &&& sphere.hit_spec(ray, t_min, t_max)->0 == sphere.record_at(ray, t)
            &&& t == sphere.near_root(ray) || (t == sphere.far_root(ray) && out_of_range(
                sphere.near_root(ray),
                t_min,
                t_max,
            ))
        }),
{
}

/// A sphere whose larger root is not strictly below its smaller one
/// satisfies [`answers_widen`]: a hit found under a lower bound is the hit
/// for the whole range.
pub proof fn lemma_sphere_answers_widen<S: Scalar>(
    sphere: Sphere<S>,
    ray: Ray<S>,
    t_min: S,
    t_max: S,
)
    requires
        !sphere.far_root(ray).lt_spec(sphere.near_root(ray)),
    ensures
        answers_widen(sphere, ray, t_min, t_max),
{
    let near = sphere.near_root(ray);
    let far = sphere.far_root(ray);
    assert forall|bound: S| bound.lt_spec(t_max) implies match #[trigger] sphere.hit_spec(
        ray,
        t_min,
        bound,
    ) {
        Some(rec) => rec.t.lt_spec(bound) ==> match sphere.hit_spec(ray, t_min, t_max) {
            Some(full) => full == rec || full.t.lt_spec(rec.t),
            None => false,
        },
        None => true,
    } by {
        let found = sphere.hit_spec(ray, t_min, bound);
        if found is Some && found->0.t.lt_spec(bound) {
            let t = found->0.t;
            S::law_lt_transitive(t, bound, t_max);
            S::law_lt_excludes_ge(t, t_max);
            if out_of_range(near, t_min, bound) && !out_of_range(near, t_min, t_max) {
                S::law_lt_le_transitive(far, bound, near);
            }
        }
    }
}

/// With the fixed-point scalar the smaller root never exceeds the larger one.
pub proof fn lemma_fixed_roots_ordered(sphere: Sphere<Fixed>, ray: Ray<Fixed>)
    ensures
        !sphere.far_root(ray).lt_spec(sphere.near_root(ray)),
{
    let half_b = sphere.quad_half_b(ray);
    let root = sphere.discriminant(ray).sqrt_spec();
    let a = Sphere::<Fixed>::quad_a(ray);
    lemma_sqrt_is_not_negative(sphere.discriminant(ray));
    lemma_square_is_not_negative(ray.direction.x);
    lemma_square_is_not_negative(ray.direction.y);
    lemma_square_is_not_negative(ray.direction.z);
    assert(0 <= a.raw);
    lemma_div_is_monotone(half_b.sub_spec(root), half_b.add_spec(root), a);
}

/// With the fixed-point scalar the nearest hit among spheres does not depend
/// on their order: two sequences of the same spheres both find nothing, or
/// both find a hit, neither strictly nearer than the other.
pub proof fn lemma_fixed_spheres_order_independent(
    first: Seq<Sphere<Fixed>>,
    second: Seq<Sphere<Fixed>>,
    ray: Ray<Fixed>,
    t_min: Fixed,
    t_max: Fixed,
)
    requires
        forall|i: int| 0 <= i < first.len() ==> second.contains(#[trigger] first[i]),
        forall|i: int| 0 <= i < second.len() ==> first.contains(#[trigger] second[i]),
    ensures
        hit_among(first, ray, t_min, t_max) is Some <==> hit_among(second, ray, t_min, t_max) is Some,
        hit_among(first, ray, t_min, t_max) is Some ==> hit_among(first, ray, t_min, t_max)->0.t
            == hit_among(second, ray, t_min, t_max)->0.t,
{
    assert forall|i: int| 0 <= i < first.len() implies answers_widen(
        #[trigger] first[i],
        ray,
        t_min,
        t_max,
    ) by {
        lemma_fixed_roots_ordered(first[i], ray);
        lemma_sphere_answers_widen(first[i], ray, t_min, t_max);
    }
    lemma_hit_order_independent(first, second, ray, t_min, t_max);
}

} // verus!
