//! Rays and the recursive trace that colours them.

use crate::color::Color;
use crate::hit_record::Hittable;
use crate::material::Draw;
use crate::scalar::Scalar;
use crate::vec3::{Point3, Vec3};
use crate::world::World;
use vstd::prelude::*;

verus! {

/// The points `origin + t * direction`. The direction need not have unit
/// length.
#[derive(Clone, Copy)]
pub struct Ray<S: Scalar> {
    pub origin: Point3<S>,
    pub direction: Vec3<S>,
}

impl<S: Scalar> Ray<S> {
    /// The point of the ray at the parameter `t`.
    pub open spec fn at_spec(self, t: S) -> Point3<S> {
        self.origin.plus(self.direction.scaled(t))
    }

    /// The colour of the sky behind the scene: white blended into sky blue
    /// `(1/2, 7/10, 1)` by `a = 1/2 (y + 1)`, where `y` is the vertical
    /// component of the unit direction.
    pub open spec fn background_spec(self) -> Color<S> {
        let one = S::from_int_spec(1);
        let y = self.direction.normalized_spec().y;
        let a = one.div_spec(S::from_int_spec(2)).mul_spec(y.add_spec(one));
        let white = Color::diag(one);
        let sky_blue = Vec3 {
            x: one.div_spec(S::from_int_spec(2)),
            y: S::from_int_spec(7).div_spec(S::from_int_spec(10)),
            z: one,
        };
        white.scaled(one.sub_spec(a)).plus(sky_blue.scaled(a))
    }

    /// The colour that the ray brings back from the scene within `depth`
    /// bounces, the `k`-th bounce consuming `draws[k]`.
    ///
    /// With no bounce left the colour is black. A ray that meets nothing
    /// sees the background. A ray that meets a surface is scattered by its
    /// material and brings back the attenuation times the colour of the
    /// scattered ray, or black where the material absorbs it.
    pub open spec fn cast_spec<H: Hittable<S>>(
        self,
        world: &World<H>,
        t_min: S,
        t_max: S,
        depth: nat,
        draws: Seq<Draw<S>>,
    ) -> Color<S>
        decreases depth,
    {
        if depth == 0 {
            Color::zero()
        } else {
            match world.hit_spec(self, t_min, t_max) {
                None => self.background_spec(),
                Some(hit_record) => match hit_record.material.scatter_spec(
                    self,
                    hit_record,
                    draws[0],
                ) {
                    None => Color::zero(),
                    Some((attenuation, scattered)) => attenuation.times(
                        scattered.cast_spec(
                            world,
                            t_min,
                            t_max,
                            (depth - 1) as nat,
                            draws.skip(1),
                        ),
                    ),
                },
            }
        }
    }

    pub fn new(origin: Vec3<S>, direction: Vec3<S>) -> (r: Self)
        ensures
            r == (Ray { origin, direction }),
    {
        Ray { origin, direction }
    }

    pub fn at(self, t: S) -> (r: Point3<S>)
        ensures
            r == self.at_spec(t),
    {
        self.origin + (self.direction * t)
    }

    pub fn origin(self) -> (r: Point3<S>)
        ensures
            r == self.origin,
    {
        self.origin
    }

    pub fn direction(self) -> (r: Vec3<S>)
        ensures
            r == self.direction,
    {
        self.direction
    }

    /// The background colour seen along the ray.
    pub fn background(self) -> (r: Color<S>)
        ensures
            r == self.background_spec(),
    {
        let one = S::from_int(1);
        let half = one.div(S::from_int(2));
        let dir_normalized = self.direction().normalized();
        let a = half.mul(dir_normalized.y().add(one));
        Color::new(one, one, one) * one.sub(a) + Color::new(
            half,
            S::from_int(7).div(S::from_int(10)),
            one,
        ) * a
    }

    /// Traces the ray through `world` for at most `depth` bounces and
    /// returns its colour. Meetings count where their parameter lies
    /// strictly between `t_min` and `t_max`. `draws` holds the random numbers
    /// of the bounces in order, one entry for each bounce that may happen.
    ///
    /// With `depth` zero the result is black whatever the scene holds, and a
    /// ray that meets no shape returns the background.
    pub fn cast<H: Hittable<S>>(
        self,
        world: &World<H>,
        t_min: S,
        t_max: S,
        depth: u8,
        draws: &[Draw<S>],
    ) -> (r: Color<S>)
        requires
            depth <= draws@.len(),
        ensures
            r == self.cast_spec(world, t_min, t_max, depth as nat, draws@),
            depth == 0 ==> r == Color::<S>::zero(),
            depth > 0 && world.hit_spec(self, t_min, t_max) is None ==> r
                == self.background_spec(),
    {
        proof {
            assert(draws@.skip(0) =~= draws@);
        }
        self.cast_from(world, t_min, t_max, depth, draws, 0)
    }

    /// The trace whose bounces consume `draws` from the index `first` on.
    fn cast_from<H: Hittable<S>>(
        self,
        world: &World<H>,
        t_min: S,
        t_max: S,
        depth: u8,
        draws: &[Draw<S>],
        first: usize,
    ) -> (r: Color<S>)
        requires
            first + depth <= draws@.len(),
        ensures
            r == self.cast_spec(world, t_min, t_max, depth as nat, draws@.skip(first as int)),
        decreases depth,
    {
        if depth == 0 {
            return Color::new_zero();
        }
        if let Some(hit_record) = world.hit(self, t_min, t_max) {
            proof {
                assert(draws@.skip(first as int)[0] == draws@[first as int]);
                assert(draws@.skip(first as int).skip(1) =~= draws@.skip(first + 1));
            }
            if let Some((color, reflection_ray)) = hit_record.material.scatter(
                &self,
                &hit_record,
                &draws[first],
            ) {
                return color * reflection_ray.cast_from(
                    world,
                    t_min,
                    t_max,
                    depth - 1,
                    draws,
                    first + 1,
                );
            }
            return Color::new_zero();
        }
        // did not hit anything, use background color

        self.background()
    }
}

} // verus!
