//! Sampling a pixel: several rays through it, averaged.

use crate::camera::Camera;
use crate::color::Color;
use crate::hit_record::Hittable;
use crate::material::Draw;
use crate::scalar::Scalar;
use crate::world::World;
use vstd::prelude::*;

verus! {

/// The random numbers of one jittered sample: its offsets within the pixel,
/// by convention between minus a half and a half, and the draws of its
/// bounces in order.
pub struct SampleDraw<S: Scalar> {
    pub v_offset: S,
    pub h_offset: S,
    pub bounces: Vec<Draw<S>>,
}

/// How rays are traced: the range of admissible ray parameters and the
/// greatest number of bounces.
#[derive(Clone, Copy)]
pub struct TraceLimits<S: Scalar> {
    pub t_min: S,
    pub t_max: S,
    pub max_depth: u8,
}

/// The colour of the ray through the centre of a pixel.
pub open spec fn center_sample<S: Scalar, H: Hittable<S>>(
    camera: &Camera<S>,
    world: &World<H>,
    limits: TraceLimits<S>,
    row: u32,
    column: u32,
    draws: Seq<Draw<S>>,
) -> Color<S> {
    camera.ray_spec(row, S::from_int_spec(0), column, S::from_int_spec(0)).cast_spec(
        world,
        limits.t_min,
        limits.t_max,
        limits.max_depth as nat,
        draws,
    )
}

/// The colour of the ray through a pixel at the offsets of `sample`.
pub open spec fn jittered_sample<S: Scalar, H: Hittable<S>>(
    camera: &Camera<S>,
    world: &World<H>,
    limits: TraceLimits<S>,
    row: u32,
    column: u32,
    sample: SampleDraw<S>,
) -> Color<S> {
    camera.ray_spec(row, sample.v_offset, column, sample.h_offset).cast_spec(
        world,
        limits.t_min,
        limits.t_max,
        limits.max_depth as nat,
        sample.bounces@,
    )
}

/// The sum of a pixel's samples: the centre sample first, then the jittered
/// ones in order.
pub open spec fn sample_sum<S: Scalar, H: Hittable<S>>(
    camera: &Camera<S>,
    world: &World<H>,
    limits: TraceLimits<S>,
    row: u32,
    column: u32,
    first: Seq<Draw<S>>,
    jittered: Seq<SampleDraw<S>>,
) -> Color<S>
    decreases jittered.len(),
{
    if jittered.len() == 0 {
        center_sample(camera, world, limits, row, column, first)
    } else {
        sample_sum(camera, world, limits, row, column, first, jittered.drop_last()).plus(
            jittered_sample(camera, world, limits, row, column, jittered.last()),
        )
    }
}

/// The colour of a pixel: the sum of its samples divided by their number.
pub open spec fn pixel_spec<S: Scalar, H: Hittable<S>>(
    camera: &Camera<S>,
    world: &World<H>,
    limits: TraceLimits<S>,
    row: u32,
    column: u32,
    first: Seq<Draw<S>>,
    jittered: Seq<SampleDraw<S>>,
) -> Color<S> {
    sample_sum(camera, world, limits, row, column, first, jittered).divided(
        S::from_int_spec((1 + jittered.len()) as i64),
    )
}

/// Renders the pixel in `row` and `column`: one ray through its centre and
/// one for each entry of `jittered`, moved by that entry's offsets, each
/// traced through `world`; the result is their average. `first` holds the
/// bounce draws of the centre ray.
///
/// The result is a function of the arguments alone, so the same scene,
/// camera and draws give the same colour on every call.
pub fn render_pixel<S: Scalar, H: Hittable<S>>(
    camera: &Camera<S>,
    world: &World<H>,
    limits: TraceLimits<S>,
    row: u32,
    column: u32,
    first: &[Draw<S>],
    jittered: &[SampleDraw<S>],
) -> (r: Color<S>)
    requires
        limits.max_depth <= first@.len(),
        forall|k: int|
            0 <= k < jittered@.len() ==> limits.max_depth <= (#[trigger] jittered@[k]).bounces@.len(),
        jittered@.len() < i64::MAX,
    ensures
        r == pixel_spec(camera, world, limits, row, column, first@, jittered@),
{
    let ray = camera.get_ray_for_pixel(row, column);
    let mut color_acc = ray.cast(world, limits.t_min, limits.t_max, limits.max_depth, first);

    let mut k: usize = 0;
    proof {
        assert(jittered@.take(0).len() == 0);
    }
    while k < jittered.len()
        invariant
            0 <= k <= jittered@.len(),
            jittered@.len() < i64::MAX,
            limits.max_depth <= first@.len(),
            forall|j: int|
                0 <= j < jittered@.len() ==> limits.max_depth <= (#[trigger] jittered@[j]).bounces@.len(),
            color_acc == sample_sum(
                camera,
                world,
                limits,
                row,
                column,
                first@,
                jittered@.take(k as int),
            ),
        decreases jittered@.len() - k,
    {
        let sample = &jittered[k];
        let ray = camera.get_ray_for_pixel_with_offset(
            row,
            sample.v_offset,
            column,
            sample.h_offset,
        );
        proof {
            assert(jittered@.take(k + 1).drop_last() =~= jittered@.take(k as int));
            assert(jittered@.take(k + 1).last() == jittered@[k as int]);
        }
        color_acc = color_acc + ray.cast(
            world,
            limits.t_min,
            limits.t_max,
            limits.max_depth,
            sample.bounces.as_slice(),
        );
        k += 1;
    }
    proof {
        assert(jittered@.take(k as int) =~= jittered@);
    }
    color_acc / S::from_int(jittered.len() as i64 + 1)
}

} // verus!
