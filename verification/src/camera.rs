//! The camera: from pixel coordinates to rays.

use crate::ray::Ray;
use crate::scalar::Scalar;
use crate::vec3::{Point3, Vec3};
use core::ops::Neg;
use vstd::prelude::*;

verus! {

/// A pinhole camera. It is derived once from its placement and the image's
/// size and does not change afterwards.
pub struct Camera<S: Scalar> {
    position: Point3<S>,
    top_left_pixel: Point3<S>,
    pixel_delta_h: Vec3<S>,
    pixel_delta_v: Vec3<S>,
}

/// What a camera is derived from: where it stands, what it looks at, which
/// way is up, the image's size in pixels, and the tangent of half the
/// vertical field of view.
pub struct Viewpoint<S: Scalar> {
    pub position: Point3<S>,
    pub look_at: Point3<S>,
    pub up: Vec3<S>,
    pub image_width: u32,
    pub image_height: u32,
    pub half_fov_tan: S,
}

impl<S: Scalar> Viewpoint<S> {
    /// The distance from the camera to what it looks at.
    pub open spec fn focal_length(self) -> S {
        self.look_at.minus(self.position).length_spec()
    }

    /// `2 tan(fov / 2)` times the focal length.
    pub open spec fn viewport_height(self) -> S {
        S::from_int_spec(2).mul_spec(self.half_fov_tan).mul_spec(self.focal_length())
    }

    /// The height times the image's aspect ratio.
    pub open spec fn viewport_width(self) -> S {
        self.viewport_height().mul_spec(
            S::from_int_spec(self.image_width as i64).div_spec(
                S::from_int_spec(self.image_height as i64),
            ),
        )
    }

    /// The unit vector from what is looked at back to the camera.
    pub open spec fn w(self) -> Vec3<S> {
        self.position.minus(self.look_at).normalized_spec()
    }

    /// The unit vector to the camera's right.
    pub open spec fn u(self) -> Vec3<S> {
        self.w().cross_spec(self.up).normalized_spec()
    }

    /// The camera's own up vector.
    pub open spec fn v(self) -> Vec3<S> {
        self.u().cross_spec(self.w())
    }

    /// The vector along the viewport's upper edge.
    pub open spec fn viewport_h(self) -> Vec3<S> {
        self.u().scaled(self.viewport_width())
    }

    /// The vector down the viewport's left edge.
    pub open spec fn viewport_v(self) -> Vec3<S> {
        self.v().negated().scaled(self.viewport_height())
    }

    /// The step from one pixel to its right neighbour.
    pub open spec fn pixel_delta_h(self) -> Vec3<S> {
        self.viewport_h().divided(S::from_int_spec(self.image_width as i64))
    }

    /// The step from one pixel to the one below.
    pub open spec fn pixel_delta_v(self) -> Vec3<S> {
        self.viewport_v().divided(S::from_int_spec(self.image_height as i64))
    }

    /// The viewport's upper left corner.
    pub open spec fn viewport_top_left(self) -> Point3<S> {
        let two = S::from_int_spec(2);
        self.position.plus(self.w().negated().scaled(self.focal_length())).minus(
            self.viewport_h().divided(two),
        ).minus(self.viewport_v().divided(two))
    }

    /// The centre of the upper left pixel: half a step inwards from the
    /// viewport's corner.
    pub open spec fn top_left_pixel(self) -> Point3<S> {
        let two = S::from_int_spec(2);
        self.viewport_top_left().plus(self.pixel_delta_h().divided(two)).plus(
            self.pixel_delta_v().divided(two),
        )
    }
}

impl<S: Scalar> Camera<S> {
    pub closed spec fn position(&self) -> Point3<S> {
        self.position
    }

    pub closed spec fn top_left_pixel(&self) -> Point3<S> {
        self.top_left_pixel
    }

    pub closed spec fn pixel_delta_h(&self) -> Vec3<S> {
        self.pixel_delta_h
    }

    pub closed spec fn pixel_delta_v(&self) -> Vec3<S> {
        self.pixel_delta_v
    }

    /// The camera that `view` describes.
    pub open spec fn derived_from(&self, view: Viewpoint<S>) -> bool {
        &&& self.position() == view.position
        &&& self.top_left_pixel() == view.top_left_pixel()
        &&& self.pixel_delta_h() == view.pixel_delta_h()
        &&& self.pixel_delta_v() == view.pixel_delta_v()
    }

    /// The point of the viewport that belongs to the pixel in `row` and
    /// `column`, moved by the given parts of a pixel.
    pub open spec fn pixel_point(&self, row: u32, v_offset: S, column: u32, h_offset: S) -> Point3<S> {
        let u = S::from_int_spec(column as i64).add_spec(h_offset);
        let v = S::from_int_spec(row as i64).add_spec(v_offset);
        self.top_left_pixel().plus(self.pixel_delta_h().scaled(u)).plus(
            self.pixel_delta_v().scaled(v),
        )
    }

    /// The ray from the camera through [`Self::pixel_point`].
    pub open spec fn ray_spec(&self, row: u32, v_offset: S, column: u32, h_offset: S) -> Ray<S> {
        Ray {
            origin: self.position(),
            direction: self.pixel_point(row, v_offset, column, h_offset).minus(self.position()),
        }
    }

    /// A camera at `position` that looks at `look_at` with `up` upwards, for
    /// an image of the given size. `half_fov_tan` is the tangent of half the
    /// vertical field of view. The distance to `look_at` is the focal length.
    pub fn new(
        position: Point3<S>,
        look_at: Point3<S>,
        up: Point3<S>,
        image_width: u32,
        image_height: u32,
        half_fov_tan: S,
    ) -> (r: Self)
        ensures
            r.derived_from(
                (Viewpoint { position, look_at, up, image_width, image_height, half_fov_tan }),
            ),
    {
        let two = S::from_int(2);
        let width = S::from_int(image_width as i64);
        let height = S::from_int(image_height as i64);
        let focal_length = (look_at - position).length();

        let viewport_height = two.mul(half_fov_tan).mul(focal_length);
        let viewport_width = viewport_height.mul(width.div(height));

        let w = (position - look_at).normalized();  // view opposite direction
        let u = w.cross(&up).normalized();  // camera right
        let v = u.cross(&w);  // camera up

        let viewport_h = u * viewport_width;  // Vector across viewport horizontal edge
        let viewport_v = v.neg() * viewport_height;  // Vector down viewport vertical edge

        let pixel_delta_h = viewport_h / width;
        let pixel_delta_v = viewport_v / height;

        let viewport_top_left = position + (w.neg() * focal_length) - (viewport_h / two) - (
        viewport_v / two);
        let top_left_pixel = viewport_top_left + (pixel_delta_h / two) + (pixel_delta_v / two);

        Camera { position, top_left_pixel, pixel_delta_h, pixel_delta_v }
    }

    /// The ray through the pixel in `row` and `column`, moved down by
    /// `v_offset` and right by `h_offset` pixels. Offsets from minus a half
    /// to a half stay within the pixel; others are accepted too.
    pub fn get_ray_for_pixel_with_offset(&self, row: u32, v_offset: S, column: u32, h_offset: S) -> (r:
        Ray<S>)
        ensures
            r == self.ray_spec(row, v_offset, column, h_offset),
    {
        let u = S::from_int(column as i64).add(h_offset);
        let v = S::from_int(row as i64).add(v_offset);
        let pixel_center = self.top_left_pixel + (self.pixel_delta_h * u) + (self.pixel_delta_v
            * v);

        let ray_direction = pixel_center - self.position;

        Ray::new(self.position, ray_direction)
    }

    /// The ray through the centre of the pixel in `row` and `column`.
    pub fn get_ray_for_pixel(&self, row: u32, column: u32) -> (r: Ray<S>)
        ensures
            r == self.ray_spec(row, S::from_int_spec(0), column, S::from_int_spec(0)),
    {
        self.get_ray_for_pixel_with_offset(row, S::from_int(0), column, S::from_int(0))
    }
}

} // verus!
