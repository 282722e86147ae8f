//! Rows of the coordinate tables, and the interface of a camera model.

use vstd::prelude::*;
use crate::scalar::RealScalar;

verus! {

/// One row of a pixel table: a position on the sensor, in pixel units.
pub struct Pixel<R> {
    pub u: R,
    pub v: R,
}

/// One row of a ray bundle whose rays all start at the optical centre: the
/// direction of the ray in the camera frame.
pub struct Ray<R> {
    pub x: R,
    pub y: R,
    pub z: R,
}

/// One row of a point table: a position in the camera frame.
pub struct Point<R> {
    pub x: R,
    pub y: R,
    pub z: R,
}

impl<R> Ray<R> {
    /// The point one direction vector away from the optical centre.
    pub open spec fn point_on_ray_spec(self) -> Point<R> {
        Point { x: self.x, y: self.y, z: self.z }
    }

    /// The point of the ray that lies one direction vector away from the
    /// optical centre.
    pub fn point_on_ray(self) -> (p: Point<R>)
        ensures
            p == self.point_on_ray_spec(),
    {
        Point { x: self.x, y: self.y, z: self.z }
    }
}

/// An intrinsic camera model: a map from pixels to viewing rays and a map
/// from camera-frame points to pixels, each applied to a table row by row.
///
/// Every model returns a table with as many rows as it was given, so an
/// empty table is answered with an empty table.
pub trait CameraModel<R: RealScalar> {
    /// The ray through one pixel.
    spec fn pixel_to_ray(&self, pixel: Pixel<R>) -> Ray<R>;

    /// The pixel at which one camera-frame point is seen.
    spec fn point_to_pixel(&self, point: Point<R>) -> Pixel<R>;

    /// The rays through the given pixels, row for row.
    fn pixel_to_camera(&self, pixels: &Vec<Pixel<R>>) -> (rays: Vec<Ray<R>>)
        ensures
            rays@.len() == pixels@.len(),
            forall|i: int|
                0 <= i < pixels@.len() ==> rays@[i] == #[trigger] self.pixel_to_ray(pixels@[i]),
    ;

    /// The pixels at which the given camera-frame points are seen, row for
    /// row.
    fn camera_to_pixel(&self, camera: &Vec<Point<R>>) -> (pixels: Vec<Pixel<R>>)
        ensures
            pixels@.len() == camera@.len(),
            forall|i: int|
                0 <= i < camera@.len() ==> pixels@[i] == #[trigger] self.point_to_pixel(
                    camera@[i],
                ),
    ;
}

} // verus!
