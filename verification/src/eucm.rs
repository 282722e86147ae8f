//! The parameters of the Extended Unified Camera Model and its two
//! transforms.
//!
//! The model was described by B. Khomutenko, G. Garcia and P. Martinet in
//! "An enhanced unified camera model", IEEE Robotics and Automation Letters
//! 1(1):137-144, 2016. The formulation follows sections 2.2 and 2.3 of "The
//! Double Sphere Camera Model" by V. Usenko, N. Demmel and D. Cremers.

use vstd::prelude::*;
use crate::scalar::RealScalar;
use crate::geometry::{CameraModel, Pixel, Point, Ray};

verus! {

/// Parameters of an Extended Unified Camera Model.
///
/// The focal lengths `fx`, `fy` and the principal point `cx`, `cy` are in
/// pixel units; `alpha` blends between the pinhole and the spherical
/// projection and `beta` shapes the projection surface. The type checks no
/// domain: any six scalars make a value, and the transforms compute with
/// whatever they are given.
#[derive(Debug, Clone)]
pub struct EucmParams<R> {
    pub fx: R,
    pub fy: R,
    pub cx: R,
    pub cy: R,
    pub alpha: R,
    pub beta: R,
}

impl<R: RealScalar> EucmParams<R> {
    /// The sensor-plane coordinate of a pixel coordinate: `(p - c) / f`.
    pub open spec fn normalized(p: R, c: R, f: R) -> R {
        p.sub_spec(c).div_spec(f)
    }

    /// The squared radius `mx * mx + my * my` of a sensor-plane position.
    pub open spec fn radius_squared(mx: R, my: R) -> R {
        mx.mul_spec(mx).add_spec(my.mul_spec(my))
    }

    /// The numerator of the ray's third coordinate:
    /// `1 - beta * alpha^2 * r2`.
    pub open spec fn mz_numerator(self, r2: R) -> R {
        R::from_small_spec(1).sub_spec(self.beta.mul_spec(self.alpha.powi_spec(2)).mul_spec(r2))
    }

    /// The argument of the square root in the denominator:
    /// `1 - (2 * alpha - 1) * beta * r2`.
    pub open spec fn radicand(self, r2: R) -> R {
        let one = R::from_small_spec(1);
        let two = R::from_small_spec(2);
        one.sub_spec(two.mul_spec(self.alpha).sub_spec(one).mul_spec(self.beta).mul_spec(r2))
    }

    /// The denominator of the ray's third coordinate:
    /// `alpha * sqrt(radicand) + (1 - alpha)`.
    pub open spec fn mz_denominator(self, r2: R) -> R {
        self.alpha.mul_spec(self.radicand(r2).sqrt_spec()).add_spec(
            R::from_small_spec(1).sub_spec(self.alpha),
        )
    }

    /// The factor that scales `(mx, my, mz)` to unit length:
    /// `1 / sqrt(mx^2 + my^2 + mz^2)`.
    pub open spec fn unit_scale(mx: R, my: R, mz: R) -> R {
        R::from_small_spec(1).div_spec(
            mx.powi_spec(2).add_spec(my.powi_spec(2)).add_spec(mz.powi_spec(2)).sqrt_spec(),
        )
    }

    /// The viewing ray through a pixel.
    pub open spec fn unproject_spec(self, pixel: Pixel<R>) -> Ray<R> {
        let mx = Self::normalized(pixel.u, self.cx, self.fx);
        let my = Self::normalized(pixel.v, self.cy, self.fy);
        let r2 = Self::radius_squared(mx, my);
        let mz = self.mz_numerator(r2).div_spec(self.mz_denominator(r2));
        let norm = Self::unit_scale(mx, my, mz);
        Ray { x: mx.mul_spec(norm), y: my.mul_spec(norm), z: mz.mul_spec(norm) }
    }

    /// The generalized radial distance of a point:
    /// `sqrt(beta * (x * x + y * y) + z * z)`.
    pub open spec fn radial_distance(self, point: Point<R>) -> R {
        self.beta.mul_spec(point.x.mul_spec(point.x).add_spec(point.y.mul_spec(point.y))).add_spec(
            point.z.mul_spec(point.z),
        ).sqrt_spec()
    }

    /// The divisor shared by both pixel coordinates:
    /// `alpha * d + (1 - alpha) * z`.
    pub open spec fn projection_denominator(self, point: Point<R>) -> R {
        self.alpha.mul_spec(self.radial_distance(point)).add_spec(
            R::from_small_spec(1).sub_spec(self.alpha).mul_spec(point.z),
        )
    }

    /// The pixel at which a camera-frame point is seen:
    /// `(fx * (x / denom) + cx, fy * (y / denom) + cy)`.
    pub open spec fn project_spec(self, point: Point<R>) -> Pixel<R> {
        let denom = self.projection_denominator(point);
        Pixel {
            u: self.fx.mul_spec(point.x.div_spec(denom)).add_spec(self.cx),
            v: self.fy.mul_spec(point.y.div_spec(denom)).add_spec(self.cy),
        }
    }

    /// The pixel at the principal point `(cx, cy)`.
    pub open spec fn principal_point(self) -> Pixel<R> {
        Pixel { u: self.cx, v: self.cy }
    }

    /// The factor that scales the ray through the principal point to unit
    /// length.
    pub open spec fn principal_scale(self) -> R {
        let mx = Self::normalized(self.cx, self.cx, self.fx);
        let my = Self::normalized(self.cy, self.cy, self.fy);
        let r2 = Self::radius_squared(mx, my);
        Self::unit_scale(mx, my, self.mz_numerator(r2).div_spec(self.mz_denominator(r2)))
    }

    /// The rays through the rows of a pixel table.
    pub open spec fn unproject_table(self, pixels: Seq<Pixel<R>>) -> Seq<Ray<R>> {
        Seq::new(pixels.len(), |i: int| self.unproject_spec(pixels[i]))
    }

    /// The pixels of the rows of a point table.
    pub open spec fn project_table(self, camera: Seq<Point<R>>) -> Seq<Pixel<R>> {
        Seq::new(camera.len(), |i: int| self.project_spec(camera[i]))
    }

    /// Makes the parameters from the six calibration constants.
    pub fn new(fx: R, fy: R, cx: R, cy: R, alpha: R, beta: R) -> (params: Self)
        ensures
            params == (EucmParams { fx, fy, cx, cy, alpha, beta }),
    {
        EucmParams { fx, fy, cx, cy, alpha, beta }
    }

    /// The unit-length direction of the ray through one pixel.
    pub fn unproject(&self, pixel: &Pixel<R>) -> (ray: Ray<R>)
        ensures
            ray == self.unproject_spec(*pixel),
    {
        let one = R::from_small(1);
        let two = R::from_small(2);
        let mx = pixel.u.sub(&self.cx).div(&self.fx);
        let my = pixel.v.sub(&self.cy).div(&self.fy);
        let r2 = mx.mul(&mx).add(&my.mul(&my));
        let mz_num = one.sub(&self.beta.mul(&self.alpha.powi(2)).mul(&r2));
        let root = one.sub(&two.mul(&self.alpha).sub(&one).mul(&self.beta).mul(&r2)).sqrt();
        let mz_denom = self.alpha.mul(&root).add(&one.sub(&self.alpha));
        let mz = mz_num.div(&mz_denom);
        let norm = one.div(&mx.powi(2).add(&my.powi(2)).add(&mz.powi(2)).sqrt());
        Ray { x: mx.mul(&norm), y: my.mul(&norm), z: mz.mul(&norm) }
    }

    /// The pixel at which one camera-frame point is seen.
    pub fn project(&self, point: &Point<R>) -> (pixel: Pixel<R>)
        ensures
            pixel == self.project_spec(*point),
    {
        let one = R::from_small(1);
        let d = self.beta.mul(&point.x.mul(&point.x).add(&point.y.mul(&point.y))).add(
            &point.z.mul(&point.z),
        ).sqrt();
        let denom = self.alpha.mul(&d).add(&one.sub(&self.alpha).mul(&point.z));
        let u = self.fx.mul(&point.x.div(&denom)).add(&self.cx);
        let v = self.fy.mul(&point.y.div(&denom)).add(&self.cy);
        Pixel { u, v }
    }
}

impl<R: RealScalar> EucmParams<R> {
    /// The ray through the principal point runs along the optical axis: its
    /// first two coordinates are zero. This holds whenever the principal
    /// point is finite, the focal lengths are finite and not zero, and the
    /// factor that scales the ray to unit length is finite.
    pub proof fn principal_point_on_axis(self)
        requires
            self.cx.is_finite(),
            self.cy.is_finite(),
            self.fx.is_finite() && !self.fx.is_zero(),
            self.fy.is_finite() && !self.fy.is_zero(),
            self.principal_scale().is_finite(),
        ensures
            self.unproject_spec(self.principal_point()).x.is_zero(),
            self.unproject_spec(self.principal_point()).y.is_zero(),
    {
        let du = self.cx.sub_spec(self.cx);
        let dv = self.cy.sub_spec(self.cy);
        R::sub_self_is_zero(self.cx);
        R::sub_self_is_zero(self.cy);
        R::zero_div_is_zero(du, self.fx);
        R::zero_div_is_zero(dv, self.fy);
        R::zero_mul_is_zero(du.div_spec(self.fx), self.principal_scale());
        R::zero_mul_is_zero(dv.div_spec(self.fy), self.principal_scale());
    }

    /// A table of no rows is answered with a table of no rows, by both
    /// transforms.
    pub proof fn empty_table_maps_to_empty(self)
        ensures
            self.unproject_table(Seq::empty()) == Seq::<Ray<R>>::empty(),
            self.project_table(Seq::empty()) == Seq::<Pixel<R>>::empty(),
    {
        assert(self.unproject_table(Seq::empty()) =~= Seq::<Ray<R>>::empty());
        assert(self.project_table(Seq::empty()) =~= Seq::<Pixel<R>>::empty());
    }

    /// Both transforms work row by row: the rows of the result say nothing
    /// of one another, so the table of two tables joined is the two results
    /// joined.
    pub proof fn tables_map_row_by_row(
        self,
        a: Seq<Pixel<R>>,
        b: Seq<Pixel<R>>,
        c: Seq<Point<R>>,
        d: Seq<Point<R>>,
    )
        ensures
            self.unproject_table(a + b) == self.unproject_table(a) + self.unproject_table(b),
            self.project_table(c + d) == self.project_table(c) + self.project_table(d),
    {
        assert(self.unproject_table(a + b) =~= self.unproject_table(a) + self.unproject_table(b));
        assert(self.project_table(c + d) =~= self.project_table(c) + self.project_table(d));
    }
}

impl<R: RealScalar> CameraModel<R> for EucmParams<R> {
    open spec fn pixel_to_ray(&self, pixel: Pixel<R>) -> Ray<R> {
        self.unproject_spec(pixel)
    }

    open spec fn point_to_pixel(&self, point: Point<R>) -> Pixel<R> {
        self.project_spec(point)
    }

    /// The unit-length rays through the given pixels, row for row. Rows do
    /// not influence each other, and no input is rejected.
    fn pixel_to_camera(&self, pixels: &Vec<Pixel<R>>) -> (rays: Vec<Ray<R>>)
        ensures
            rays@ == self.unproject_table(pixels@),
    {
        let mut rays: Vec<Ray<R>> = Vec::new();
        let n: usize = pixels.len();
        let mut i: usize = 0;
        while i < n
            invariant
                n == pixels@.len(),
                0 <= i <= n,
                rays@.len() == i,
                forall|k: int| 0 <= k < i ==> rays@[k] == self.unproject_spec(pixels@[k]),
            decreases n - i,
        {
            let ray = self.unproject(&pixels[i]);
            rays.push(ray);
            i = i + 1;
        }
        assert(rays@ =~= self.unproject_table(pixels@));
        rays
    }

    /// The pixels at which the given camera-frame points are seen, row for
    /// row. Rows do not influence each other, and no input is rejected.
    fn camera_to_pixel(&self, camera: &Vec<Point<R>>) -> (pixels: Vec<Pixel<R>>)
        ensures
            pixels@ == self.project_table(camera@),
    {
        let mut pixels: Vec<Pixel<R>> = Vec::new();
        let n: usize = camera.len();
        let mut i: usize = 0;
        while i < n
            invariant
                n == camera@.len(),
                0 <= i <= n,
                pixels@.len() == i,
                forall|k: int| 0 <= k < i ==> pixels@[k] == self.project_spec(camera@[k]),
            decreases n - i,
        {
            let pixel = self.project(&camera[i]);
            pixels.push(pixel);
            i = i + 1;
        }
        assert(pixels@ =~= self.project_table(camera@));
        pixels
    }
}

} // verus!
