//! A perspective-projection camera.

use crate::camera::{Camera, CameraType, Object3D};
use crate::fix::{
    clamp_i64, div_fp, div_u, mul_fp, spec_clamp, spec_div_fp, spec_mul_fp, DEG_PER_RAD_FP,
    MUL_IN, ONE, PI_FP, POS_MAX, TWO_PI_FP, ZOOM_MAX,
};
use crate::trig::{cos_fp, sin_fp, spec_atan_fp, spec_cos_fp, spec_sin_fp};
use crate::vec::Vec3Fp;
use vstd::prelude::*;

verus! {

/// An optional sub-view of the full viewport (for tiled rendering).
#[derive(Clone, Copy, PartialEq, Eq, Structural, Debug)]
pub struct View {
    pub enabled: bool,
    pub full_width: i64,
    pub full_height: i64,
    pub offset_x: i64,
    pub offset_y: i64,
    pub width: i64,
    pub height: i64,
}

impl Default for View {
    /// A full-size, enabled view.
    fn default() -> (r: Self)
        ensures
            r == (View {
                enabled: true,
                full_width: ONE,
                full_height: ONE,
                offset_x: 0,
                offset_y: 0,
                width: ONE,
                height: ONE,
            }),
    {
        View {
            enabled: true,
            full_width: ONE,
            full_height: ONE,
            offset_x: 0,
            offset_y: 0,
            width: ONE,
            height: ONE,
        }
    }
}

/// A camera with a perspective projection; a dolly gesture divides its zoom.
pub struct PerspectiveCamera {
    pub eye: Vec3Fp,
    pub target: Vec3Fp,
    pub up: Vec3Fp,
    pub view: Option<View>,
    pub fov: i64,
    pub aspect_ratio: i64,
    pub z_near: i64,
    pub z_far: i64,
    pub zoom: i64,
    pub film_offset: i64,
    pub film_gauge: i64,
}

impl PerspectiveCamera {
    /// Field bounds used by the camera invariant.
    pub open spec fn bounds_ok(&self) -> bool {
        &&& -POS_MAX <= self.eye.x <= POS_MAX
        &&& -POS_MAX <= self.eye.y <= POS_MAX
        &&& -POS_MAX <= self.eye.z <= POS_MAX
        &&& 0 <= self.zoom <= ZOOM_MAX
        &&& 0 <= self.aspect_ratio <= MUL_IN
        &&& 0 <= self.fov <= 180 * ONE
        &&& 0 <= self.film_gauge <= MUL_IN
    }

    /// A camera at `(0, 0, 2)` looking down the negative z-axis, with a 45
    /// degree field of view and the given viewport size in micro-pixels.
    pub fn new(width: i64, height: i64) -> (c: Self)
        requires
            0 <= width <= MUL_IN,
            ONE <= height <= MUL_IN,
        ensures
            c.fov == 45 * ONE,
            c.aspect_ratio == spec_div_fp(width as int, height as int),
            c.z_near == ONE / 10,
            c.z_far == 100 * ONE,
            c.eye == (Vec3Fp { x: 0, y: 0, z: 2_000_000 }),
            c.target == (Vec3Fp { x: 0, y: 0, z: -1_000_000i64 }),
            c.up == (Vec3Fp { x: 0, y: 1_000_000, z: 0 }),
            c.zoom == ONE,
            c.film_gauge == 35 * ONE,
            c.film_offset == 0,
            c.view is None,
            c.inv(),
    {
        let aspect: i64 = div_fp(width, height);
        proof {
            vstd::arithmetic::div_mod::lemma_div_is_ordered_by_denominator(
                (width as int) * (ONE as int),
                ONE as int,
                height as int,
            );
            vstd::arithmetic::div_mod::lemma_div_by_multiple(width as int, ONE as int);
        }
        PerspectiveCamera {
            eye: Vec3Fp { x: 0, y: 0, z: 2 * ONE },
            target: Vec3Fp { x: 0, y: 0, z: -ONE },
            up: Vec3Fp { x: 0, y: ONE, z: 0 },
            view: None,
            fov: 45 * ONE,
            aspect_ratio: aspect,
            z_near: ONE / 10,
            z_far: 100 * ONE,
            zoom: ONE,
            film_offset: 0,
            film_gauge: 35 * ONE,
        }
    }

    /// Adopt a new viewport size.
    pub fn set_size(&mut self, width: i64, height: i64)
        requires
            old(self).inv(),
            0 <= width <= MUL_IN,
            ONE <= height <= MUL_IN,
        ensures
            final (self).aspect_ratio == spec_div_fp(width as int, height as int),
            *final (self) == (PerspectiveCamera {
                aspect_ratio: final (self).aspect_ratio,
                ..*old(self)
            }),
            final (self).inv(),
    {
        let aspect: i64 = div_fp(width, height);
        proof {
            vstd::arithmetic::div_mod::lemma_div_is_ordered_by_denominator(
                (width as int) * (ONE as int),
                ONE as int,
                height as int,
            );
            vstd::arithmetic::div_mod::lemma_div_by_multiple(width as int, ONE as int);
        }
        self.aspect_ratio = aspect;
    }

    /// The effective vertical field of view in degrees once zoom is
    /// applied: `2 * atan(tan(fov / 2) / zoom)`.  When the half-angle's
    /// cosine or the zoom degenerates to zero, the configured `fov` is
    /// returned unchanged.
    pub open spec fn spec_effective_fov(self) -> int {
        let half = spec_mul_fp(self.fov as int, PI_FP as int) / 360;
        let s = spec_sin_fp(half);
        let co = spec_cos_fp(half);
        if co <= 0 || self.zoom <= 0 {
            self.fov as int
        } else {
            let t = spec_clamp(spec_div_fp(s, co), 0, MUL_IN as int);
            let tz = spec_clamp(spec_div_fp(t, self.zoom as int), 0, MUL_IN as int);
            spec_mul_fp(2 * spec_atan_fp(tz), DEG_PER_RAD_FP as int)
        }
    }

    /// The effective vertical field of view under the current zoom, in
    /// fixed-point degrees.
    pub fn get_effective_fov(&self) -> (r: i64)
        requires
            self.inv(),
        ensures
            r == self.spec_effective_fov(),
    {
        let scaled: i64 = mul_fp(self.fov, PI_FP);
        proof {
            crate::fix::lemma_mul_fp_bound(
                self.fov as int,
                PI_FP as int,
                180_000_000,
                PI_FP as int,
            );
            vstd::arithmetic::div_mod::lemma_div_is_ordered(
                scaled as int,
                565_486_740,
                360,
            );
        }
        let half: i64 = div_u(scaled, 360);
        proof {
            vstd::arithmetic::div_mod::lemma_small_mod(half as nat, TWO_PI_FP as nat);
        }
        let s: i64 = sin_fp(half);
        let co: i64 = cos_fp(half);
        if co <= 0 || self.zoom <= 0 {
            self.fov
        } else {
            let t: i64 = clamp_i64(div_fp(s, co), 0, MUL_IN);
            let tz: i64 = clamp_i64(div_fp(t, self.zoom), 0, MUL_IN);
            let a: i64 = crate::trig::atan_fp(tz);
            mul_fp(2 * a, DEG_PER_RAD_FP)
        }
    }

    /// The film-back width: the gauge along the smaller viewport dimension.
    pub fn get_film_width(&self) -> (r: i64)
        requires
            self.inv(),
        ensures
            r == spec_mul_fp(
                vstd::math::min(self.aspect_ratio as int, ONE as int),
                self.film_gauge as int,
            ),
    {
        let a: i64 = if self.aspect_ratio < ONE {
            self.aspect_ratio
        } else {
            ONE
        };
        mul_fp(a, self.film_gauge)
    }

    /// The film-back height: the gauge along the larger viewport dimension.
    pub fn get_film_height(&self) -> (r: i64)
        requires
            self.inv(),
        ensures
            r == spec_mul_fp(
                vstd::math::max(self.aspect_ratio as int, ONE as int),
                self.film_gauge as int,
            ),
    {
        let a: i64 = if self.aspect_ratio > ONE {
            self.aspect_ratio
        } else {
            ONE
        };
        mul_fp(a, self.film_gauge)
    }
}

impl Object3D for PerspectiveCamera {
    open spec fn spec_position(&self) -> Vec3Fp {
        self.eye
    }

    fn position(&self) -> (p: Vec3Fp) {
        self.eye
    }
}

impl Camera for PerspectiveCamera {
    open spec fn spec_zoom(&self) -> i64 {
        self.zoom
    }

    open spec fn spec_up(&self) -> Vec3Fp {
        self.up
    }

    open spec fn spec_type(&self) -> CameraType {
        CameraType::Perspective
    }

    open spec fn inv(&self) -> bool {
        self.bounds_ok()
    }

    proof fn inv_bounds(&self) {
    }

    fn get_type(&self) -> (t: CameraType) {
        CameraType::Perspective
    }

    fn get_zoom(&self) -> (z: i64) {
        self.zoom
    }

    fn set_zoom(&mut self, zoom: i64) {
        self.zoom = zoom;
    }

    fn set_position(&mut self, position: Vec3Fp) {
        self.eye = position;
    }

    fn up(&self) -> (u: Vec3Fp) {
        self.up
    }

    fn update(&mut self) {
    }
}

} // verus!
