//! An orthographic-projection camera.

use crate::camera::{Camera, CameraType, Object3D};
use crate::fix::{MUL_IN, ONE, POS_MAX, ZOOM_MAX};
use crate::vec::Vec3Fp;
use vstd::prelude::*;

verus! {

/// A camera with an orthographic projection, parameterized by its view box;
/// a dolly gesture scales the controller's accumulator rather than this
/// camera's zoom.
#[derive(Clone, Copy, PartialEq, Eq, Structural, Debug)]
pub struct OrthographicCamera {
    pub eye: Vec3Fp,
    pub up: Vec3Fp,
    pub left: i64,
    pub right: i64,
    pub top: i64,
    pub bottom: i64,
    pub z_near: i64,
    pub z_far: i64,
    pub zoom: i64,
}

impl OrthographicCamera {
    /// Field bounds used by the camera invariant.
    pub open spec fn bounds_ok(&self) -> bool {
        &&& -POS_MAX <= self.eye.x <= POS_MAX
        &&& -POS_MAX <= self.eye.y <= POS_MAX
        &&& -POS_MAX <= self.eye.z <= POS_MAX
        &&& 0 <= self.zoom <= ZOOM_MAX
        &&& -MUL_IN <= self.left <= MUL_IN
        &&& -MUL_IN <= self.right <= MUL_IN
        &&& -MUL_IN <= self.top <= MUL_IN
        &&& -MUL_IN <= self.bottom <= MUL_IN
    }
}

impl Default for OrthographicCamera {
    /// A unit view box from `0.1` to `2000` depth, unit zoom, at the
    /// origin.
    fn default() -> (c: Self)
        ensures
            c == (OrthographicCamera {
                eye: Vec3Fp { x: 0, y: 0, z: 0 },
                up: Vec3Fp { x: 0, y: 1_000_000, z: 0 },
                left: -1_000_000i64,
                right: 1_000_000,
                top: 1_000_000,
                bottom: -1_000_000i64,
                z_near: 100_000,
                z_far: 2_000_000_000,
                zoom: 1_000_000,
            }),
            c.inv(),
    {
        OrthographicCamera {
            eye: Vec3Fp { x: 0, y: 0, z: 0 },
            up: Vec3Fp { x: 0, y: ONE, z: 0 },
            left: -ONE,
            right: ONE,
            top: ONE,
            bottom: -ONE,
            z_near: ONE / 10,
            z_far: 2000 * ONE,
            zoom: ONE,
        }
    }
}

impl Object3D for OrthographicCamera {
    open spec fn spec_position(&self) -> Vec3Fp {
        self.eye
    }

    fn position(&self) -> (p: Vec3Fp) {
        self.eye
    }
}

impl Camera for OrthographicCamera {
    open spec fn spec_zoom(&self) -> i64 {
        self.zoom
    }

    open spec fn spec_up(&self) -> Vec3Fp {
        self.up
    }

    open spec fn spec_type(&self) -> CameraType {
        CameraType::Orthographic
    }

    open spec fn inv(&self) -> bool {
        self.bounds_ok()
    }

    proof fn inv_bounds(&self) {
    }

    fn get_type(&self) -> (t: CameraType) {
        CameraType::Orthographic
    }

    fn get_zoom(&self) -> (z: i64) {
        self.zoom
    }

    fn set_zoom(&mut self, zoom: i64) {
        self.zoom = zoom;
    }

    fn set_position(&mut self, position: Vec3Fp) {
        self.eye = position;
    }

    fn up(&self) -> (u: Vec3Fp) {
        self.up
    }

    fn update(&mut self) {
    }
}

} // verus!
