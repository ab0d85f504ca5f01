//! The viewpoint capability: what the orbit controller needs from a camera.
//!
//! Derived view/projection matrices are not part of the verified state; a
//! camera here carries the parameters those matrices are computed from.

use crate::fix::{POS_MAX, ZOOM_MAX};
use crate::vec::Vec3Fp;
use vstd::prelude::*;

verus! {

/// Which projection a camera applies, deciding how a dolly gesture lands.
#[derive(Clone, Copy, PartialEq, Eq, Structural, Debug)]
pub enum CameraType {
    Perspective,
    Orthographic,
}

/// Anything standing at a point in world space.
pub trait Object3D: Sized {
    /// The world position, as contracts see it.
    spec fn spec_position(&self) -> Vec3Fp;

    fn position(&self) -> (p: Vec3Fp)
        ensures
            p == self.spec_position(),
    ;
}

/// The capability set the orbit controller drives: position and zoom
/// get/set, an up vector, and a per-frame update hook.
pub trait Camera: Object3D {
    /// The zoom, as contracts see it.
    spec fn spec_zoom(&self) -> i64;

    /// The configured up vector, as contracts see it.
    spec fn spec_up(&self) -> Vec3Fp;

    /// The projection variant, as contracts see it.
    spec fn spec_type(&self) -> CameraType;

    /// The camera's internal bounds; they keep every stored scalar inside
    /// the fixed-point ranges.
    spec fn inv(&self) -> bool;

    /// Every well-formed camera keeps its observables within range.
    proof fn inv_bounds(&self)
        requires
            self.inv(),
        ensures
            -POS_MAX <= self.spec_position().x <= POS_MAX,
            -POS_MAX <= self.spec_position().y <= POS_MAX,
            -POS_MAX <= self.spec_position().z <= POS_MAX,
            0 <= self.spec_zoom() <= ZOOM_MAX,
    ;

    fn get_type(&self) -> (t: CameraType)
        ensures
            t == self.spec_type(),
    ;

    fn get_zoom(&self) -> (z: i64)
        ensures
            z == self.spec_zoom(),
    ;

    fn set_zoom(&mut self, zoom: i64)
        requires
            old(self).inv(),
            0 <= zoom <= ZOOM_MAX,
        ensures
            final (self).inv(),
            final (self).spec_zoom() == zoom,
            final (self).spec_position() == old(self).spec_position(),
            final (self).spec_up() == old(self).spec_up(),
            final (self).spec_type() == old(self).spec_type(),
    ;

    fn set_position(&mut self, position: Vec3Fp)
        requires
            old(self).inv(),
            -POS_MAX <= position.x <= POS_MAX,
            -POS_MAX <= position.y <= POS_MAX,
            -POS_MAX <= position.z <= POS_MAX,
        ensures
            final (self).inv(),
            final (self).spec_position() == position,
            final (self).spec_zoom() == old(self).spec_zoom(),
            final (self).spec_up() == old(self).spec_up(),
            final (self).spec_type() == old(self).spec_type(),
    ;

    fn up(&self) -> (u: Vec3Fp)
        ensures
            u == self.spec_up(),
    ;

    /// Recompute whatever the camera derives from its parameters (the
    /// matrices live outside the verified state); the observables stay put.
    fn update(&mut self)
        requires
            old(self).inv(),
        ensures
            final (self).inv(),
            final (self).spec_position() == old(self).spec_position(),
            final (self).spec_zoom() == old(self).spec_zoom(),
            final (self).spec_up() == old(self).spec_up(),
            final (self).spec_type() == old(self).spec_type(),
    ;
}

/// A camera slot owned by a larger scene.
pub struct GameCamera<T: Camera> {
    pub camera: T,
}

impl<T: Camera> GameCamera<T> {
    /// Replace the owned camera.
    pub fn set_camera(&mut self, camera: T)
        ensures
            final (self).camera == camera,
    {
        self.camera = camera;
    }
}

} // verus!
