//! The orbit controller: committed spherical state, pending deltas, policy
//! switches, limits, and the per-frame update that commits them.

use crate::camera::{Camera, CameraType, Object3D};
use crate::fix::{
    clamp_i64, div_fp, div_trunc, div_u, mul_fp, pow_fp, spec_clamp, spec_div_fp, spec_div_trunc,
    spec_mul_fp, spec_pow_fp, ANGLE_MAX, COORD_MAX, EPS_FP, MUL_IN, ONE, PI_FP, POS_MAX,
    SCALE_MAX, TWO_PI_FP, ZOOM_MAX,
};
use crate::spherical::{from_offset_rel, Spherical};
use crate::trig::{is_sqrt_of, isqrt_u64, spec_cos_fp, spec_sin_fp};
use crate::vec::{Vec2Fp, Vec3Fp};
use vstd::prelude::*;

verus! {

/// Auto-rotation policy: disabled, or enabled with a speed (revolutions per
/// 3600 frames, scaled by `ONE`; a negative speed orbits the other way).
#[derive(Clone, Copy, PartialEq, Eq, Structural, Debug)]
pub enum AutoRotation {
    Disable,
    Enable(i64),
}

/// Pan policy: disabled, or enabled with a non-negative strength factor
/// multiplying the per-pixel shift.
#[derive(Clone, Copy, PartialEq, Eq, Structural, Debug)]
pub enum Pan {
    Disable,
    Enable(i64),
}

/// Zoom/dolly policy: disabled, or enabled with a non-negative strength in
/// dolly steps; a fractional strength interpolates between whole steps (see
/// `spec_zoom_scale`).
#[derive(Clone, Copy, PartialEq, Eq, Structural, Debug)]
pub enum Zoom {
    Disable,
    Enable(i64),
}

/// Damping policy: disabled, or enabled with a factor in `[0, ONE]` applied
/// per frame.
#[derive(Clone, Copy, PartialEq, Eq, Structural, Debug)]
pub enum Damping {
    Disable,
    Enable(i64),
}

/// Which single gesture is active; input-start events set it, release
/// clears it.
#[derive(Clone, Copy, PartialEq, Eq, Structural, Debug)]
pub enum ControllerState {
    Idle,
    Rotate,
    Dolly,
    Pan,
    TouchRotate,
    TouchPan,
    TouchDollyPan,
    TouchDollyRotate,
}

impl Default for ControllerState {
    /// No gesture is active.
    fn default() -> (r: Self)
        ensures
            r == ControllerState::Idle,
    {
        ControllerState::Idle
    }
}

/// Per-gesture pixel accumulators and the active-gesture tag.
#[derive(Clone, Copy, PartialEq, Eq, Structural, Debug)]
pub struct Controller {
    pub state: ControllerState,
    pub pan_offset: Vec3Fp,
    pub rotate_start: Vec2Fp,
    pub rotate_end: Vec2Fp,
    pub rotate_delta: Vec2Fp,
    pub pan_start: Vec2Fp,
    pub pan_end: Vec2Fp,
    pub pan_delta: Vec2Fp,
    pub dolly_start: Vec2Fp,
    pub dolly_end: Vec2Fp,
    pub dolly_delta: Vec2Fp,
}

impl Default for Controller {
    /// No gesture, all accumulators zero.
    fn default() -> (r: Self)
        ensures
            r == Controller::spec_zeroed(),
    {
        Controller {
            state: ControllerState::Idle,
            pan_offset: Vec3Fp { x: 0, y: 0, z: 0 },
            rotate_start: Vec2Fp { x: 0, y: 0 },
            rotate_end: Vec2Fp { x: 0, y: 0 },
            rotate_delta: Vec2Fp { x: 0, y: 0 },
            pan_start: Vec2Fp { x: 0, y: 0 },
            pan_end: Vec2Fp { x: 0, y: 0 },
            pan_delta: Vec2Fp { x: 0, y: 0 },
            dolly_start: Vec2Fp { x: 0, y: 0 },
            dolly_end: Vec2Fp { x: 0, y: 0 },
            dolly_delta: Vec2Fp { x: 0, y: 0 },
        }
    }
}

impl Controller {
    /// The all-zero gesture bookkeeping.
    pub open spec fn spec_zeroed() -> Controller {
        Controller {
            state: ControllerState::Idle,
            pan_offset: Vec3Fp { x: 0, y: 0, z: 0 },
            rotate_start: Vec2Fp { x: 0, y: 0 },
            rotate_end: Vec2Fp { x: 0, y: 0 },
            rotate_delta: Vec2Fp { x: 0, y: 0 },
            pan_start: Vec2Fp { x: 0, y: 0 },
            pan_end: Vec2Fp { x: 0, y: 0 },
            pan_delta: Vec2Fp { x: 0, y: 0 },
            dolly_start: Vec2Fp { x: 0, y: 0 },
            dolly_end: Vec2Fp { x: 0, y: 0 },
            dolly_delta: Vec2Fp { x: 0, y: 0 },
        }
    }

    /// Bounds on every stored pixel accumulator.
    pub open spec fn wf(self) -> bool {
        &&& -POS_MAX <= self.pan_offset.x <= POS_MAX
        &&& -POS_MAX <= self.pan_offset.y <= POS_MAX
        &&& -POS_MAX <= self.pan_offset.z <= POS_MAX
        &&& vec2_pt_in(self.rotate_start) && vec2_pt_in(self.rotate_end) && vec2_in(
            self.rotate_delta,
        )
        &&& vec2_pt_in(self.pan_start) && vec2_pt_in(self.pan_end) && vec2_in(self.pan_delta)
        &&& vec2_pt_in(self.dolly_start) && vec2_pt_in(self.dolly_end) && vec2_in(self.dolly_delta)
    }
}

/// A pixel delta within the fixed-point range.
pub open spec fn vec2_in(v: Vec2Fp) -> bool {
    &&& -MUL_IN <= v.x <= MUL_IN
    &&& -MUL_IN <= v.y <= MUL_IN
}

/// A screen point within the coordinate range, so that the difference of
/// two points is still a representable delta.
pub open spec fn vec2_pt_in(v: Vec2Fp) -> bool {
    &&& -COORD_MAX <= v.x <= COORD_MAX
    &&& -COORD_MAX <= v.y <= COORD_MAX
}

/// The snapshot written by `save` and restored by `reset`.
#[derive(Clone, Copy, PartialEq, Eq, Structural, Debug)]
pub struct State {
    pub target: Vec3Fp,
    pub position: Vec3Fp,
    pub zoom: i64,
}

/// The orbit controller.  It owns the viewpoint object and keeps the
/// viewpoint-to-target offset as a committed `Spherical`, advanced once per
/// frame by `update` from the pending `spherical_delta`, the dolly `scale`
/// and the `pan_offset` accumulators.
pub struct OrbitControls<T: Camera> {
    pub object: T,
    pub target: Vec3Fp,
    /// How far one can dolly in and out (perspective cameras only).
    pub min_distance: i64,
    pub max_distance: i64,
    /// How far one can zoom in and out (orthographic cameras only).
    pub min_zoom: i64,
    pub max_zoom: i64,
    /// Vertical orbit limits, inside `[0, PI_FP]`.
    pub min_polar_angle: i64,
    pub max_polar_angle: i64,
    /// Horizontal orbit limits; the widest setting acts as unbounded.
    pub min_azimuth_angle: i64,
    pub max_azimuth_angle: i64,
    /// Multiplicative dolly accumulator, reset to `ONE` by each `update`.
    pub scale: i64,
    pub zoom: Zoom,
    pub auto_rotate: AutoRotation,
    pub panning: Pan,
    pub damping: Damping,
    /// The committed spherical state.
    pub spherical: Spherical,
    /// The pending additive delta, consumed or decayed by `update`.
    pub spherical_delta: Spherical,
    pub last_state: State,
    pub controller: Controller,
    /// Viewport height in micro-pixels: the pixel-to-radian scale.
    pub viewport_height: i64,
    /// The position `update` last wrote back; a differing camera position
    /// means an outside move and forces a resync from the offset.
    pub written_position: Vec3Fp,
    /// Whether `written_position` is meaningful yet.
    pub synced: bool,
}

/// A world point within the position range.
pub open spec fn vec3_pos_in(v: Vec3Fp) -> bool {
    &&& -POS_MAX <= v.x <= POS_MAX
    &&& -POS_MAX <= v.y <= POS_MAX
    &&& -POS_MAX <= v.z <= POS_MAX
}

impl<T: Camera> OrbitControls<T> {
    /// Everything `update` relies on: camera invariant, range bounds on all
    /// scalars, and policy strengths within their meaningful ranges.
    pub open spec fn wf(self) -> bool {
        &&& self.object.inv()
        &&& vec3_pos_in(self.target)
        &&& 0 <= self.min_distance <= COORD_MAX
        &&& 0 <= self.max_distance <= COORD_MAX
        &&& 0 <= self.min_zoom <= ZOOM_MAX
        &&& 0 <= self.max_zoom <= ZOOM_MAX
        &&& -ANGLE_MAX <= self.min_polar_angle <= ANGLE_MAX
        &&& -ANGLE_MAX <= self.max_polar_angle <= ANGLE_MAX
        &&& -ANGLE_MAX <= self.min_azimuth_angle <= ANGLE_MAX
        &&& -ANGLE_MAX <= self.max_azimuth_angle <= ANGLE_MAX
        &&& 0 <= self.scale <= SCALE_MAX
        &&& match self.auto_rotate {
            AutoRotation::Disable => true,
            AutoRotation::Enable(speed) => -ANGLE_MAX <= speed <= ANGLE_MAX,
        }
        &&& match self.zoom {
            Zoom::Disable => true,
            Zoom::Enable(speed) => 0 <= speed,
        }
        &&& match self.panning {
            Pan::Disable => true,
            Pan::Enable(strength) => 0 <= strength <= MUL_IN,
        }
        &&& match self.damping {
            Damping::Disable => true,
            Damping::Enable(factor) => 0 <= factor <= ONE,
        }
        &&& self.spherical.wf()
        &&& self.spherical_delta.wf()
        &&& vec3_pos_in(self.last_state.target)
        &&& vec3_pos_in(self.last_state.position)
        &&& 0 <= self.last_state.zoom <= ZOOM_MAX
        &&& self.controller.wf()
        &&& ONE <= self.viewport_height <= MUL_IN
        &&& vec3_pos_in(self.written_position)
        &&& self.object.spec_up() == (Vec3Fp { x: 0, y: 1_000_000, z: 0 })
    }

    /// A controller around `camera` with the default policies: free
    /// distance, zoom and azimuth, polar range `[0, PI_FP]`, zoom, pan and
    /// auto-rotation enabled at unit strength, damping off.
    pub fn new(camera: T, viewport_height: i64) -> (c: Self)
        requires
            camera.inv(),
            camera.spec_up() == (Vec3Fp { x: 0, y: 1_000_000, z: 0 }),
            ONE <= viewport_height <= MUL_IN,
        ensures
            c.object == camera,
            c.target == (Vec3Fp { x: 0, y: 0, z: 0 }),
            c.min_distance == 0,
            c.max_distance == COORD_MAX,
            c.min_zoom == 0,
            c.max_zoom == ZOOM_MAX,
            c.min_polar_angle == 0,
            c.max_polar_angle == PI_FP,
            c.min_azimuth_angle == -ANGLE_MAX,
            c.max_azimuth_angle == ANGLE_MAX,
            c.scale == ONE,
            c.zoom == Zoom::Enable(ONE),
            c.auto_rotate == AutoRotation::Enable(ONE),
            c.panning == Pan::Enable(ONE),
            c.damping == Damping::Disable,
            c.spherical == (Spherical { radius: ONE, phi: 0, theta: 0 }),
            c.spherical_delta == (Spherical { radius: ONE, phi: 0, theta: 0 }),
            c.last_state == (State {
                target: Vec3Fp { x: 0, y: 0, z: 0 },
                position: camera.spec_position(),
                zoom: camera.spec_zoom(),
            }),
            c.controller == Controller::spec_zeroed(),
            c.viewport_height == viewport_height,
            !c.synced,
            c.wf(),
    {
        proof {
            camera.inv_bounds();
        }
        let position: Vec3Fp = camera.position();
        let zoom: i64 = camera.get_zoom();
        OrbitControls {
            object: camera,
            target: Vec3Fp { x: 0, y: 0, z: 0 },
            min_distance: 0,
            max_distance: COORD_MAX,
            min_zoom: 0,
            max_zoom: ZOOM_MAX,
            min_polar_angle: 0,
            max_polar_angle: PI_FP,
            min_azimuth_angle: -ANGLE_MAX,
            max_azimuth_angle: ANGLE_MAX,
            scale: ONE,
            zoom: Zoom::Enable(ONE),
            auto_rotate: AutoRotation::Enable(ONE),
            panning: Pan::Enable(ONE),
            damping: Damping::Disable,
            spherical: Spherical::new(),
            spherical_delta: Spherical::new(),
            last_state: State { target: Vec3Fp { x: 0, y: 0, z: 0 }, position, zoom },
            controller: Controller::default(),
            viewport_height,
            written_position: Vec3Fp { x: 0, y: 0, z: 0 },
            synced: false,
        }
    }

    /// The committed polar angle.
    pub fn get_polar_angle(&self) -> (r: i64)
        ensures
            r == self.spherical.phi,
    {
        self.spherical.phi
    }

    /// The committed azimuth angle.
    pub fn get_azimuth_angle(&self) -> (r: i64)
        ensures
            r == self.spherical.theta,
    {
        self.spherical.theta
    }

    /// The distance from the viewpoint to the target, as an integer square
    /// root of the squared offset length.
    pub fn get_distance(&self) -> (r: i64)
        requires
            self.wf(),
        ensures
            is_sqrt_of(
                (self.object.spec_position().x - self.target.x) * (self.object.spec_position().x
                    - self.target.x) + (self.object.spec_position().y - self.target.y) * (
                self.object.spec_position().y - self.target.y) + (self.object.spec_position().z
                    - self.target.z) * (self.object.spec_position().z - self.target.z),
                r as int,
            ),
            0 <= r <= 2_600_000_000,
    {
        proof {
            self.object.inv_bounds();
        }
        let p: Vec3Fp = self.object.position();
        let dx: i64 = p.x - self.target.x;
        let dy: i64 = p.y - self.target.y;
        let dz: i64 = p.z - self.target.z;
        proof {
            assert(dx * dx <= 2_250_000_000_000_000_000 && dx * dx >= 0) by (nonlinear_arith)
                requires
                    -COORD_MAX <= dx <= COORD_MAX,
            ;
            assert(dy * dy <= 2_250_000_000_000_000_000 && dy * dy >= 0) by (nonlinear_arith)
                requires
                    -COORD_MAX <= dy <= COORD_MAX,
            ;
            assert(dz * dz <= 2_250_000_000_000_000_000 && dz * dz >= 0) by (nonlinear_arith)
                requires
                    -COORD_MAX <= dz <= COORD_MAX,
            ;
        }
        let sq: i64 = dx * dx + dy * dy + dz * dz;
        let r0: u64 = isqrt_u64(sq as u64);
        proof {
            assert(r0 <= 2_600_000_000) by (nonlinear_arith)
                requires
                    0 <= r0,
                    (r0 as int) * (r0 as int) <= 6_750_000_000_000_000_000,
            ;
        }
        r0 as i64
    }

    /// The azimuth step one auto-rotating frame applies: a full revolution
    /// every `3600 / speed` frames, turning the other way for a negative
    /// speed.
    pub fn get_auto_rotation_angle(&self) -> (r: Option<i64>)
        requires
            self.wf(),
        ensures
            r == match self.auto_rotate {
                AutoRotation::Disable => None::<i64>,
                AutoRotation::Enable(speed) => Some(
                    (spec_auto_angle(speed as int) as i64),
                ),
            },
            r is Some ==> -ANGLE_MAX <= r.unwrap() <= ANGLE_MAX,
    {
        match self.auto_rotate {
            AutoRotation::Disable => None,
            AutoRotation::Enable(speed) => {
                let scaled: i64 = mul_fp(TWO_PI_FP, speed);
                proof {
                    crate::fix::lemma_mul_fp_bound(
                        TWO_PI_FP as int,
                        speed as int,
                        TWO_PI_FP as int,
                        ANGLE_MAX as int,
                    );
                }
                Some(div_trunc(scaled, 3600))
            },
        }
    }

    /// The dolly multiplier one gesture step applies: `spec_zoom_scale` of
    /// the configured strength.
    pub fn get_zoom_scale(&self) -> (r: Option<i64>)
        requires
            self.wf(),
        ensures
            r == match self.zoom {
                Zoom::Disable => None::<i64>,
                Zoom::Enable(speed) => Some((spec_zoom_scale(speed as int) as i64)),
            },
            r is Some ==> 0 <= r.unwrap() <= ONE,
    {
        match self.zoom {
            Zoom::Disable => None,
            Zoom::Enable(speed) => {
                let steps: i64 = div_u(speed, ONE);
                proof {
                    vstd::arithmetic::div_mod::lemma_fundamental_div_mod(
                        speed as int,
                        ONE as int,
                    );
                    vstd::arithmetic::div_mod::lemma_mod_bound(speed as int, ONE as int);
                    lemma_zoom_scale_range(speed as int);
                }
                let capped: i64 = if steps > 512 {
                    512
                } else {
                    steps
                };
                let frac: i64 = speed - steps * ONE;
                let p: i64 = pow_fp(950_000, capped as u64);
                let fr: i64 = mul_fp(frac, 50_000);
                proof {
                    crate::fix::lemma_mul_fp_unit_factor(frac as int, 50_000);
                    crate::fix::lemma_mul_fp_unit_factor(p as int, ONE - fr as int);
                }
                Some(mul_fp(p, ONE - fr))
            },
        }
    }

    /// Queue a downward polar rotation: the pending `phi` delta shrinks by
    /// `angle`, saturating at the angle range.
    pub fn rotate_up(&mut self, angle: i64)
        requires
            old(self).wf(),
            -ANGLE_MAX <= angle <= ANGLE_MAX,
        ensures
            final (self).spherical_delta.phi == spec_clamp(
                old(self).spherical_delta.phi - angle,
                -ANGLE_MAX as int,
                ANGLE_MAX as int,
            ),
            final (self).spherical_delta.theta == old(self).spherical_delta.theta,
            final (self).spherical_delta.radius == old(self).spherical_delta.radius,
            *final (self) == (OrbitControls {
                spherical_delta: final (self).spherical_delta,
                ..*old(self)
            }),
            final (self).wf(),
    {
        self.spherical_delta.phi = clamp_i64(
            self.spherical_delta.phi - angle,
            -ANGLE_MAX,
            ANGLE_MAX,
        );
    }

    /// Queue a leftward azimuth rotation: the pending `theta` delta shrinks
    /// by `angle`, saturating at the angle range.
    pub fn rotate_left(&mut self, angle: i64)
        requires
            old(self).wf(),
            -ANGLE_MAX <= angle <= ANGLE_MAX,
        ensures
            final (self).spherical_delta.theta == spec_clamp(
                old(self).spherical_delta.theta - angle,
                -ANGLE_MAX as int,
                ANGLE_MAX as int,
            ),
            final (self).spherical_delta.phi == old(self).spherical_delta.phi,
            final (self).spherical_delta.radius == old(self).spherical_delta.radius,
            *final (self) == (OrbitControls {
                spherical_delta: final (self).spherical_delta,
                ..*old(self)
            }),
            final (self).wf(),
    {
        self.spherical_delta.theta = clamp_i64(
            self.spherical_delta.theta - angle,
            -ANGLE_MAX,
            ANGLE_MAX,
        );
    }

    /// Snapshot target, viewpoint position and zoom for a later `reset`.
    pub fn save(&mut self)
        requires
            old(self).wf(),
        ensures
            final (self).last_state == (State {
                target: old(self).target,
                position: old(self).object.spec_position(),
                zoom: old(self).object.spec_zoom(),
            }),
            *final (self) == (OrbitControls { last_state: final (self).last_state, ..*old(self) }),
            final (self).wf(),
    {
        proof {
            self.object.inv_bounds();
        }
        let position: Vec3Fp = self.object.position();
        let zoom: i64 = self.object.get_zoom();
        self.last_state = State { target: self.target, position, zoom };
    }
}

/// The azimuth auto-rotation step for a given speed; a negative speed
/// orbits the other way.
pub open spec fn spec_auto_angle(speed: int) -> int {
    spec_div_trunc(spec_mul_fp(TWO_PI_FP as int, speed), 3600)
}

/// The dolly multiplier for a zoom strength: `0.95` to the whole-step
/// power, times a linear interpolation toward the next step for the
/// fractional part (so unit strength gives exactly `0.95`, and strength
/// `1.5` about `0.95^1.5`).  The whole-step exponent saturates at `512`,
/// where the multiplier is already below one micro-unit.
pub open spec fn spec_zoom_scale(speed: int) -> int {
    let steps = speed / (ONE as int);
    let capped = if steps > 512 {
        512
    } else {
        steps
    };
    let frac = speed % (ONE as int);
    spec_mul_fp(spec_pow_fp(950_000, capped as nat), (ONE as int) - spec_mul_fp(frac, 50_000))
}

/// The dolly multiplier of a non-negative strength is itself in
/// `[0, ONE]`.
pub proof fn lemma_zoom_scale_range(speed: int)
    requires
        0 <= speed,
    ensures
        0 <= spec_zoom_scale(speed) <= ONE,
{
    let steps = speed / (ONE as int);
    let capped: int = if steps > 512 {
        512
    } else {
        steps
    };
    vstd::arithmetic::div_mod::lemma_div_pos_is_pos(speed, ONE as int);
    crate::fix::lemma_pow_fp_range(950_000, capped as nat);
    let frac = speed % (ONE as int);
    vstd::arithmetic::div_mod::lemma_mod_bound(speed, ONE as int);
    crate::fix::lemma_mul_fp_unit_factor(frac, 50_000);
    crate::fix::lemma_mul_fp_unit_factor(
        spec_pow_fp(950_000, capped as nat),
        (ONE as int) - spec_mul_fp(frac, 50_000),
    );
}

impl<T: Camera> OrbitControls<T> {
    /// Auto-rotation fires when it is enabled and no gesture is active.
    pub open spec fn auto_active(self) -> bool {
        match self.auto_rotate {
            AutoRotation::Enable(_) => self.controller.state == ControllerState::Idle,
            AutoRotation::Disable => false,
        }
    }

    /// The auto-rotation step of the coming frame.
    pub open spec fn spec_auto_now(self) -> int {
        match self.auto_rotate {
            AutoRotation::Enable(speed) => spec_auto_angle(speed as int),
            AutoRotation::Disable => 0,
        }
    }

    /// The pending azimuth delta after the frame's auto-rotation is queued.
    pub open spec fn spec_delta_theta0(self) -> int {
        if self.auto_active() {
            spec_clamp(
                self.spherical_delta.theta - self.spec_auto_now(),
                -ANGLE_MAX as int,
                ANGLE_MAX as int,
            )
        } else {
            self.spherical_delta.theta as int
        }
    }

    /// The part of a pending delta one frame applies.
    pub open spec fn spec_applied(self, delta: int) -> int {
        match self.damping {
            Damping::Disable => delta,
            Damping::Enable(factor) => spec_mul_fp(delta, factor as int),
        }
    }

    /// What remains of a pending delta after one frame.
    pub open spec fn spec_decayed(self, delta: int) -> int {
        match self.damping {
            Damping::Disable => 0,
            Damping::Enable(factor) => spec_mul_fp(delta, ONE - factor as int),
        }
    }

    /// The azimuth the frame commits, starting from `s0`.
    pub open spec fn spec_new_theta(self, s0: Spherical) -> int {
        spec_clamp(
            s0.theta + self.spec_applied(self.spec_delta_theta0()),
            self.min_azimuth_angle as int,
            self.max_azimuth_angle as int,
        )
    }

    /// The polar angle the frame commits, starting from `s0`: limited to
    /// the configured range, then held away from the poles.
    pub open spec fn spec_new_phi(self, s0: Spherical) -> int {
        spec_clamp(
            spec_clamp(
                s0.phi + self.spec_applied(self.spherical_delta.phi as int),
                self.min_polar_angle as int,
                self.max_polar_angle as int,
            ),
            EPS_FP as int,
            (PI_FP - EPS_FP) as int,
        )
    }

    /// The radius the frame commits, starting from `s0`: dolly scale
    /// applied, then limited to the configured distance range.
    pub open spec fn spec_new_radius(self, s0: Spherical) -> int {
        spec_clamp(
            spec_mul_fp(s0.radius as int, self.scale as int),
            self.min_distance as int,
            self.max_distance as int,
        )
    }

    /// The frame's pan step applied to a given target point.
    pub open spec fn spec_new_target_from(self, base: Vec3Fp) -> Vec3Fp {
        Vec3Fp {
            x: spec_clamp(
                base.x + self.spec_applied(self.controller.pan_offset.x as int),
                -POS_MAX as int,
                POS_MAX as int,
            ) as i64,
            y: spec_clamp(
                base.y + self.spec_applied(self.controller.pan_offset.y as int),
                -POS_MAX as int,
                POS_MAX as int,
            ) as i64,
            z: spec_clamp(
                base.z + self.spec_applied(self.controller.pan_offset.z as int),
                -POS_MAX as int,
                POS_MAX as int,
            ) as i64,
        }
    }

    /// The target after the frame's pan step.
    pub open spec fn spec_new_target(self) -> Vec3Fp {
        self.spec_new_target_from(self.target)
    }

    /// The pan accumulator after the frame.
    pub open spec fn spec_new_pan(self) -> Vec3Fp {
        Vec3Fp {
            x: self.spec_decayed(self.controller.pan_offset.x as int) as i64,
            y: self.spec_decayed(self.controller.pan_offset.y as int) as i64,
            z: self.spec_decayed(self.controller.pan_offset.z as int) as i64,
        }
    }

    /// Whether anything is pending this frame; with nothing pending the
    /// frame leaves the viewpoint untouched.
    pub open spec fn has_input(self) -> bool {
        ||| self.auto_active()
        ||| self.spherical_delta.theta != 0
        ||| self.spherical_delta.phi != 0
        ||| self.scale != ONE
        ||| self.controller.pan_offset != (Vec3Fp { x: 0, y: 0, z: 0 })
    }

    /// The viewpoint was moved from outside (or never read yet), so the
    /// committed spherical state must be resynchronized from the offset.
    pub open spec fn needs_sync(self) -> bool {
        !self.synced || self.object.spec_position() != self.written_position
    }

    /// The current viewpoint-to-target offset.
    pub open spec fn spec_offset_now(self) -> Vec3Fp {
        Vec3Fp {
            x: (self.object.spec_position().x - self.target.x) as i64,
            y: (self.object.spec_position().y - self.target.y) as i64,
            z: (self.object.spec_position().z - self.target.z) as i64,
        }
    }

    /// Where a frame starts: the committed spherical state, or its
    /// resynchronization from the offset after an outside move.
    pub open spec fn sync_rel(self, s0: Spherical) -> bool {
        if self.needs_sync() {
            from_offset_rel(self.spec_offset_now(), s0)
        } else {
            s0 == self.spherical
        }
    }

    /// One full frame: how the post-state (`self`) relates to the pre-state
    /// `pre`, starting from `s0`.
    pub open spec fn frame_rel(self, pre: Self, s0: Spherical) -> bool {
        &&& self.spherical.theta == pre.spec_new_theta(s0)
        &&& self.spherical.phi == pre.spec_new_phi(s0)
        &&& self.spherical.radius == pre.spec_new_radius(s0)
        &&& self.spherical_delta.theta == pre.spec_decayed(pre.spec_delta_theta0())
        &&& self.spherical_delta.phi == pre.spec_decayed(pre.spherical_delta.phi as int)
        &&& self.spherical_delta.radius == pre.spec_decayed(pre.spherical_delta.radius as int)
        &&& self.scale == ONE
        &&& self.target == pre.spec_new_target()
        &&& self.controller == (Controller {
            pan_offset: pre.spec_new_pan(),
            ..pre.controller
        })
        &&& (pre.has_input() ==> self.object.spec_position().x == spec_clamp(
            pre.spec_new_target().x + crate::spherical::spec_off_x(self.spherical),
            -POS_MAX as int,
            POS_MAX as int,
        ) && self.object.spec_position().y == spec_clamp(
            pre.spec_new_target().y + crate::spherical::spec_off_y(self.spherical),
            -POS_MAX as int,
            POS_MAX as int,
        ) && self.object.spec_position().z == spec_clamp(
            pre.spec_new_target().z + crate::spherical::spec_off_z(self.spherical),
            -POS_MAX as int,
            POS_MAX as int,
        ))
        &&& (!pre.has_input() ==> self.object.spec_position() == pre.object.spec_position())
        &&& self.written_position == self.object.spec_position()
        &&& self.synced
        &&& self.object.spec_zoom() == pre.object.spec_zoom()
        &&& self.object.spec_up() == pre.object.spec_up()
        &&& self.object.spec_type() == pre.object.spec_type()
        &&& self.min_distance == pre.min_distance
        &&& self.max_distance == pre.max_distance
        &&& self.min_zoom == pre.min_zoom
        &&& self.max_zoom == pre.max_zoom
        &&& self.min_polar_angle == pre.min_polar_angle
        &&& self.max_polar_angle == pre.max_polar_angle
        &&& self.min_azimuth_angle == pre.min_azimuth_angle
        &&& self.max_azimuth_angle == pre.max_azimuth_angle
        &&& self.zoom == pre.zoom
        &&& self.auto_rotate == pre.auto_rotate
        &&& self.panning == pre.panning
        &&& self.damping == pre.damping
        &&& self.last_state == pre.last_state
        &&& self.viewport_height == pre.viewport_height
    }

    /// Advance one frame: queue auto-rotation, apply or decay the pending
    /// rotate deltas, limit the polar angle and hold it off the poles,
    /// apply and reset the dolly scale, limit the radius, pan the target,
    /// and write the viewpoint position back when anything was pending.  A
    /// viewpoint position moved from outside is first resynchronized into
    /// spherical coordinates.
    ///
    /// The offset is read in the up-aligned frame; the cameras here keep
    /// the world Y axis as their up vector, so that alignment is the
    /// identity.
    #[verifier::rlimit(100)]
    pub fn update(&mut self)
        requires
            old(self).wf(),
        ensures
            final (self).wf(),
            exists|s0: Spherical|
                #[trigger] old(self).sync_rel(s0) && final (self).frame_rel(*old(self), s0),
            !old(self).needs_sync() ==> final (self).frame_rel(*old(self), old(self).spherical),
            EPS_FP <= final (self).spherical.phi <= PI_FP - EPS_FP,
            old(self).min_distance <= old(self).max_distance ==> old(self).min_distance <= final (
            self).spherical.radius <= old(self).max_distance,
            old(self).damping is Disable ==> final (self).spherical_delta == (Spherical {
                radius: 0,
                phi: 0,
                theta: 0,
            }),
            !old(self).auto_active() && old(self).spherical_delta.theta == 0 && !old(
                self,
            ).needs_sync() && old(self).min_azimuth_angle <= old(self).spherical.theta <= old(
                self,
            ).max_azimuth_angle ==> final (self).spherical.theta == old(self).spherical.theta,
            !old(self).has_input() ==> final (self).object.spec_position() == old(
                self,
            ).object.spec_position(),
    {
        proof {
            self.object.inv_bounds();
        }
        let ghost pre = *old(self);
        let pos: Vec3Fp = self.object.position();
        let s0: Spherical = if !self.synced || pos != self.written_position {
            let off: Vec3Fp = pos.minus(self.target);
            Spherical::from_offset(off)
        } else {
            self.spherical
        };
        proof {
            assert(pre.sync_rel(s0));
            if pre.needs_sync() {
                assert(0 <= s0.radius <= 2_600_000_000 && -PI_FP <= s0.theta <= PI_FP && 0 <= s0.phi
                    <= PI_FP);
            }
        }
        let auto_on: bool = match self.auto_rotate {
            AutoRotation::Enable(_) => self.controller.state == ControllerState::Idle,
            AutoRotation::Disable => false,
        };
        let mut dtheta: i64 = self.spherical_delta.theta;
        if auto_on {
            match self.auto_rotate {
                AutoRotation::Enable(speed) => {
                    let scaled: i64 = mul_fp(TWO_PI_FP, speed);
                    proof {
                        crate::fix::lemma_mul_fp_bound(
                            TWO_PI_FP as int,
                            speed as int,
                            TWO_PI_FP as int,
                            ANGLE_MAX as int,
                        );
                    }
                    let ang: i64 = div_trunc(scaled, 3600);
                    dtheta = clamp_i64(dtheta - ang, -ANGLE_MAX, ANGLE_MAX);
                },
                AutoRotation::Disable => {},
            }
        }
        proof {
            assert(dtheta == pre.spec_delta_theta0());
        }
        let ap_theta: i64 = match self.damping {
            Damping::Disable => dtheta,
            Damping::Enable(factor) => mul_fp(dtheta, factor),
        };
        let ap_phi: i64 = match self.damping {
            Damping::Disable => self.spherical_delta.phi,
            Damping::Enable(factor) => mul_fp(self.spherical_delta.phi, factor),
        };
        let nd_theta: i64 = match self.damping {
            Damping::Disable => 0,
            Damping::Enable(factor) => mul_fp(dtheta, ONE - factor),
        };
        let nd_phi: i64 = match self.damping {
            Damping::Disable => 0,
            Damping::Enable(factor) => mul_fp(self.spherical_delta.phi, ONE - factor),
        };
        let nd_radius: i64 = match self.damping {
            Damping::Disable => 0,
            Damping::Enable(factor) => mul_fp(self.spherical_delta.radius, ONE - factor),
        };
        proof {
            match pre.damping {
                Damping::Disable => {},
                Damping::Enable(factor) => {
                    crate::fix::lemma_mul_fp_unit_factor(
                        pre.spherical_delta.radius as int,
                        ONE - factor as int,
                    );
                    crate::fix::lemma_mul_fp_unit_factor(dtheta as int, factor as int);
                    crate::fix::lemma_mul_fp_unit_factor(
                        pre.spherical_delta.phi as int,
                        factor as int,
                    );
                    crate::fix::lemma_mul_fp_unit_factor(dtheta as int, ONE - factor as int);
                    crate::fix::lemma_mul_fp_unit_factor(
                        pre.spherical_delta.phi as int,
                        ONE - factor as int,
                    );
                    if dtheta == 0 {
                        crate::fix::lemma_mul_fp_zero(factor as int);
                    }
                },
            }
        }
        let theta_new: i64 = clamp_i64(
            s0.theta + ap_theta,
            self.min_azimuth_angle,
            self.max_azimuth_angle,
        );
        let phi_mid: i64 = clamp_i64(s0.phi + ap_phi, self.min_polar_angle, self.max_polar_angle);
        let phi_new: i64 = clamp_i64(phi_mid, EPS_FP, PI_FP - EPS_FP);
        let radius_new: i64 = clamp_i64(
            mul_fp(s0.radius, self.scale),
            self.min_distance,
            self.max_distance,
        );
        let pan_applied: Vec3Fp = match self.damping {
            Damping::Disable => self.controller.pan_offset,
            Damping::Enable(factor) => self.controller.pan_offset.times_fp(factor),
        };
        let pan_new: Vec3Fp = match self.damping {
            Damping::Disable => Vec3Fp { x: 0, y: 0, z: 0 },
            Damping::Enable(factor) => self.controller.pan_offset.times_fp(ONE - factor),
        };
        proof {
            match pre.damping {
                Damping::Disable => {},
                Damping::Enable(factor) => {
                    crate::fix::lemma_mul_fp_unit_factor(
                        pre.controller.pan_offset.x as int,
                        ONE - factor as int,
                    );
                    crate::fix::lemma_mul_fp_unit_factor(
                        pre.controller.pan_offset.y as int,
                        ONE - factor as int,
                    );
                    crate::fix::lemma_mul_fp_unit_factor(
                        pre.controller.pan_offset.z as int,
                        ONE - factor as int,
                    );
                    crate::fix::lemma_mul_fp_unit_factor(
                        pre.controller.pan_offset.x as int,
                        factor as int,
                    );
                    crate::fix::lemma_mul_fp_unit_factor(
                        pre.controller.pan_offset.y as int,
                        factor as int,
                    );
                    crate::fix::lemma_mul_fp_unit_factor(
                        pre.controller.pan_offset.z as int,
                        factor as int,
                    );
                },
            }
        }
        let target_new: Vec3Fp = self.target.plus_clamped(pan_applied, -POS_MAX, POS_MAX);
        let pending: bool = auto_on || self.spherical_delta.theta != 0 || self.spherical_delta.phi
            != 0 || self.scale != ONE || self.controller.pan_offset != (Vec3Fp {
            x: 0,
            y: 0,
            z: 0,
        });
        self.spherical = Spherical { radius: radius_new, phi: phi_new, theta: theta_new };
        self.spherical_delta = Spherical { radius: nd_radius, phi: nd_phi, theta: nd_theta };
        self.scale = ONE;
        self.target = target_new;
        self.controller.pan_offset = pan_new;
        if pending {
            let off: Vec3Fp = self.spherical.to_offset();
            let newpos: Vec3Fp = target_new.plus_clamped(off, -POS_MAX, POS_MAX);
            self.object.set_position(newpos);
            self.written_position = newpos;
            self.synced = true;
        } else {
            self.written_position = pos;
            self.synced = true;
        }
        self.object.update();
        proof {
            assert(pre.sync_rel(s0));
            assert(self.frame_rel(pre, s0));
            if !pre.needs_sync() {
                assert(s0 == pre.spherical);
            }
        }
    }
    /// Restore target, viewpoint position and zoom from the snapshot, run
    /// one frame, and clear the gesture state.  With nothing pending the
    /// Where the frame that `reset` forces starts: the committed spherical
    /// state, or its resynchronization from the restored snapshot's
    /// offset when that snapshot's position differs from the one last
    /// written back.
    pub open spec fn restored_sync_rel(self, s0: Spherical) -> bool {
        if !self.synced || self.last_state.position != self.written_position {
            from_offset_rel(
                Vec3Fp {
                    x: (self.last_state.position.x - self.last_state.target.x) as i64,
                    y: (self.last_state.position.y - self.last_state.target.y) as i64,
                    z: (self.last_state.position.z - self.last_state.target.z) as i64,
                },
                s0,
            )
        } else {
            s0 == self.spherical
        }
    }

    /// How the post-state of `reset` relates to the pre-state: the frame
    /// that `reset` forces, run over the restored snapshot, starting from
    /// `s0`, with the gesture state cleared.
    pub open spec fn reset_frame_rel(self, pre: Self, s0: Spherical) -> bool {
        &&& self.spherical.theta == pre.spec_new_theta(s0)
        &&& self.spherical.phi == pre.spec_new_phi(s0)
        &&& self.spherical.radius == pre.spec_new_radius(s0)
        &&& self.spherical_delta.theta == pre.spec_decayed(pre.spec_delta_theta0())
        &&& self.spherical_delta.phi == pre.spec_decayed(pre.spherical_delta.phi as int)
        &&& self.spherical_delta.radius == pre.spec_decayed(pre.spherical_delta.radius as int)
        &&& self.scale == ONE
        &&& self.target == pre.spec_new_target_from(pre.last_state.target)
        &&& self.controller == (Controller {
            pan_offset: pre.spec_new_pan(),
            state: ControllerState::Idle,
            ..pre.controller
        })
        &&& (pre.has_input() ==> self.object.spec_position().x == spec_clamp(
            pre.spec_new_target_from(pre.last_state.target).x + crate::spherical::spec_off_x(
                self.spherical,
            ),
            -POS_MAX as int,
            POS_MAX as int,
        ) && self.object.spec_position().y == spec_clamp(
            pre.spec_new_target_from(pre.last_state.target).y + crate::spherical::spec_off_y(
                self.spherical,
            ),
            -POS_MAX as int,
            POS_MAX as int,
        ) && self.object.spec_position().z == spec_clamp(
            pre.spec_new_target_from(pre.last_state.target).z + crate::spherical::spec_off_z(
                self.spherical,
            ),
            -POS_MAX as int,
            POS_MAX as int,
        ))
        &&& (!pre.has_input() ==> self.object.spec_position() == pre.last_state.position)
        &&& self.object.spec_zoom() == pre.last_state.zoom
        &&& self.object.spec_up() == pre.object.spec_up()
        &&& self.object.spec_type() == pre.object.spec_type()
        &&& self.last_state == pre.last_state
    }

    /// restored view is kept exactly.  The frame itself is pinned by
    /// `reset_frame_rel`, so a caller also learns what a reset with
    /// pending input does to the committed state.
    #[verifier::rlimit(100)]
    pub fn reset(&mut self)
        requires
            old(self).wf(),
        ensures
            final (self).wf(),
            final (self).controller.state == ControllerState::Idle,
            final (self).object.spec_zoom() == old(self).last_state.zoom,
            final (self).last_state == old(self).last_state,
            exists|s0: Spherical|
                #[trigger] old(self).restored_sync_rel(s0) && final (self).reset_frame_rel(
                    *old(self),
                    s0,
                ),
            !old(self).has_input() ==> final (self).object.spec_position() == old(
                self,
            ).last_state.position && final (self).target == old(self).last_state.target,
    {
        let ghost pre = *old(self);
        self.target = self.last_state.target;
        let position: Vec3Fp = self.last_state.position;
        let zoom: i64 = self.last_state.zoom;
        self.object.set_position(position);
        self.object.set_zoom(zoom);
        self.object.update();
        let ghost mid = *self;
        self.update();
        let ghost post_update = *self;
        self.controller.state = ControllerState::Idle;
        proof {
            let s0 = choose|s0: Spherical|
                #[trigger] mid.sync_rel(s0) && post_update.frame_rel(mid, s0);
            assert(post_update.frame_rel(mid, s0));
            assert(pre.restored_sync_rel(s0)) by {
                assert(mid.spec_offset_now() == (Vec3Fp {
                    x: (pre.last_state.position.x - pre.last_state.target.x) as i64,
                    y: (pre.last_state.position.y - pre.last_state.target.y) as i64,
                    z: (pre.last_state.position.z - pre.last_state.target.z) as i64,
                }));
            }
            if !pre.has_input() {
                match pre.damping {
                    Damping::Disable => {},
                    Damping::Enable(factor) => {
                        crate::fix::lemma_mul_fp_zero(factor as int);
                    },
                }
                assert(mid.spec_new_target() == pre.last_state.target);
            }
            assert(self.reset_frame_rel(pre, s0));
        }
    }

    /// Apply one dolly-in step: a perspective camera divides its zoom by
    /// the multiplier (limited to the zoom range), an orthographic one
    /// multiplies the controller's scale accumulator instead.
    pub fn dolly_in(&mut self, dolly_scale: i64)
        requires
            old(self).wf(),
            0 < dolly_scale <= SCALE_MAX,
        ensures
            final (self).wf(),
            old(self).object.spec_type() == CameraType::Perspective ==> final (
            self).object.spec_zoom() == spec_clamp(
                spec_div_fp(old(self).object.spec_zoom() as int, dolly_scale as int),
                old(self).min_zoom as int,
                old(self).max_zoom as int,
            ) && final (self).scale == old(self).scale,
            old(self).object.spec_type() == CameraType::Orthographic ==> final (self).scale
                == spec_clamp(
                spec_mul_fp(old(self).scale as int, dolly_scale as int),
                0,
                SCALE_MAX as int,
            ) && final (self).object.spec_zoom() == old(self).object.spec_zoom(),
            final (self).object.spec_position() == old(self).object.spec_position(),
            final (self).object.spec_up() == old(self).object.spec_up(),
            final (self).object.spec_type() == old(self).object.spec_type(),
            *final (self) == (OrbitControls {
                object: final (self).object,
                scale: final (self).scale,
                ..*old(self)
            }),
    {
        proof {
            self.object.inv_bounds();
        }
        match self.object.get_type() {
            CameraType::Orthographic => {
                self.scale = clamp_i64(mul_fp(self.scale, dolly_scale), 0, SCALE_MAX);
            },
            CameraType::Perspective => {
                let z: i64 = self.object.get_zoom();
                let nz: i64 = clamp_i64(div_fp(z, dolly_scale), self.min_zoom, self.max_zoom);
                self.object.set_zoom(nz);
                self.object.update();
            },
        }
    }

    /// Apply one dolly-out step: the inverse movement of `dolly_in`.
    pub fn dolly_out(&mut self, dolly_scale: i64)
        requires
            old(self).wf(),
            0 < dolly_scale <= SCALE_MAX,
        ensures
            final (self).wf(),
            old(self).object.spec_type() == CameraType::Perspective ==> final (
            self).object.spec_zoom() == spec_clamp(
                spec_mul_fp(old(self).object.spec_zoom() as int, dolly_scale as int),
                old(self).min_zoom as int,
                old(self).max_zoom as int,
            ) && final (self).scale == old(self).scale,
            old(self).object.spec_type() == CameraType::Orthographic ==> final (self).scale
                == spec_clamp(
                spec_div_fp(old(self).scale as int, dolly_scale as int),
                0,
                SCALE_MAX as int,
            ) && final (self).object.spec_zoom() == old(self).object.spec_zoom(),
            final (self).object.spec_position() == old(self).object.spec_position(),
            final (self).object.spec_up() == old(self).object.spec_up(),
            final (self).object.spec_type() == old(self).object.spec_type(),
            *final (self) == (OrbitControls {
                object: final (self).object,
                scale: final (self).scale,
                ..*old(self)
            }),
    {
        proof {
            self.object.inv_bounds();
        }
        match self.object.get_type() {
            CameraType::Orthographic => {
                self.scale = clamp_i64(div_fp(self.scale, dolly_scale), 0, SCALE_MAX);
            },
            CameraType::Perspective => {
                let z: i64 = self.object.get_zoom();
                let nz: i64 = clamp_i64(mul_fp(z, dolly_scale), self.min_zoom, self.max_zoom);
                self.object.set_zoom(nz);
                self.object.update();
            },
        }
    }
    /// Set the damping policy.
    pub fn set_damping(&mut self, damping: Damping)
        requires
            old(self).wf(),
            match damping {
                Damping::Disable => true,
                Damping::Enable(factor) => 0 <= factor <= ONE,
            },
        ensures
            *final (self) == (OrbitControls { damping, ..*old(self) }),
            final (self).wf(),
    {
        self.damping = damping;
    }

    /// Set the auto-rotation policy.  The speed's magnitude is capped at
    /// the fixed-point angle range.
    pub fn set_auto_rotate(&mut self, auto_rotate: AutoRotation)
        requires
            old(self).wf(),
            match auto_rotate {
                AutoRotation::Disable => true,
                AutoRotation::Enable(speed) => -ANGLE_MAX <= speed <= ANGLE_MAX,
            },
        ensures
            *final (self) == (OrbitControls { auto_rotate, ..*old(self) }),
            final (self).wf(),
    {
        self.auto_rotate = auto_rotate;
    }

    /// Set the pan policy.  The strength is a non-negative factor, capped
    /// at the fixed-point multiplier range.
    pub fn set_panning(&mut self, panning: Pan)
        requires
            old(self).wf(),
            match panning {
                Pan::Disable => true,
                Pan::Enable(strength) => 0 <= strength <= MUL_IN,
            },
        ensures
            *final (self) == (OrbitControls { panning, ..*old(self) }),
            final (self).wf(),
    {
        self.panning = panning;
    }

    /// Set the zoom/dolly policy.  The strength is a non-negative step
    /// count, fractional steps included.
    pub fn set_zoom_policy(&mut self, zoom: Zoom)
        requires
            old(self).wf(),
            match zoom {
                Zoom::Disable => true,
                Zoom::Enable(speed) => 0 <= speed,
            },
        ensures
            *final (self) == (OrbitControls { zoom, ..*old(self) }),
            final (self).wf(),
    {
        self.zoom = zoom;
    }

    /// Set the dolly distance limits.  An inverted pair is kept as given;
    /// clamping against it collapses the radius to the lower bound.
    pub fn set_distance_limits(&mut self, min_distance: i64, max_distance: i64)
        requires
            old(self).wf(),
            0 <= min_distance <= COORD_MAX,
            0 <= max_distance <= COORD_MAX,
        ensures
            *final (self) == (OrbitControls { min_distance, max_distance, ..*old(self) }),
            final (self).wf(),
    {
        self.min_distance = min_distance;
        self.max_distance = max_distance;
    }

    /// Set the zoom limits.
    pub fn set_zoom_limits(&mut self, min_zoom: i64, max_zoom: i64)
        requires
            old(self).wf(),
            0 <= min_zoom <= ZOOM_MAX,
            0 <= max_zoom <= ZOOM_MAX,
        ensures
            *final (self) == (OrbitControls { min_zoom, max_zoom, ..*old(self) }),
            final (self).wf(),
    {
        self.min_zoom = min_zoom;
        self.max_zoom = max_zoom;
    }

    /// Set the polar-angle limits.
    pub fn set_polar_limits(&mut self, min_polar_angle: i64, max_polar_angle: i64)
        requires
            old(self).wf(),
            -ANGLE_MAX <= min_polar_angle <= ANGLE_MAX,
            -ANGLE_MAX <= max_polar_angle <= ANGLE_MAX,
        ensures
            *final (self) == (OrbitControls { min_polar_angle, max_polar_angle, ..*old(self) }),
            final (self).wf(),
    {
        self.min_polar_angle = min_polar_angle;
        self.max_polar_angle = max_polar_angle;
    }

    /// Set the azimuth limits; the widest pair acts as unbounded.
    pub fn set_azimuth_limits(&mut self, min_azimuth_angle: i64, max_azimuth_angle: i64)
        requires
            old(self).wf(),
            -ANGLE_MAX <= min_azimuth_angle <= ANGLE_MAX,
            -ANGLE_MAX <= max_azimuth_angle <= ANGLE_MAX,
        ensures
            *final (self) == (OrbitControls {
                min_azimuth_angle,
                max_azimuth_angle,
                ..*old(self)
            }),
            final (self).wf(),
    {
        self.min_azimuth_angle = min_azimuth_angle;
        self.max_azimuth_angle = max_azimuth_angle;
    }

    /// The pixel-to-angle conversion: a full turn across the viewport
    /// height, saturating at the angle range.
    pub open spec fn spec_rotate_angle(self, px: int) -> int {
        spec_clamp(
            spec_div_trunc(TWO_PI_FP * px, self.viewport_height as int),
            -ANGLE_MAX as int,
            ANGLE_MAX as int,
        )
    }

    /// The pending deltas after a rotate gesture advanced by pixel delta
    /// `d`.
    pub open spec fn spec_rotate_deltas(self, d: Vec2Fp) -> Spherical {
        Spherical {
            radius: self.spherical_delta.radius,
            phi: spec_clamp(
                self.spherical_delta.phi - self.spec_rotate_angle(d.y as int),
                -ANGLE_MAX as int,
                ANGLE_MAX as int,
            ) as i64,
            theta: spec_clamp(
                self.spherical_delta.theta - self.spec_rotate_angle(d.x as int),
                -ANGLE_MAX as int,
                ANGLE_MAX as int,
            ) as i64,
        }
    }

    /// The world-units-per-pixel base of a pan: the committed distance for
    /// a perspective camera, the zoom for an orthographic one.
    pub open spec fn spec_pan_k(self) -> int {
        if self.object.spec_type() == CameraType::Perspective {
            self.spherical.radius as int
        } else {
            self.object.spec_zoom() as int
        }
    }

    /// The world shift one pixel axis of a pan produces: twice the base
    /// per viewport height, scaled by the pan strength; zero when panning
    /// is disabled.
    pub open spec fn spec_pan_px(self, px: int) -> int {
        match self.panning {
            Pan::Disable => 0,
            Pan::Enable(strength) => spec_clamp(
                spec_mul_fp(
                    spec_clamp(
                        spec_div_trunc(2 * self.spec_pan_k() * px, self.viewport_height as int),
                        -POS_MAX as int,
                        POS_MAX as int,
                    ),
                    strength as int,
                ),
                -POS_MAX as int,
                POS_MAX as int,
            ),
        }
    }

    /// The pan accumulator after a pan gesture advanced by pixel delta
    /// `d`: the shift along the camera's right and up basis vectors, which
    /// the committed spherical angles determine.
    pub open spec fn spec_pan_after(self, d: Vec2Fp) -> Vec3Fp {
        let sx = self.spec_pan_px(d.x as int);
        let sy = self.spec_pan_px(d.y as int);
        let ct = spec_cos_fp(self.spherical.theta as int);
        let st = spec_sin_fp(self.spherical.theta as int);
        let cp = spec_cos_fp(self.spherical.phi as int);
        let sp = spec_sin_fp(self.spherical.phi as int);
        Vec3Fp {
            x: spec_clamp(
                self.controller.pan_offset.x + spec_mul_fp(ct, -sx) + spec_mul_fp(
                    -spec_mul_fp(cp, st),
                    sy,
                ),
                -POS_MAX as int,
                POS_MAX as int,
            ) as i64,
            y: spec_clamp(
                self.controller.pan_offset.y + spec_mul_fp(sp, sy),
                -POS_MAX as int,
                POS_MAX as int,
            ) as i64,
            z: spec_clamp(
                self.controller.pan_offset.z + spec_mul_fp(-st, -sx) + spec_mul_fp(
                    -spec_mul_fp(cp, ct),
                    sy,
                ),
                -POS_MAX as int,
                POS_MAX as int,
            ) as i64,
        }
    }

    /// How one dolly step relates the scale accumulator and the viewpoint
    /// zoom after the gesture to the state before it.
    pub open spec fn spec_dolly_rel(self, post_scale: int, post_zoom: int, dy: int) -> bool {
        match self.zoom {
            Zoom::Disable => post_scale == self.scale && post_zoom == self.object.spec_zoom(),
            Zoom::Enable(speed) => {
                let s = spec_zoom_scale(speed as int);
                if s > 0 && dy > 0 {
                    if self.object.spec_type() == CameraType::Perspective {
                        post_zoom == spec_clamp(
                            spec_div_fp(self.object.spec_zoom() as int, s),
                            self.min_zoom as int,
                            self.max_zoom as int,
                        ) && post_scale == self.scale
                    } else {
                        post_scale == spec_clamp(
                            spec_mul_fp(self.scale as int, s),
                            0,
                            SCALE_MAX as int,
                        ) && post_zoom == self.object.spec_zoom()
                    }
                } else if s > 0 && dy < 0 {
                    if self.object.spec_type() == CameraType::Perspective {
                        post_zoom == spec_clamp(
                            spec_mul_fp(self.object.spec_zoom() as int, s),
                            self.min_zoom as int,
                            self.max_zoom as int,
                        ) && post_scale == self.scale
                    } else {
                        post_scale == spec_clamp(
                            spec_div_fp(self.scale as int, s),
                            0,
                            SCALE_MAX as int,
                        ) && post_zoom == self.object.spec_zoom()
                    }
                } else {
                    post_scale == self.scale && post_zoom == self.object.spec_zoom()
                }
            },
        }
    }

    /// Queue the angular deltas of a rotate gesture's pixel delta.
    fn handle_rotate(&mut self, d: Vec2Fp)
        requires
            old(self).wf(),
            vec2_in(d),
        ensures
            final (self).spherical_delta == old(self).spec_rotate_deltas(d),
            *final (self) == (OrbitControls {
                spherical_delta: final (self).spherical_delta,
                ..*old(self)
            }),
            final (self).wf(),
    {
        let tx: i64 = TWO_PI_FP * d.x;
        let ty: i64 = TWO_PI_FP * d.y;
        let ax: i64 = clamp_i64(div_trunc(tx, self.viewport_height), -ANGLE_MAX, ANGLE_MAX);
        let ay: i64 = clamp_i64(div_trunc(ty, self.viewport_height), -ANGLE_MAX, ANGLE_MAX);
        self.rotate_left(ax);
        self.rotate_up(ay);
    }

    /// Accumulate the world-space pan shift of a pan gesture's pixel
    /// delta.
    fn handle_pan(&mut self, d: Vec2Fp)
        requires
            old(self).wf(),
            vec2_in(d),
        ensures
            final (self).controller.pan_offset == old(self).spec_pan_after(d),
            final (self).controller == (Controller {
                pan_offset: final (self).controller.pan_offset,
                ..old(self).controller
            }),
            *final (self) == (OrbitControls {
                controller: final (self).controller,
                ..*old(self)
            }),
            final (self).wf(),
    {
        let k: i64 = match self.object.get_type() {
            CameraType::Perspective => self.spherical.radius,
            CameraType::Orthographic => {
                proof {
                    self.object.inv_bounds();
                }
                self.object.get_zoom()
            },
        };
        proof {
            assert((2 * k as int) * (d.x as int) <= 9_000_000_000_000_000_000 && (2 * k as int) * (
            d.x as int) >= -9_000_000_000_000_000_000) by (nonlinear_arith)
                requires
                    0 <= k <= 1_500_000_000,
                    -MUL_IN <= d.x <= MUL_IN,
            ;
            assert((2 * k as int) * (d.y as int) <= 9_000_000_000_000_000_000 && (2 * k as int) * (
            d.y as int) >= -9_000_000_000_000_000_000) by (nonlinear_arith)
                requires
                    0 <= k <= 1_500_000_000,
                    -MUL_IN <= d.y <= MUL_IN,
            ;
        }
        let sxv: i64 = match self.panning {
            Pan::Disable => 0,
            Pan::Enable(strength) => {
                let t: i64 = 2 * k * d.x;
                let q: i64 = clamp_i64(div_trunc(t, self.viewport_height), -POS_MAX, POS_MAX);
                clamp_i64(mul_fp(q, strength), -POS_MAX, POS_MAX)
            },
        };
        let syv: i64 = match self.panning {
            Pan::Disable => 0,
            Pan::Enable(strength) => {
                let t: i64 = 2 * k * d.y;
                let q: i64 = clamp_i64(div_trunc(t, self.viewport_height), -POS_MAX, POS_MAX);
                clamp_i64(mul_fp(q, strength), -POS_MAX, POS_MAX)
            },
        };
        let ct: i64 = crate::trig::cos_fp(self.spherical.theta);
        let st: i64 = crate::trig::sin_fp(self.spherical.theta);
        let cp: i64 = crate::trig::cos_fp(self.spherical.phi);
        let sp: i64 = crate::trig::sin_fp(self.spherical.phi);
        let cpst: i64 = mul_fp(cp, st);
        let cpct: i64 = mul_fp(cp, ct);
        proof {
            crate::fix::lemma_mul_fp_bound(cp as int, st as int, ONE as int, ONE as int);
            crate::fix::lemma_mul_fp_bound(cp as int, ct as int, ONE as int, ONE as int);
            crate::fix::lemma_mul_fp_contract(sxv as int, ct as int);
            crate::fix::lemma_mul_fp_contract(sxv as int, st as int);
        }
        let m1: i64 = mul_fp(ct, -sxv);
        let m2: i64 = mul_fp(-cpst, syv);
        let m3: i64 = mul_fp(sp, syv);
        let m4: i64 = mul_fp(-st, -sxv);
        let m5: i64 = mul_fp(-cpct, syv);
        let px: i64 = crate::fix::add_clamped(self.controller.pan_offset.x, m1 + m2, -POS_MAX,
            POS_MAX);
        let py: i64 = crate::fix::add_clamped(self.controller.pan_offset.y, m3, -POS_MAX, POS_MAX);
        let pz: i64 = crate::fix::add_clamped(self.controller.pan_offset.z, m4 + m5, -POS_MAX,
            POS_MAX);
        self.controller.pan_offset = Vec3Fp { x: px, y: py, z: pz };
    }

    /// Apply the dolly step a dolly gesture's vertical pixel delta asks
    /// for: in for an upward drag, out for a downward one.
    fn handle_dolly(&mut self, dy: i64)
        requires
            old(self).wf(),
            -MUL_IN <= dy <= MUL_IN,
        ensures
            final (self).wf(),
            old(self).spec_dolly_rel(
                final (self).scale as int,
                final (self).object.spec_zoom() as int,
                dy as int,
            ),
            final (self).object.spec_position() == old(self).object.spec_position(),
            final (self).object.spec_up() == old(self).object.spec_up(),
            final (self).object.spec_type() == old(self).object.spec_type(),
            *final (self) == (OrbitControls {
                object: final (self).object,
                scale: final (self).scale,
                ..*old(self)
            }),
    {
        match self.zoom {
            Zoom::Disable => {},
            Zoom::Enable(speed) => {
                proof {
                    lemma_zoom_scale_range(speed as int);
                }
                let os: Option<i64> = self.get_zoom_scale();
                match os {
                    Some(s) => {
                        if s > 0 && dy > 0 {
                            self.dolly_in(s);
                        } else if s > 0 && dy < 0 {
                            self.dolly_out(s);
                        }
                    },
                    None => {},
                }
            },
        }
    }

    /// Start a gesture: record which one is active and where it begins.
    pub fn begin_gesture(&mut self, kind: ControllerState, p: Vec2Fp)
        requires
            old(self).wf(),
            vec2_pt_in(p),
        ensures
            final (self).controller == spec_begun(old(self).controller, kind, p),
            *final (self) == (OrbitControls {
                controller: final (self).controller,
                ..*old(self)
            }),
            final (self).wf(),
    {
        self.controller.state = kind;
        match kind {
            ControllerState::Idle => {},
            ControllerState::Rotate | ControllerState::TouchRotate => {
                self.controller.rotate_start = p;
            },
            ControllerState::Dolly => {
                self.controller.dolly_start = p;
            },
            ControllerState::Pan | ControllerState::TouchPan => {
                self.controller.pan_start = p;
            },
            ControllerState::TouchDollyPan => {
                self.controller.dolly_start = p;
                self.controller.pan_start = p;
            },
            ControllerState::TouchDollyRotate => {
                self.controller.dolly_start = p;
                self.controller.rotate_start = p;
            },
        }
    }

    /// Advance the active gesture to a new screen point: record the pixel
    /// delta since the last point, convert it into the gesture's effect,
    /// and roll the start point forward.  Without an active gesture this
    /// is a no-op.
    pub fn advance_gesture(&mut self, p: Vec2Fp)
        requires
            old(self).wf(),
            vec2_pt_in(p),
        ensures
            final (self).wf(),
            match old(self).controller.state {
                ControllerState::Idle => *final (self) == *old(self),
                ControllerState::Rotate | ControllerState::TouchRotate => {
                    &&& final (self).controller == spec_rotate_book(old(self).controller, p)
                    &&& final (self).spherical_delta == old(self).spec_rotate_deltas(
                        spec_rotate_book(old(self).controller, p).rotate_delta,
                    )
                    &&& *final (self) == (OrbitControls {
                        controller: final (self).controller,
                        spherical_delta: final (self).spherical_delta,
                        ..*old(self)
                    })
                },
                ControllerState::Dolly => {
                    &&& final (self).controller == spec_dolly_book(old(self).controller, p)
                    &&& old(self).spec_dolly_rel(
                        final (self).scale as int,
                        final (self).object.spec_zoom() as int,
                        spec_dolly_book(old(self).controller, p).dolly_delta.y as int,
                    )
                    &&& final (self).object.spec_position() == old(self).object.spec_position()
                    &&& *final (self) == (OrbitControls {
                        controller: final (self).controller,
                        scale: final (self).scale,
                        object: final (self).object,
                        ..*old(self)
                    })
                },
                ControllerState::Pan | ControllerState::TouchPan => {
                    &&& final (self).controller == (Controller {
                        pan_offset: final (self).controller.pan_offset,
                        ..spec_pan_book(old(self).controller, p)
                    })
                    &&& final (self).controller.pan_offset == old(self).spec_pan_after(
                        spec_pan_book(old(self).controller, p).pan_delta,
                    )
                    &&& *final (self) == (OrbitControls {
                        controller: final (self).controller,
                        ..*old(self)
                    })
                },
                ControllerState::TouchDollyPan => {
                    &&& final (self).controller == (Controller {
                        pan_offset: final (self).controller.pan_offset,
                        ..spec_pan_book(spec_dolly_book(old(self).controller, p), p)
                    })
                    &&& old(self).spec_dolly_rel(
                        final (self).scale as int,
                        final (self).object.spec_zoom() as int,
                        spec_dolly_book(old(self).controller, p).dolly_delta.y as int,
                    )
                    &&& final (self).object.spec_position() == old(self).object.spec_position()
                },
                ControllerState::TouchDollyRotate => {
                    &&& final (self).controller == spec_rotate_book(
                        spec_dolly_book(old(self).controller, p),
                        p,
                    )
                    &&& old(self).spec_dolly_rel(
                        final (self).scale as int,
                        final (self).object.spec_zoom() as int,
                        spec_dolly_book(old(self).controller, p).dolly_delta.y as int,
                    )
                    &&& final (self).spherical_delta == old(self).spec_rotate_deltas(
                        spec_rotate_book(old(self).controller, p).rotate_delta,
                    )
                    &&& final (self).object.spec_position() == old(self).object.spec_position()
                },
            },
    {
        match self.controller.state {
            ControllerState::Idle => {},
            ControllerState::Rotate | ControllerState::TouchRotate => {
                let delta: Vec2Fp = p.minus(self.controller.rotate_start);
                self.controller.rotate_end = p;
                self.controller.rotate_delta = delta;
                self.controller.rotate_start = p;
                self.handle_rotate(delta);
            },
            ControllerState::Dolly => {
                let delta: Vec2Fp = p.minus(self.controller.dolly_start);
                self.controller.dolly_end = p;
                self.controller.dolly_delta = delta;
                self.controller.dolly_start = p;
                self.handle_dolly(delta.y);
            },
            ControllerState::Pan | ControllerState::TouchPan => {
                let delta: Vec2Fp = p.minus(self.controller.pan_start);
                self.controller.pan_end = p;
                self.controller.pan_delta = delta;
                self.controller.pan_start = p;
                self.handle_pan(delta);
            },
            ControllerState::TouchDollyPan => {
                let ddelta: Vec2Fp = p.minus(self.controller.dolly_start);
                self.controller.dolly_end = p;
                self.controller.dolly_delta = ddelta;
                self.controller.dolly_start = p;
                self.handle_dolly(ddelta.y);
                let pdelta: Vec2Fp = p.minus(self.controller.pan_start);
                self.controller.pan_end = p;
                self.controller.pan_delta = pdelta;
                self.controller.pan_start = p;
                self.handle_pan(pdelta);
            },
            ControllerState::TouchDollyRotate => {
                let ddelta: Vec2Fp = p.minus(self.controller.dolly_start);
                self.controller.dolly_end = p;
                self.controller.dolly_delta = ddelta;
                self.controller.dolly_start = p;
                self.handle_dolly(ddelta.y);
                let rdelta: Vec2Fp = p.minus(self.controller.rotate_start);
                self.controller.rotate_end = p;
                self.controller.rotate_delta = rdelta;
                self.controller.rotate_start = p;
                self.handle_rotate(rdelta);
            },
        }
    }

    /// Release the active gesture: back to idle, pixel deltas cleared.
    pub fn end_gesture(&mut self)
        requires
            old(self).wf(),
        ensures
            final (self).controller == (Controller {
                state: ControllerState::Idle,
                rotate_delta: Vec2Fp { x: 0, y: 0 },
                pan_delta: Vec2Fp { x: 0, y: 0 },
                dolly_delta: Vec2Fp { x: 0, y: 0 },
                ..old(self).controller
            }),
            *final (self) == (OrbitControls {
                controller: final (self).controller,
                ..*old(self)
            }),
            final (self).wf(),
    {
        self.controller.state = ControllerState::Idle;
        self.controller.rotate_delta = Vec2Fp { x: 0, y: 0 };
        self.controller.pan_delta = Vec2Fp { x: 0, y: 0 };
        self.controller.dolly_delta = Vec2Fp { x: 0, y: 0 };
    }
}

/// The gesture bookkeeping after a gesture of `kind` begins at `p`.
pub open spec fn spec_begun(c: Controller, kind: ControllerState, p: Vec2Fp) -> Controller {
    match kind {
        ControllerState::Idle => Controller { state: kind, ..c },
        ControllerState::Rotate | ControllerState::TouchRotate => Controller {
            state: kind,
            rotate_start: p,
            ..c
        },
        ControllerState::Dolly => Controller { state: kind, dolly_start: p, ..c },
        ControllerState::Pan | ControllerState::TouchPan => Controller {
            state: kind,
            pan_start: p,
            ..c
        },
        ControllerState::TouchDollyPan => Controller {
            state: kind,
            dolly_start: p,
            pan_start: p,
            ..c
        },
        ControllerState::TouchDollyRotate => Controller {
            state: kind,
            dolly_start: p,
            rotate_start: p,
            ..c
        },
    }
}

/// The rotate bookkeeping after advancing to `p`: the delta since the last
/// point, and the start rolled forward.
pub open spec fn spec_rotate_book(c: Controller, p: Vec2Fp) -> Controller {
    Controller {
        rotate_end: p,
        rotate_delta: Vec2Fp {
            x: (p.x - c.rotate_start.x) as i64,
            y: (p.y - c.rotate_start.y) as i64,
        },
        rotate_start: p,
        ..c
    }
}

/// The pan bookkeeping after advancing to `p`.
pub open spec fn spec_pan_book(c: Controller, p: Vec2Fp) -> Controller {
    Controller {
        pan_end: p,
        pan_delta: Vec2Fp { x: (p.x - c.pan_start.x) as i64, y: (p.y - c.pan_start.y) as i64 },
        pan_start: p,
        ..c
    }
}

/// The dolly bookkeeping after advancing to `p`.
pub open spec fn spec_dolly_book(c: Controller, p: Vec2Fp) -> Controller {
    Controller {
        dolly_end: p,
        dolly_delta: Vec2Fp {
            x: (p.x - c.dolly_start.x) as i64,
            y: (p.y - c.dolly_start.y) as i64,
        },
        dolly_start: p,
        ..c
    }
}

impl Default for OrbitControls<crate::perspective::PerspectiveCamera> {
    /// A controller around the default perspective camera, for a
    /// 1920 x 1080 viewport.
    fn default() -> (c: Self)
        ensures
            c.wf(),
            !c.synced,
            c.target == (Vec3Fp { x: 0, y: 0, z: 0 }),
            c.scale == ONE,
            c.damping == Damping::Disable,
            c.auto_rotate == AutoRotation::Enable(ONE),
            c.zoom == Zoom::Enable(ONE),
            c.panning == Pan::Enable(ONE),
            c.min_distance == 0,
            c.max_distance == COORD_MAX,
            c.min_zoom == 0,
            c.max_zoom == ZOOM_MAX,
            c.min_polar_angle == 0,
            c.max_polar_angle == PI_FP,
            c.min_azimuth_angle == -ANGLE_MAX,
            c.max_azimuth_angle == ANGLE_MAX,
            c.spherical == (Spherical { radius: ONE, phi: 0, theta: 0 }),
            c.spherical_delta == (Spherical { radius: ONE, phi: 0, theta: 0 }),
            c.controller == Controller::spec_zeroed(),
            c.object.spec_zoom() == ONE,
            c.object.spec_position() == (Vec3Fp { x: 0, y: 0, z: 2_000_000 }),
            c.last_state == (State {
                target: Vec3Fp { x: 0, y: 0, z: 0 },
                position: Vec3Fp { x: 0, y: 0, z: 2_000_000 },
                zoom: 1_000_000,
            }),
            c.viewport_height == 1_080_000_000,
    {
        let camera = crate::perspective::PerspectiveCamera::new(1_920_000_000, 1_080_000_000);
        OrbitControls::new(camera, 1_080_000_000)
    }
}

/// One damped frame approaches the undamped azimuth target monotonically:
/// with auto-rotation inactive and the azimuth limits not binding, the
/// azimuth the frame commits moves from `s0.theta` toward
/// `s0.theta + spherical_delta.theta` without overshooting, and the
/// residual delta keeps its sign while it shrinks.
pub proof fn lemma_damped_frame_monotone<T: Camera>(
    c: OrbitControls<T>,
    s0: Spherical,
    factor: i64,
)
    requires
        c.damping == Damping::Enable(factor),
        0 <= factor <= ONE,
        !c.auto_active(),
        c.min_azimuth_angle <= s0.theta <= c.max_azimuth_angle,
        c.min_azimuth_angle <= s0.theta + c.spherical_delta.theta <= c.max_azimuth_angle,
    ensures
        c.spherical_delta.theta >= 0 ==> s0.theta <= c.spec_new_theta(s0) <= s0.theta
            + c.spherical_delta.theta,
        c.spherical_delta.theta <= 0 ==> s0.theta + c.spherical_delta.theta <= c.spec_new_theta(
            s0,
        ) <= s0.theta,
        c.spherical_delta.theta >= 0 ==> 0 <= c.spec_decayed(c.spherical_delta.theta as int)
            <= c.spherical_delta.theta,
        c.spherical_delta.theta <= 0 ==> c.spherical_delta.theta <= c.spec_decayed(
            c.spherical_delta.theta as int,
        ) <= 0,
{
    crate::fix::lemma_mul_fp_unit_factor(c.spherical_delta.theta as int, factor as int);
    crate::fix::lemma_mul_fp_unit_factor(c.spherical_delta.theta as int, ONE - factor as int);
}

} // verus!
