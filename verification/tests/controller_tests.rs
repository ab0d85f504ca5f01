use orbit_controls::camera::{Camera, CameraType, Object3D};
use orbit_controls::fix::{EPS_FP, HALF_PI_FP, ONE, PI_FP};
use orbit_controls::orbital::{
    AutoRotation, ControllerState, Damping, OrbitControls, Pan, Zoom,
};
use orbit_controls::orthographic::OrthographicCamera;
use orbit_controls::perspective::PerspectiveCamera;
use orbit_controls::vec::{Vec2Fp, Vec3Fp};

fn quiet_default() -> OrbitControls<PerspectiveCamera> {
    let mut c: OrbitControls<PerspectiveCamera> = Default::default();
    c.set_auto_rotate(AutoRotation::Disable);
    c
}

#[test]
fn first_update_reads_the_viewpoint_offset() {
    // Target (0,0,0), viewpoint (0,0,2), up (0,1,0): one update commits
    // radius 2, theta 0, phi pi/2.
    let mut c = quiet_default();
    c.update();
    assert_eq!(c.spherical.radius, 2 * ONE);
    assert_eq!(c.get_azimuth_angle(), 0);
    assert_eq!(c.get_polar_angle(), HALF_PI_FP);
}

#[test]
fn undamped_delta_is_applied_and_zeroed_in_one_update() {
    let mut c = quiet_default();
    c.update();
    c.rotate_left(100_000);
    c.update();
    assert_eq!(c.get_azimuth_angle(), -100_000);
    // The whole pending delta is zeroed, its radius component included.
    assert_eq!(
        c.spherical_delta,
        orbit_controls::spherical::Spherical { radius: 0, phi: 0, theta: 0 }
    );
    // No residual drift on the next call.
    c.update();
    assert_eq!(c.get_azimuth_angle(), -100_000);
}

#[test]
fn damped_delta_decays_geometrically_and_approaches_monotonically() {
    let mut c = quiet_default();
    c.update();
    c.set_damping(Damping::Enable(ONE / 2));
    c.rotate_left(-100_000);
    assert_eq!(c.spherical_delta.theta, 100_000);
    let delta_radius = c.spherical_delta.radius;
    c.update();
    assert_eq!(c.get_azimuth_angle(), 50_000);
    assert_eq!(c.spherical_delta.theta, 50_000);
    // The delta's radius component decays by the same (1 - factor).
    assert_eq!(c.spherical_delta.radius, delta_radius / 2);
    c.update();
    assert_eq!(c.get_azimuth_angle(), 75_000);
    assert_eq!(c.spherical_delta.theta, 25_000);
    c.update();
    assert_eq!(c.get_azimuth_angle(), 87_500);
    assert_eq!(c.spherical_delta.theta, 12_500);
}

#[test]
fn no_auto_rotate_and_no_gesture_keeps_theta() {
    let mut c = quiet_default();
    c.update();
    let theta = c.get_azimuth_angle();
    c.update();
    c.update();
    assert_eq!(c.get_azimuth_angle(), theta);
}

#[test]
fn auto_rotate_turns_when_idle() {
    let mut c: OrbitControls<PerspectiveCamera> = Default::default();
    // Default auto-rotation at unit speed: 2*pi/3600 per frame.
    assert_eq!(c.get_auto_rotation_angle(), Some(1_745));
    c.update();
    assert_eq!(c.get_azimuth_angle(), -1_745);
    c.update();
    assert_eq!(c.get_azimuth_angle(), -3_490);
}

#[test]
fn phi_stays_inside_the_safe_polar_band() {
    let mut c = quiet_default();
    c.update();
    c.rotate_up(-500_000_000);
    c.update();
    assert_eq!(c.get_polar_angle(), PI_FP - EPS_FP);
    c.rotate_up(500_000_000);
    c.update();
    assert_eq!(c.get_polar_angle(), EPS_FP);
}

#[test]
fn radius_respects_distance_limits() {
    let mut c = quiet_default();
    c.set_distance_limits(1_500_000, 1_800_000);
    c.update();
    assert_eq!(c.spherical.radius, 1_800_000);
}

#[test]
fn inverted_distance_limits_collapse_to_the_lower_bound() {
    let mut c = quiet_default();
    c.set_distance_limits(ONE, ONE / 2);
    c.update();
    assert_eq!(c.spherical.radius, ONE);
}

#[test]
fn dolly_in_divides_perspective_zoom() {
    // Dolly multiplier 0.95^1; zoom becomes clamp(old / 0.95, ..).
    let mut c = quiet_default();
    c.update();
    let old_zoom = c.object.get_zoom();
    assert_eq!(old_zoom, ONE);
    c.begin_gesture(ControllerState::Dolly, Vec2Fp { x: 0, y: 0 });
    c.advance_gesture(Vec2Fp { x: 0, y: 10 * ONE });
    c.end_gesture();
    c.update();
    assert_eq!(c.object.get_zoom(), 1_052_631);
    assert_eq!(c.scale, ONE);
}

#[test]
fn dolly_scales_orthographic_accumulator_not_zoom() {
    let camera = OrthographicCamera::default();
    assert!(matches!(camera.get_type(), CameraType::Orthographic));
    let mut c = OrbitControls::new(camera, 1_080_000_000);
    c.set_auto_rotate(AutoRotation::Disable);
    c.begin_gesture(ControllerState::Dolly, Vec2Fp { x: 0, y: 0 });
    c.advance_gesture(Vec2Fp { x: 0, y: 10 * ONE });
    assert_eq!(c.scale, 950_000);
    assert_eq!(c.object.get_zoom(), ONE);
    // The accumulator is consumed by the next update.
    c.update();
    assert_eq!(c.scale, ONE);
}

#[test]
fn zoom_scale_is_a_power_of_the_base() {
    let mut c = quiet_default();
    assert_eq!(c.get_zoom_scale(), Some(950_000));
    c.set_zoom_policy(Zoom::Enable(2 * ONE));
    assert_eq!(c.get_zoom_scale(), Some(902_500));
    // A fractional strength interpolates toward the next whole step:
    // 0.95 * (1 - 0.5 * 0.05) = 0.92625, close to 0.95^1.5.
    c.set_zoom_policy(Zoom::Enable(3 * ONE / 2));
    assert_eq!(c.get_zoom_scale(), Some(926_250));
    c.set_zoom_policy(Zoom::Disable);
    assert_eq!(c.get_zoom_scale(), None);
    c.set_auto_rotate(AutoRotation::Disable);
    assert_eq!(c.get_auto_rotation_angle(), None);
}

#[test]
fn negative_auto_rotation_orbits_the_other_way() {
    let mut c: OrbitControls<PerspectiveCamera> = Default::default();
    c.set_auto_rotate(AutoRotation::Enable(-ONE));
    assert_eq!(c.get_auto_rotation_angle(), Some(-1_745));
    c.update();
    assert_eq!(c.get_azimuth_angle(), 1_745);
}

#[test]
fn pan_strength_above_one_scales_the_shift() {
    let mut c = quiet_default();
    c.update();
    c.set_panning(Pan::Enable(2 * ONE));
    c.begin_gesture(ControllerState::Pan, Vec2Fp { x: 0, y: 0 });
    c.advance_gesture(Vec2Fp { x: 108 * ONE, y: 0 });
    assert_eq!(c.controller.pan_offset, Vec3Fp { x: -800_000, y: 0, z: 0 });
}

#[test]
fn reset_right_after_default_changes_nothing_observable() {
    let mut c = quiet_default();
    c.reset();
    assert_eq!(c.object.position(), Vec3Fp { x: 0, y: 0, z: 2 * ONE });
    assert_eq!(c.object.get_zoom(), ONE);
    assert_eq!(c.target, Vec3Fp { x: 0, y: 0, z: 0 });
    assert_eq!(c.controller.state, ControllerState::Idle);
}

#[test]
fn save_then_mutate_then_reset_restores_the_view() {
    let mut c = quiet_default();
    c.update();
    c.save();
    let saved_position = c.object.position();
    let saved_zoom = c.object.get_zoom();
    let saved_target = c.target;
    // Mutate through gestures: rotate, then dolly.
    c.begin_gesture(ControllerState::Rotate, Vec2Fp { x: 0, y: 0 });
    c.advance_gesture(Vec2Fp { x: 200 * ONE, y: 40 * ONE });
    c.end_gesture();
    c.update();
    c.begin_gesture(ControllerState::Dolly, Vec2Fp { x: 0, y: 0 });
    c.advance_gesture(Vec2Fp { x: 0, y: 10 * ONE });
    c.end_gesture();
    c.update();
    assert_ne!(c.object.position(), saved_position);
    assert_ne!(c.object.get_zoom(), saved_zoom);
    c.reset();
    assert_eq!(c.object.position(), saved_position);
    assert_eq!(c.object.get_zoom(), saved_zoom);
    assert_eq!(c.target, saved_target);
    assert_eq!(c.controller.state, ControllerState::Idle);
}

#[test]
fn gestures_are_mutually_exclusive_and_advance_on_idle_is_a_no_op() {
    let mut c = quiet_default();
    c.update();
    let before = c.spherical_delta;
    c.advance_gesture(Vec2Fp { x: 50 * ONE, y: 50 * ONE });
    assert_eq!(c.spherical_delta, before);
    c.begin_gesture(ControllerState::Rotate, Vec2Fp { x: 0, y: 0 });
    assert_eq!(c.controller.state, ControllerState::Rotate);
    c.begin_gesture(ControllerState::Pan, Vec2Fp { x: 0, y: 0 });
    assert_eq!(c.controller.state, ControllerState::Pan);
    c.end_gesture();
    assert_eq!(c.controller.state, ControllerState::Idle);
    assert_eq!(c.controller.rotate_delta, Vec2Fp { x: 0, y: 0 });
    assert_eq!(c.controller.pan_delta, Vec2Fp { x: 0, y: 0 });
    assert_eq!(c.controller.dolly_delta, Vec2Fp { x: 0, y: 0 });
}

#[test]
fn rotate_gesture_converts_pixels_to_angles() {
    let mut c = quiet_default();
    c.update();
    c.begin_gesture(ControllerState::Rotate, Vec2Fp { x: 0, y: 0 });
    // A full viewport-height drag in x: one full turn queued (negative,
    // matching rotate_left).
    c.advance_gesture(Vec2Fp { x: 1_080_000_000, y: 0 });
    assert_eq!(c.spherical_delta.theta, -6_283_185);
    assert_eq!(c.spherical_delta.phi, 0);
    assert_eq!(c.controller.rotate_start, Vec2Fp { x: 1_080_000_000, y: 0 });
}

#[test]
fn pan_gesture_moves_the_target() {
    let mut c = quiet_default();
    c.update();
    c.begin_gesture(ControllerState::Pan, Vec2Fp { x: 0, y: 0 });
    c.advance_gesture(Vec2Fp { x: 108 * ONE, y: 0 });
    // Viewing along -z from (0,0,2): a horizontal pan shifts x only.
    // Shift per pixel axis: 2 * radius / height; 108 px of 1080 -> 0.4
    // world units, along -right = (-1, 0, 0) times -1.
    let pan = c.controller.pan_offset;
    assert_eq!(pan, Vec3Fp { x: -400_000, y: 0, z: 0 });
    c.update();
    assert_eq!(c.target.x, -400_000);
    assert_eq!(c.controller.pan_offset, Vec3Fp { x: 0, y: 0, z: 0 });
}

#[test]
fn disabled_pan_accumulates_nothing() {
    let mut c = quiet_default();
    c.update();
    c.set_panning(Pan::Disable);
    c.begin_gesture(ControllerState::Pan, Vec2Fp { x: 0, y: 0 });
    c.advance_gesture(Vec2Fp { x: 108 * ONE, y: 54 * ONE });
    assert_eq!(c.controller.pan_offset, Vec3Fp { x: 0, y: 0, z: 0 });
}

#[test]
fn game_camera_slot_swaps_cameras() {
    let first = PerspectiveCamera::new(1_920_000_000, 1_080_000_000);
    let mut slot = orbit_controls::camera::GameCamera { camera: first };
    let mut second = PerspectiveCamera::new(1_920_000_000, 1_080_000_000);
    second.set_zoom(2 * ONE);
    slot.set_camera(second);
    assert_eq!(slot.camera.get_zoom(), 2 * ONE);
}

#[test]
fn perspective_camera_defaults() {
    let camera = PerspectiveCamera::new(1_920_000_000, 1_080_000_000);
    assert_eq!(camera.aspect_ratio, 1_777_777);
    assert_eq!(camera.zoom, ONE);
    assert_eq!(camera.eye, Vec3Fp { x: 0, y: 0, z: 2 * ONE });
    assert_eq!(camera.get_film_width(), 35 * ONE);
    assert_eq!(camera.get_film_height(), 62_222_195);
    assert!(matches!(camera.get_type(), CameraType::Perspective));
}

#[test]
fn outside_position_change_forces_a_resync() {
    let mut c = quiet_default();
    c.update();
    assert_eq!(c.spherical.radius, 2 * ONE);
    // An outside move of the viewpoint is picked up by the next update.
    c.object.set_position(Vec3Fp { x: 3 * ONE, y: 0, z: 0 });
    c.update();
    assert_eq!(c.spherical.radius, 3 * ONE);
    assert_eq!(c.get_azimuth_angle(), HALF_PI_FP);
    // With nothing pending the moved position itself is untouched.
    assert_eq!(c.object.position(), Vec3Fp { x: 3 * ONE, y: 0, z: 0 });
}

#[test]
fn touch_dolly_pan_applies_both_effects() {
    let mut c = quiet_default();
    c.update();
    c.begin_gesture(ControllerState::TouchDollyPan, Vec2Fp { x: 0, y: 0 });
    c.advance_gesture(Vec2Fp { x: 108 * ONE, y: 10 * ONE });
    assert_eq!(c.object.get_zoom(), 1_052_631);
    assert_ne!(c.controller.pan_offset.x, 0);
    assert_eq!(c.controller.state, ControllerState::TouchDollyPan);
}

#[test]
fn touch_dolly_rotate_applies_both_effects() {
    let mut c = quiet_default();
    c.update();
    c.begin_gesture(ControllerState::TouchDollyRotate, Vec2Fp { x: 0, y: 0 });
    c.advance_gesture(Vec2Fp { x: 108 * ONE, y: 10 * ONE });
    assert_eq!(c.object.get_zoom(), 1_052_631);
    assert_ne!(c.spherical_delta.theta, 0);
}

#[test]
fn rotate_queue_saturates_at_the_angle_range() {
    let mut c = quiet_default();
    c.rotate_left(1_000_000_000);
    c.rotate_left(1_000_000_000);
    assert_eq!(c.spherical_delta.theta, -1_000_000_000);
    c.rotate_up(-1_000_000_000);
    c.rotate_up(-1_000_000_000);
    assert_eq!(c.spherical_delta.phi, 1_000_000_000);
}

#[test]
fn zoom_disabled_keeps_dolly_inert() {
    let mut c = quiet_default();
    c.update();
    c.set_zoom_policy(Zoom::Disable);
    c.begin_gesture(ControllerState::Dolly, Vec2Fp { x: 0, y: 0 });
    c.advance_gesture(Vec2Fp { x: 0, y: 10 * ONE });
    assert_eq!(c.object.get_zoom(), ONE);
    assert_eq!(c.scale, ONE);
}

#[test]
fn effective_fov_follows_the_zoom() {
    let mut camera = PerspectiveCamera::new(1_920_000_000, 1_080_000_000);
    // At unit zoom the effective fov is the configured one, up to the
    // polynomial approximation (within 0.005 degrees here).
    assert_eq!(camera.get_effective_fov(), 45_004_230);
    camera.set_zoom(2 * ONE);
    // Doubling the zoom roughly halves the visible angle.
    assert_eq!(camera.get_effective_fov(), 23_402_002);
}

#[test]
fn distance_is_the_rounded_offset_length() {
    let mut c = quiet_default();
    c.update();
    // |(0,0,2)| from the origin.
    assert_eq!(c.get_distance(), 2 * ONE);
    c.object.set_position(Vec3Fp { x: ONE, y: ONE, z: 0 });
    // |(1,1,0)| = sqrt(2), rounded down in micro-units.
    assert_eq!(c.get_distance(), 1_414_213);
}

#[test]
fn damping_decays_the_pan_offset_too() {
    let mut c = quiet_default();
    c.update();
    c.set_damping(Damping::Enable(ONE / 2));
    c.begin_gesture(ControllerState::Pan, Vec2Fp { x: 0, y: 0 });
    c.advance_gesture(Vec2Fp { x: 108 * ONE, y: 0 });
    c.end_gesture();
    let pan_before = c.controller.pan_offset.x;
    assert!(pan_before != 0);
    c.update();
    assert!((c.controller.pan_offset.x - pan_before / 2).abs() <= 1);
}
