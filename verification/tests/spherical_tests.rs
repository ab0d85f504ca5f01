use orbit_controls::fix::{EPS_FP, HALF_PI_FP, ONE, PI_FP};
use orbit_controls::spherical::{Spherical, SphericalSetter};
use orbit_controls::vec::Vec3Fp;

#[test]
fn new_points_at_unit_pole() {
    let s = Spherical::new();
    assert_eq!(s.radius, ONE);
    assert_eq!(s.phi, 0);
    assert_eq!(s.theta, 0);
}

#[test]
fn zero_offset_gives_zero_angles() {
    let s = Spherical::from_offset(Vec3Fp { x: 0, y: 0, z: 0 });
    assert_eq!(s.radius, 0);
    assert_eq!(s.theta, 0);
    assert_eq!(s.phi, 0);
}

#[test]
fn offset_along_z_gives_zero_azimuth_and_flat_polar() {
    let s = Spherical::from_offset(Vec3Fp { x: 0, y: 0, z: 2 * ONE });
    assert_eq!(s.radius, 2 * ONE);
    assert_eq!(s.theta, 0);
    assert_eq!(s.phi, HALF_PI_FP);
}

#[test]
fn offset_along_x_gives_quarter_turn_azimuth() {
    let s = Spherical::from_offset(Vec3Fp { x: 2 * ONE, y: 0, z: 0 });
    assert_eq!(s.radius, 2 * ONE);
    assert_eq!(s.theta, HALF_PI_FP);
    assert_eq!(s.phi, HALF_PI_FP);
}

#[test]
fn offset_along_y_gives_zero_polar() {
    let s = Spherical::from_offset(Vec3Fp { x: 0, y: 2 * ONE, z: 0 });
    assert_eq!(s.radius, 2 * ONE);
    assert_eq!(s.theta, 0);
    assert_eq!(s.phi, 0);
}

#[test]
fn diagonal_offset_angles() {
    let s = Spherical::from_offset(Vec3Fp { x: ONE, y: ONE, z: ONE });
    // |v| = sqrt(3), azimuth pi/4, polar atan2(sqrt(2), 1).
    assert_eq!(s.radius, 1_732_050);
    assert_eq!(s.theta, 785_398);
    assert!((s.phi - 955_317).abs() <= 10, "phi was {}", s.phi);
}

#[test]
fn round_trip_within_tolerance() {
    let cases = [
        Vec3Fp { x: ONE, y: ONE, z: ONE },
        Vec3Fp { x: 0, y: 0, z: 2 * ONE },
        Vec3Fp { x: -3 * ONE, y: ONE / 2, z: ONE },
        Vec3Fp { x: 250_000, y: -750_000, z: 1_250_000 },
    ];
    for v in cases {
        let s = Spherical::from_offset(v);
        let w = s.to_offset();
        assert!((w.x - v.x).abs() <= 5_000, "x: {} vs {}", w.x, v.x);
        assert!((w.y - v.y).abs() <= 5_000, "y: {} vs {}", w.y, v.y);
        assert!((w.z - v.z).abs() <= 5_000, "z: {} vs {}", w.z, v.z);
    }
}

#[test]
fn make_safe_clamps_phi_off_the_poles() {
    let mut s = Spherical::new();
    s.make_safe();
    assert_eq!(s.phi, EPS_FP);
    let mut t = Spherical { radius: ONE, phi: 4_000_000, theta: 0 };
    t.make_safe();
    assert_eq!(t.phi, PI_FP - EPS_FP);
    let mut u = Spherical { radius: ONE, phi: HALF_PI_FP, theta: 123 };
    u.make_safe();
    assert_eq!(u.phi, HALF_PI_FP);
    assert_eq!(u.theta, 123);
}

#[test]
fn set_values_and_cartesian_forms() {
    let mut s = Spherical::new();
    s.set(SphericalSetter::Values(3 * ONE, HALF_PI_FP, 100));
    assert_eq!(s.radius, 3 * ONE);
    assert_eq!(s.phi, HALF_PI_FP);
    assert_eq!(s.theta, 100);
    s.set(SphericalSetter::CartesianCoords(0, 0, 2 * ONE));
    assert_eq!(s.radius, 2 * ONE);
    assert_eq!(s.theta, 0);
    assert_eq!(s.phi, HALF_PI_FP);
    s.set(SphericalSetter::Vector(Vec3Fp { x: 0, y: 0, z: 0 }));
    assert_eq!(s.radius, 0);
    assert_eq!(s.phi, 0);
    assert_eq!(s.theta, 0);
}
