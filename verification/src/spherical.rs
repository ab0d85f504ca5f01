//! Spherical coordinates: radius, polar angle `phi`, azimuth `theta`.

use crate::fix::{
    clamp_i64, lemma_mul_fp_contract, mul_fp, spec_clamp, spec_mul_fp, ANGLE_MAX, COORD_MAX,
    EPS_FP, HALF_PI_FP, ONE, PI_FP,
};
use crate::trig::{
    atan2_fp, cos_fp, is_sqrt_of, isqrt_u64, sin_fp, spec_atan2_fp, spec_cos_fp, spec_sin_fp,
};
use crate::vec::Vec3Fp;
use vstd::prelude::*;

verus! {

/// A viewpoint-to-target offset in spherical coordinates.  All three fields
/// are fixed-point micro-units: the radius a distance, the angles
/// micro-radians.
#[derive(Clone, Copy, PartialEq, Eq, Structural, Debug)]
pub struct Spherical {
    pub radius: i64,
    pub phi: i64,
    pub theta: i64,
}

/// How `Spherical::set` receives its new value.
pub enum SphericalSetter {
    /// A Cartesian offset vector.
    Vector(Vec3Fp),
    /// Direct (radius, phi, theta) values.
    Values(i64, i64, i64),
    /// A Cartesian offset given as separate coordinates.
    CartesianCoords(i64, i64, i64),
}

/// What `Spherical::from_offset` guarantees of its result: the radius is the
/// integer square root of the squared length; a zero offset maps to the all
/// zero coordinates; otherwise the angles are the folded arctangents of the
/// offset.
pub open spec fn from_offset_rel(v: Vec3Fp, s: Spherical) -> bool {
    let sq = v.x * v.x + v.y * v.y + v.z * v.z;
    &&& is_sqrt_of(sq, s.radius as int)
    &&& 0 <= s.radius <= 2_600_000_000
    &&& (s.radius == 0 <==> v == (Vec3Fp { x: 0, y: 0, z: 0 }))
    &&& (s.radius == 0 ==> s.phi == 0 && s.theta == 0)
    &&& (s.radius != 0 ==> s.theta == spec_atan2_fp(v.x as int, v.z as int))
    &&& (s.radius != 0 ==> exists|h: int|
        #[trigger] is_sqrt_of(v.x * v.x + v.z * v.z, h) && s.phi == spec_atan2_fp(h, v.y as int))
    &&& 0 <= s.phi <= PI_FP
    &&& -PI_FP <= s.theta <= PI_FP
    &&& (v.y == 0 && s.radius != 0 ==> s.phi == HALF_PI_FP)
    &&& (v.x == 0 && v.z > 0 ==> s.theta == 0)
}

/// The x-component of the Cartesian offset a spherical value stands for.
pub open spec fn spec_off_x(s: Spherical) -> int {
    spec_mul_fp(spec_mul_fp(s.radius as int, spec_sin_fp(s.phi as int)), spec_sin_fp(s.theta as int))
}

/// The y-component of the Cartesian offset a spherical value stands for.
pub open spec fn spec_off_y(s: Spherical) -> int {
    spec_mul_fp(s.radius as int, spec_cos_fp(s.phi as int))
}

/// The z-component of the Cartesian offset a spherical value stands for.
pub open spec fn spec_off_z(s: Spherical) -> int {
    spec_mul_fp(spec_mul_fp(s.radius as int, spec_sin_fp(s.phi as int)), spec_cos_fp(s.theta as int))
}

/// The degenerate direction of the Cartesian round trip: a zero radius
/// converts back to exactly the zero offset, whatever its angles, just as a
/// zero-length offset converts to the all-zero spherical value.
pub proof fn lemma_zero_radius_round_trip(s: Spherical)
    requires
        s.radius == 0,
    ensures
        spec_off_x(s) == 0,
        spec_off_y(s) == 0,
        spec_off_z(s) == 0,
{
    crate::fix::lemma_mul_fp_zero(spec_sin_fp(s.phi as int));
    crate::fix::lemma_mul_fp_zero(spec_cos_fp(s.phi as int));
    crate::fix::lemma_mul_fp_zero(spec_sin_fp(s.theta as int));
    crate::fix::lemma_mul_fp_zero(spec_cos_fp(s.theta as int));
}

impl Spherical {
    /// The bounds every stored spherical value keeps.
    pub open spec fn wf(self) -> bool {
        &&& 0 <= self.radius <= COORD_MAX
        &&& -ANGLE_MAX <= self.phi <= ANGLE_MAX
        &&& -ANGLE_MAX <= self.theta <= ANGLE_MAX
    }

    /// A unit radius pointing at the pole: the committed state before any
    /// frame has run.
    pub fn new() -> (s: Spherical)
        ensures
            s == (Spherical { radius: ONE, phi: 0, theta: 0 }),
            s.wf(),
    {
        Spherical { radius: ONE, phi: 0, theta: 0 }
    }

    /// Clamp `phi` away from the poles so the up-axis cannot invert.
    pub fn make_safe(&mut self)
        ensures
            final (self).phi == spec_clamp(old(self).phi as int, EPS_FP as int, PI_FP - EPS_FP),
            final (self).radius == old(self).radius,
            final (self).theta == old(self).theta,
            EPS_FP <= final (self).phi <= PI_FP - EPS_FP,
    {
        self.phi = clamp_i64(self.phi, EPS_FP, PI_FP - EPS_FP);
    }

    /// Convert a Cartesian offset to spherical coordinates.  A zero-length
    /// offset yields zero angles rather than a degenerate division.
    #[verifier::rlimit(30)]
    pub fn from_offset(v: Vec3Fp) -> (s: Spherical)
        requires
            -COORD_MAX <= v.x <= COORD_MAX,
            -COORD_MAX <= v.y <= COORD_MAX,
            -COORD_MAX <= v.z <= COORD_MAX,
        ensures
            from_offset_rel(v, s),
    {
        proof {
            assert(v.x * v.x <= 2_250_000_000_000_000_000 && v.x * v.x >= 0) by (nonlinear_arith)
                requires
                    -COORD_MAX <= v.x <= COORD_MAX,
            ;
            assert(v.y * v.y <= 2_250_000_000_000_000_000 && v.y * v.y >= 0) by (nonlinear_arith)
                requires
                    -COORD_MAX <= v.y <= COORD_MAX,
            ;
            assert(v.z * v.z <= 2_250_000_000_000_000_000 && v.z * v.z >= 0) by (nonlinear_arith)
                requires
                    -COORD_MAX <= v.z <= COORD_MAX,
            ;
        }
        let xx: i64 = v.x * v.x;
        let yy: i64 = v.y * v.y;
        let zz: i64 = v.z * v.z;
        let radius: i64 = isqrt_u64((xx + yy + zz) as u64) as i64;
        if radius == 0 {
            proof {
                // A zero integer root puts the squared length below one,
                // which over the integers forces every component to zero.
                assert(v.x * v.x + v.y * v.y + v.z * v.z < (0 + 1) * (0 + 1));
                assert(v.x * v.x + v.y * v.y + v.z * v.z < 1) by (nonlinear_arith)
                    requires
                        v.x * v.x + v.y * v.y + v.z * v.z < (0 + 1) * (0 + 1),
                ;
                assert(v.x == 0 && v.y == 0 && v.z == 0) by (nonlinear_arith)
                    requires
                        v.x * v.x + v.y * v.y + v.z * v.z < 1,
                ;
            }
            let s = Spherical { radius: 0, phi: 0, theta: 0 };
            proof {
                assert(from_offset_rel(v, s));
            }
            s
        } else {
            proof {
                assert(radius <= 2_600_000_000) by (nonlinear_arith)
                    requires
                        0 <= radius,
                        (radius as int) * (radius as int) <= 6_750_000_000_000_000_000,
                ;
                if v.x == 0 && v.y == 0 && v.z == 0 {
                    assert((radius as int) * (radius as int) <= 0 ==> radius == 0)
                        by (nonlinear_arith);
                }
            }
            let theta: i64 = atan2_fp(v.x, v.z);
            let hh0: u64 = isqrt_u64((xx + zz) as u64);
            proof {
                assert(hh0 <= 2_200_000_000) by (nonlinear_arith)
                    requires
                        0 <= hh0,
                        (hh0 as int) * (hh0 as int) <= 4_500_000_000_000_000_000,
                ;
            }
            let hh: i64 = hh0 as i64;
            let phi: i64 = atan2_fp(hh, v.y);
            proof {
                assert(is_sqrt_of(v.x * v.x + v.z * v.z, hh as int));
                if v.y == 0 {
                    assert((radius as int) * (radius as int) >= 1) by (nonlinear_arith)
                        requires
                            radius >= 1,
                    ;
                    assert(v.y * v.y == 0) by (nonlinear_arith)
                        requires
                            v.y == 0i64,
                    ;
                    assert(v.x * v.x + v.z * v.z >= 1);
                    assert(hh >= 1) by (nonlinear_arith)
                        requires
                            is_sqrt_of(v.x * v.x + v.z * v.z, hh as int),
                            v.x * v.x + v.z * v.z >= 1,
                            hh >= 0,
                    ;
                }
            }
            let s = Spherical { radius, phi, theta };
            proof {
                assert(from_offset_rel(v, s));
            }
            s
        }
    }

    /// Convert back to a Cartesian offset: the standard spherical
    /// decomposition `radius * (sin phi sin theta, cos phi, sin phi cos
    /// theta)`.
    pub fn to_offset(&self) -> (v: Vec3Fp)
        requires
            self.wf(),
        ensures
            v.x == spec_off_x(*self),
            v.y == spec_off_y(*self),
            v.z == spec_off_z(*self),
            -self.radius <= v.x <= self.radius,
            -self.radius <= v.y <= self.radius,
            -self.radius <= v.z <= self.radius,
    {
        let sp: i64 = sin_fp(self.phi);
        let cp: i64 = cos_fp(self.phi);
        let st: i64 = sin_fp(self.theta);
        let ct: i64 = cos_fp(self.theta);
        let rs: i64 = mul_fp(self.radius, sp);
        proof {
            lemma_mul_fp_contract(self.radius as int, sp as int);
            lemma_mul_fp_contract(rs as int, st as int);
            lemma_mul_fp_contract(rs as int, ct as int);
            lemma_mul_fp_contract(self.radius as int, cp as int);
        }
        Vec3Fp { x: mul_fp(rs, st), y: mul_fp(self.radius, cp), z: mul_fp(rs, ct) }
    }

    /// Overwrite this value from a setter, converting Cartesian forms.
    pub fn set(&mut self, input: SphericalSetter)
        requires
            match input {
                SphericalSetter::Vector(v) => -COORD_MAX <= v.x <= COORD_MAX && -COORD_MAX <= v.y
                    <= COORD_MAX && -COORD_MAX <= v.z <= COORD_MAX,
                SphericalSetter::Values(radius, phi, theta) => 0 <= radius <= COORD_MAX
                    && -ANGLE_MAX <= phi <= ANGLE_MAX && -ANGLE_MAX <= theta <= ANGLE_MAX,
                SphericalSetter::CartesianCoords(x, y, z) => -COORD_MAX <= x <= COORD_MAX
                    && -COORD_MAX <= y <= COORD_MAX && -COORD_MAX <= z <= COORD_MAX,
            },
        ensures
            match input {
                SphericalSetter::Vector(v) => from_offset_rel(v, *final (self)),
                SphericalSetter::Values(radius, phi, theta) => *final (self) == (Spherical {
                    radius,
                    phi,
                    theta,
                }),
                SphericalSetter::CartesianCoords(x, y, z) => from_offset_rel(
                    Vec3Fp { x, y, z },
                    *final (self),
                ),
            },
    {
        match input {
            SphericalSetter::Vector(v) => {
                *self = Spherical::from_offset(v);
            },
            SphericalSetter::Values(radius, phi, theta) => {
                self.radius = radius;
                self.phi = phi;
                self.theta = theta;
            },
            SphericalSetter::CartesianCoords(x, y, z) => {
                *self = Spherical::from_offset(Vec3Fp { x, y, z });
            },
        }
    }
}

} // verus!
