//! Fixed-point 2- and 3-component vectors.

use crate::fix::{add_clamped, mul_fp, spec_clamp, spec_mul_fp, MUL_IN};
use vstd::prelude::*;

verus! {

/// A 3-component vector of fixed-point scalars.
#[derive(Clone, Copy, PartialEq, Eq, Structural, Debug)]
pub struct Vec3Fp {
    pub x: i64,
    pub y: i64,
    pub z: i64,
}

/// A 2-component vector of fixed-point scalars (screen points, in
/// micro-pixels).
#[derive(Clone, Copy, PartialEq, Eq, Structural, Debug)]
pub struct Vec2Fp {
    pub x: i64,
    pub y: i64,
}

impl Vec3Fp {
    /// The zero vector.
    pub fn zero() -> (r: Vec3Fp)
        ensures
            r == (Vec3Fp { x: 0, y: 0, z: 0 }),
    {
        Vec3Fp { x: 0, y: 0, z: 0 }
    }

    /// Componentwise difference.
    pub fn minus(self, o: Vec3Fp) -> (r: Vec3Fp)
        requires
            -1_000_000_000_000 <= self.x <= 1_000_000_000_000,
            -1_000_000_000_000 <= self.y <= 1_000_000_000_000,
            -1_000_000_000_000 <= self.z <= 1_000_000_000_000,
            -1_000_000_000_000 <= o.x <= 1_000_000_000_000,
            -1_000_000_000_000 <= o.y <= 1_000_000_000_000,
            -1_000_000_000_000 <= o.z <= 1_000_000_000_000,
        ensures
            r.x == self.x - o.x,
            r.y == self.y - o.y,
            r.z == self.z - o.z,
    {
        Vec3Fp { x: self.x - o.x, y: self.y - o.y, z: self.z - o.z }
    }

    /// Componentwise sum, each component clamped into `[lo, hi]`.
    pub fn plus_clamped(self, o: Vec3Fp, lo: i64, hi: i64) -> (r: Vec3Fp)
        requires
            -1_000_000_000_000 <= self.x <= 1_000_000_000_000,
            -1_000_000_000_000 <= self.y <= 1_000_000_000_000,
            -1_000_000_000_000 <= self.z <= 1_000_000_000_000,
            -1_000_000_000_000 <= o.x <= 1_000_000_000_000,
            -1_000_000_000_000 <= o.y <= 1_000_000_000_000,
            -1_000_000_000_000 <= o.z <= 1_000_000_000_000,
        ensures
            r.x == spec_clamp(self.x + o.x, lo as int, hi as int),
            r.y == spec_clamp(self.y + o.y, lo as int, hi as int),
            r.z == spec_clamp(self.z + o.z, lo as int, hi as int),
    {
        Vec3Fp {
            x: add_clamped(self.x, o.x, lo, hi),
            y: add_clamped(self.y, o.y, lo, hi),
            z: add_clamped(self.z, o.z, lo, hi),
        }
    }

    /// Componentwise fixed-point scaling.
    pub fn times_fp(self, f: i64) -> (r: Vec3Fp)
        requires
            -MUL_IN <= self.x <= MUL_IN,
            -MUL_IN <= self.y <= MUL_IN,
            -MUL_IN <= self.z <= MUL_IN,
            -MUL_IN <= f <= MUL_IN,
        ensures
            r.x == spec_mul_fp(self.x as int, f as int),
            r.y == spec_mul_fp(self.y as int, f as int),
            r.z == spec_mul_fp(self.z as int, f as int),
    {
        Vec3Fp { x: mul_fp(self.x, f), y: mul_fp(self.y, f), z: mul_fp(self.z, f) }
    }
}

impl Vec2Fp {
    /// The zero vector.
    pub fn zero() -> (r: Vec2Fp)
        ensures
            r == (Vec2Fp { x: 0, y: 0 }),
    {
        Vec2Fp { x: 0, y: 0 }
    }

    /// Componentwise difference.
    pub fn minus(self, o: Vec2Fp) -> (r: Vec2Fp)
        requires
            -1_000_000_000_000 <= self.x <= 1_000_000_000_000,
            -1_000_000_000_000 <= self.y <= 1_000_000_000_000,
            -1_000_000_000_000 <= o.x <= 1_000_000_000_000,
            -1_000_000_000_000 <= o.y <= 1_000_000_000_000,
        ensures
            r.x == self.x - o.x,
            r.y == self.y - o.y,
    {
        Vec2Fp { x: self.x - o.x, y: self.y - o.y }
    }
}

} // verus!
