//! An orbit-style camera controller over fixed-point arithmetic.
//!
//! A target point is orbited by a viewpoint whose offset from the target is
//! kept in spherical coordinates (radius, polar angle, azimuth).  Gesture
//! deltas (rotate, pan, dolly), optional damping and auto-rotation advance
//! that representation once per rendered frame.
//!
//! All scalars are fixed-point: an `i64` counts micro-units, so `1_000_000`
//! stands for `1.0` (one world unit, or one radian for angles).

pub mod camera;
pub mod fix;
pub mod orbital;
pub mod orthographic;
pub mod perspective;
pub mod spherical;
pub mod trig;
pub mod vec;
