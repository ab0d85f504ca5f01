//! Fixed-point scalars.
//!
//! Every scalar of the library is an `i64` counting micro-units: `ONE`
//! (1_000_000) stands for `1.0`.  Angles are micro-radians.  Products and
//! quotients round toward zero, as the intermediate unsigned arithmetic does.

use vstd::arithmetic::div_mod::{
    lemma_div_by_multiple, lemma_div_is_ordered, lemma_div_nonincreasing, lemma_div_pos_is_pos,
};
use vstd::math::abs;
use vstd::prelude::*;

verus! {

/// One whole unit (1.0) in fixed-point micro-units.
pub const ONE: i64 = 1_000_000;

/// The angle pi in micro-radians, rounded to the nearest micro-radian.
pub const PI_FP: i64 = 3_141_593;

/// The angle pi/2 in micro-radians.
pub const HALF_PI_FP: i64 = 1_570_796;

/// The angle pi/4 in micro-radians.
pub const QUARTER_PI_FP: i64 = 785_398;

/// The angle 2*pi in micro-radians.
pub const TWO_PI_FP: i64 = 6_283_185;

/// The polar-angle safety margin keeping the up-vector non-degenerate.
pub const EPS_FP: i64 = 1;

/// Largest magnitude of a Cartesian offset component or a radius.
pub const COORD_MAX: i64 = 1_500_000_000;

/// Largest magnitude of a world position or target component.
pub const POS_MAX: i64 = 750_000_000;

/// Largest magnitude of a stored angle or angular delta.
pub const ANGLE_MAX: i64 = 1_000_000_000;

/// Largest value of a multiplicative zoom/dolly accumulator.
pub const SCALE_MAX: i64 = 1_000_000_000;

/// Largest value of a viewpoint zoom.
pub const ZOOM_MAX: i64 = 1_000_000_000;

/// Largest magnitude accepted by `mul_fp` and `div_fp` operands.
pub const MUL_IN: i64 = 3_000_000_000;

/// Degrees per radian (`180 / pi`) in micro-units.
pub const DEG_PER_RAD_FP: i64 = 57_295_780;

/// `v` clamped into `[lo, hi]`; when `lo > hi` the lower bound wins,
/// collapsing the range to `lo`.
pub open spec fn spec_clamp(v: int, lo: int, hi: int) -> int {
    vstd::math::max(lo, vstd::math::min(hi, v))
}

/// The fixed-point product `a * b / ONE`, rounded toward zero.
pub open spec fn spec_mul_fp(a: int, b: int) -> int {
    let p = (abs(a) * abs(b)) as int / (ONE as int);
    if (a < 0) != (b < 0) {
        -p
    } else {
        p
    }
}

/// The fixed-point quotient `a * ONE / b` for `a >= 0, b > 0`.
pub open spec fn spec_div_fp(a: int, b: int) -> int {
    (a * (ONE as int)) / b
}

/// Clamp a scalar into `[lo, hi]`, lower bound winning on an inverted range.
pub fn clamp_i64(v: i64, lo: i64, hi: i64) -> (r: i64)
    ensures
        r == spec_clamp(v as int, lo as int, hi as int),
{
    let m: i64 = if v < hi {
        v
    } else {
        hi
    };
    if m < lo {
        lo
    } else {
        m
    }
}

/// Add two scalars, then clamp the exact sum into `[lo, hi]`.
pub fn add_clamped(a: i64, b: i64, lo: i64, hi: i64) -> (r: i64)
    requires
        -2_000_000_000_000_000_000 <= a <= 2_000_000_000_000_000_000,
        -2_000_000_000_000_000_000 <= b <= 2_000_000_000_000_000_000,
    ensures
        r == spec_clamp(a + b, lo as int, hi as int),
{
    clamp_i64(a + b, lo, hi)
}

/// Fixed-point multiplication: `a * b / ONE`, rounded toward zero.
pub fn mul_fp(a: i64, b: i64) -> (r: i64)
    requires
        -MUL_IN <= a <= MUL_IN,
        -MUL_IN <= b <= MUL_IN,
    ensures
        r == spec_mul_fp(a as int, b as int),
        -9_000_000_000_000 <= r <= 9_000_000_000_000,
        a >= 0 && b >= 0 ==> r >= 0,
        a >= 0 && b <= 0 ==> r <= 0,
        a <= 0 && b >= 0 ==> r <= 0,
{
    let ua: u64 = if a >= 0 {
        a as u64
    } else {
        (-a) as u64
    };
    let ub: u64 = if b >= 0 {
        b as u64
    } else {
        (-b) as u64
    };
    proof {
        assert(ua == abs(a as int));
        assert(ub == abs(b as int));
        assert((ua as int) * (ub as int) <= 9_000_000_000_000_000_000) by (nonlinear_arith)
            requires
                ua <= 3_000_000_000,
                ub <= 3_000_000_000,
        ;
    }
    let p: u128 = (ua as u128) * (ub as u128);
    let q: u128 = p / 1_000_000u128;
    proof {
        lemma_div_nonincreasing(p as int, 1_000_000);
        lemma_div_pos_is_pos(p as int, 1_000_000);
    }
    let qi: i64 = q as i64;
    proof {
        if ua == 0 || ub == 0 {
            assert((ua as int) * (ub as int) == 0) by (nonlinear_arith)
                requires
                    ua == 0 || ub == 0,
            ;
        }
    }
    if (a < 0) != (b < 0) {
        -qi
    } else {
        qi
    }
}

/// Fixed-point division: `a * ONE / b`, for a non-negative numerator and a
/// positive denominator.
pub fn div_fp(a: i64, b: i64) -> (r: i64)
    requires
        0 <= a <= MUL_IN,
        0 < b,
    ensures
        r == spec_div_fp(a as int, b as int),
        0 <= r <= a * (ONE as int),
{
    let ua: u64 = a as u64;
    let ub: u64 = b as u64;
    let p: u64 = ua * 1_000_000;
    let q: u64 = p / ub;
    proof {
        lemma_div_nonincreasing(p as int, ub as int);
        lemma_div_pos_is_pos(p as int, ub as int);
    }
    q as i64
}

/// Division of a non-negative scalar by a positive one, as the integers do.
pub fn div_u(a: i64, b: i64) -> (r: i64)
    requires
        0 <= a,
        0 < b,
    ensures
        r == a as int / b as int,
        0 <= r <= a,
{
    let q: u64 = (a as u64) / (b as u64);
    proof {
        lemma_div_nonincreasing(a as int, b as int);
        lemma_div_pos_is_pos(a as int, b as int);
    }
    q as i64
}

/// Signed division rounded toward zero (the quotient of the magnitudes,
/// with the dividend's sign).
pub open spec fn spec_div_trunc(a: int, b: int) -> int {
    let q = (abs(a) as int) / b;
    if a < 0 {
        -q
    } else {
        q
    }
}

/// Divide a signed scalar by a positive one, rounding toward zero.
pub fn div_trunc(a: i64, b: i64) -> (r: i64)
    requires
        -9_000_000_000_000_000_000 <= a <= 9_000_000_000_000_000_000,
        0 < b,
    ensures
        r == spec_div_trunc(a as int, b as int),
        -abs(a as int) <= r <= abs(a as int),
{
    let ua: u64 = if a >= 0 {
        a as u64
    } else {
        (-a) as u64
    };
    let q: u64 = ua / (b as u64);
    proof {
        lemma_div_nonincreasing(ua as int, b as int);
        lemma_div_pos_is_pos(ua as int, b as int);
    }
    let qi: i64 = q as i64;
    if a < 0 {
        -qi
    } else {
        qi
    }
}

/// The `n`-th fixed-point power of `base`.
pub open spec fn spec_pow_fp(base: int, n: nat) -> int
    decreases n,
{
    if n == 0 {
        ONE as int
    } else {
        spec_mul_fp(spec_pow_fp(base, (n - 1) as nat), base)
    }
}

/// Raise a factor in `[0, ONE]` to a bounded whole power.
pub fn pow_fp(base: i64, n: u64) -> (r: i64)
    requires
        0 <= base <= ONE,
        n <= 512,
    ensures
        r == spec_pow_fp(base as int, n as nat),
        0 <= r <= ONE,
{
    let mut acc: i64 = ONE;
    let mut i: u64 = 0;
    while i < n
        invariant
            0 <= i <= n <= 512,
            0 <= base <= ONE,
            acc == spec_pow_fp(base as int, i as nat),
            0 <= acc <= ONE,
        decreases n - i,
    {
        proof {
            lemma_mul_fp_unit_factor(acc as int, base as int);
        }
        acc = mul_fp(acc, base);
        i = i + 1;
    }
    acc
}

/// A power of a factor in `[0, ONE]` stays in `[0, ONE]`.
pub proof fn lemma_pow_fp_range(base: int, n: nat)
    requires
        0 <= base <= ONE,
    ensures
        0 <= spec_pow_fp(base, n) <= ONE,
    decreases n,
{
    if n != 0 {
        lemma_pow_fp_range(base, (n - 1) as nat);
        lemma_mul_fp_unit_factor(spec_pow_fp(base, (n - 1) as nat), base);
    }
}

/// Bounds on the factors bound the fixed-point product.
pub proof fn lemma_mul_fp_bound(a: int, b: int, ba: int, bb: int)
    requires
        abs(a) <= ba,
        abs(b) <= bb,
    ensures
        -((ba * bb) / (ONE as int)) <= spec_mul_fp(a, b) <= (ba * bb) / (ONE as int),
{
    assert(abs(a) * abs(b) <= ba * bb) by (nonlinear_arith)
        requires
            abs(a) <= ba,
            abs(b) <= bb,
    ;
    lemma_div_is_ordered((abs(a) * abs(b)) as int, ba * bb, ONE as int);
    lemma_div_pos_is_pos((abs(a) * abs(b)) as int, ONE as int);
}

/// A factor in `[0, ONE]` scales a value toward zero without crossing it.
pub proof fn lemma_mul_fp_unit_factor(a: int, f: int)
    requires
        0 <= f <= ONE,
    ensures
        a >= 0 ==> 0 <= spec_mul_fp(a, f) <= a,
        a <= 0 ==> a <= spec_mul_fp(a, f) <= 0,
{
    let n = (abs(a) * abs(f)) as int;
    assert(abs(a) * abs(f) <= abs(a) * (ONE as nat)) by (nonlinear_arith)
        requires
            abs(f) <= ONE as nat,
    ;
    lemma_div_is_ordered(n, (abs(a) * (ONE as nat)) as int, ONE as int);
    lemma_div_by_multiple(abs(a) as int, ONE as int);
    lemma_div_pos_is_pos(n, ONE as int);
}

/// A factor of magnitude at most `ONE` cannot grow a value's magnitude.
pub proof fn lemma_mul_fp_contract(a: int, f: int)
    requires
        -ONE <= f <= ONE,
    ensures
        -(abs(a) as int) <= spec_mul_fp(a, f) <= abs(a) as int,
{
    lemma_mul_fp_bound(a, f, abs(a) as int, ONE as int);
    lemma_div_by_multiple(abs(a) as int, ONE as int);
}

/// Scaling by zero gives zero.
pub proof fn lemma_mul_fp_zero(a: int)
    ensures
        spec_mul_fp(a, 0) == 0,
        spec_mul_fp(0, a) == 0,
{
    assert(abs(a) * abs(0) == 0) by (nonlinear_arith);
    assert(abs(0) * abs(a) == 0) by (nonlinear_arith);
    vstd::arithmetic::div_mod::lemma_div_of0(ONE as int);
}

} // verus!
