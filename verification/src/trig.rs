//! Integer square root and fixed-point trigonometric approximations.
//!
//! The polynomials below approximate the transcendental functions; their
//! contracts therefore pin the exact integer value computed (through the
//! mirrored spec functions) rather than a real-analysis error bound.

use crate::fix::{
    clamp_i64, div_fp, div_u, mul_fp, spec_clamp, spec_div_fp, spec_mul_fp, HALF_PI_FP, ONE, PI_FP,
    QUARTER_PI_FP, TWO_PI_FP,
};
use vstd::arithmetic::div_mod::{
    lemma_div_is_ordered, lemma_div_is_ordered_by_denominator, lemma_mod_add_multiples_vanish,
    lemma_mod_sub_multiples_vanish, lemma_small_mod,
};
use vstd::prelude::*;

verus! {

/// `r` is the integer square root of `n`: the largest integer whose square
/// does not exceed `n`.
pub open spec fn is_sqrt_of(n: int, r: int) -> bool {
    &&& 0 <= r
    &&& r * r <= n
    &&& n < (r + 1) * (r + 1)
}

/// The integer square root is unique: a contract that states `is_sqrt_of`
/// pins its result to a single value.
pub proof fn lemma_sqrt_unique(n: int, r1: int, r2: int)
    requires
        is_sqrt_of(n, r1),
        is_sqrt_of(n, r2),
    ensures
        r1 == r2,
{
    if r1 < r2 {
        assert((r1 + 1) * (r1 + 1) <= r2 * r2) by (nonlinear_arith)
            requires
                0 <= r1,
                r1 < r2,
        ;
    }
    if r2 < r1 {
        assert((r2 + 1) * (r2 + 1) <= r1 * r1) by (nonlinear_arith)
            requires
                0 <= r2,
                r2 < r1,
        ;
    }
}

/// Integer square root by bisection.
pub fn isqrt_u64(n: u64) -> (r: u64)
    requires
        n <= 9_300_000_000_000_000_000,
    ensures
        is_sqrt_of(n as int, r as int),
        r < 3_100_000_000,
{
    let mut lo: u64 = 0;
    let mut hi: u64 = 3_100_000_000;
    proof {
        assert((hi as int) * (hi as int) > n as int) by (nonlinear_arith)
            requires
                hi == 3_100_000_000u64,
                n <= 9_300_000_000_000_000_000,
        ;
    }
    while lo + 1 < hi
        invariant
            lo < hi <= 3_100_000_000,
            (lo as int) * (lo as int) <= n as int,
            (hi as int) * (hi as int) > n as int,
        decreases hi - lo,
    {
        let mid: u64 = lo + (hi - lo) / 2;
        proof {
            assert((mid as int) * (mid as int) <= 9_610_000_000_000_000_000) by (nonlinear_arith)
                requires
                    mid <= 3_100_000_000u64,
            ;
        }
        if mid * mid <= n {
            lo = mid;
        } else {
            hi = mid;
        }
    }
    lo
}

/// `x` reduced into `[0, TWO_PI_FP)`: the Euclidean remainder modulo a turn.
pub fn reduce_angle(x: i64) -> (r: i64)
    requires
        -4_300_000_000 <= x <= 4_300_000_000,
    ensures
        0 <= r < TWO_PI_FP,
        r as int == (x as int) % (TWO_PI_FP as int),
{
    let mut cur: i64 = x;
    while cur < 0
        invariant
            -4_300_000_000 <= cur <= 4_300_000_000,
            (cur as int) % (TWO_PI_FP as int) == (x as int) % (TWO_PI_FP as int),
        decreases 4_300_000_000 - cur,
    {
        proof {
            lemma_mod_add_multiples_vanish(cur as int, TWO_PI_FP as int);
        }
        cur = cur + TWO_PI_FP;
    }
    while cur >= TWO_PI_FP
        invariant
            0 <= cur <= 4_300_000_000,
            (cur as int) % (TWO_PI_FP as int) == (x as int) % (TWO_PI_FP as int),
        decreases cur,
    {
        proof {
            lemma_mod_sub_multiples_vanish(cur as int, TWO_PI_FP as int);
        }
        cur = cur - TWO_PI_FP;
    }
    proof {
        lemma_small_mod(cur as nat, TWO_PI_FP as nat);
    }
    cur
}

/// The sine polynomial on a first-quadrant angle, clamped into `[0, ONE]`.
pub open spec fn spec_sin_poly(t: int) -> int {
    let t2 = spec_mul_fp(t, t);
    let t3 = spec_mul_fp(t2, t);
    let t5 = spec_mul_fp(t3, t2);
    let t7 = spec_mul_fp(t5, t2);
    spec_clamp(t - t3 / 6 + t5 / 120 - t7 / 5040, 0, ONE as int)
}

/// Sine of any angle, through reduction into `[0, TWO_PI_FP)` and quadrant
/// folding of `spec_sin_poly`; the quarter-turn points are exact.
pub open spec fn spec_sin_fp(x: int) -> int {
    let r0 = x % (TWO_PI_FP as int);
    if r0 == HALF_PI_FP {
        ONE as int
    } else if r0 == PI_FP + HALF_PI_FP {
        -ONE as int
    } else if r0 <= HALF_PI_FP {
        spec_sin_poly(r0)
    } else if r0 <= PI_FP {
        spec_sin_poly(PI_FP - r0)
    } else if r0 <= PI_FP + HALF_PI_FP {
        -spec_sin_poly(r0 - PI_FP)
    } else {
        -spec_sin_poly(TWO_PI_FP - r0)
    }
}

/// Cosine as the sine of the angle shifted by a quarter turn.
pub open spec fn spec_cos_fp(x: int) -> int {
    spec_sin_fp(x + HALF_PI_FP)
}

fn sin_poly(t: i64) -> (r: i64)
    requires
        0 <= t <= 1_600_000,
    ensures
        r == spec_sin_poly(t as int),
        0 <= r <= ONE,
{
    let t2: i64 = mul_fp(t, t);
    proof {
        crate::fix::lemma_mul_fp_bound(t as int, t as int, 1_600_000, 1_600_000);
    }
    let t3: i64 = mul_fp(t2, t);
    proof {
        crate::fix::lemma_mul_fp_bound(t2 as int, t as int, 2_560_000, 1_600_000);
    }
    let t5: i64 = mul_fp(t3, t2);
    proof {
        crate::fix::lemma_mul_fp_bound(t3 as int, t2 as int, 4_096_000, 2_560_000);
    }
    let t7: i64 = mul_fp(t5, t2);
    let d3: i64 = div_u(t3, 6);
    let d5: i64 = div_u(t5, 120);
    let d7: i64 = div_u(t7, 5040);
    clamp_i64(t - d3 + d5 - d7, 0, ONE)
}

/// Fixed-point sine of an angle in micro-radians.
pub fn sin_fp(x: i64) -> (r: i64)
    requires
        -4_300_000_000 <= x <= 4_300_000_000,
    ensures
        r == spec_sin_fp(x as int),
        -ONE <= r <= ONE,
{
    let r0: i64 = reduce_angle(x);
    if r0 == HALF_PI_FP {
        ONE
    } else if r0 == PI_FP + HALF_PI_FP {
        -ONE
    } else if r0 <= HALF_PI_FP {
        sin_poly(r0)
    } else if r0 <= PI_FP {
        sin_poly(PI_FP - r0)
    } else if r0 <= PI_FP + HALF_PI_FP {
        -sin_poly(r0 - PI_FP)
    } else {
        -sin_poly(TWO_PI_FP - r0)
    }
}

/// Fixed-point cosine of an angle in micro-radians.
pub fn cos_fp(x: i64) -> (r: i64)
    requires
        -4_200_000_000 <= x <= 4_200_000_000,
    ensures
        r == spec_cos_fp(x as int),
        -ONE <= r <= ONE,
{
    sin_fp(x + HALF_PI_FP)
}

/// The arctangent polynomial on a small ratio (at most `tan(pi/8)`).
pub open spec fn spec_atan_small(v: int) -> int {
    let v2 = spec_mul_fp(v, v);
    let v3 = spec_mul_fp(v2, v);
    let v5 = spec_mul_fp(v3, v2);
    let v7 = spec_mul_fp(v5, v2);
    v - v3 / 3 + v5 / 5 - v7 / 7
}

fn atan_small(v: i64) -> (r: i64)
    requires
        0 <= v <= 420_000,
    ensures
        r == spec_atan_small(v as int),
        0 <= r <= 435_000,
        v == 0 ==> r == 0,
{
    let v2: i64 = mul_fp(v, v);
    proof {
        crate::fix::lemma_mul_fp_bound(v as int, v as int, 420_000, 420_000);
    }
    let v3: i64 = mul_fp(v2, v);
    proof {
        crate::fix::lemma_mul_fp_bound(v2 as int, v as int, 176_400, 420_000);
    }
    let v5: i64 = mul_fp(v3, v2);
    proof {
        crate::fix::lemma_mul_fp_bound(v3 as int, v2 as int, 74_088, 176_400);
    }
    let v7: i64 = mul_fp(v5, v2);
    let d3: i64 = div_u(v3, 3);
    let d5: i64 = div_u(v5, 5);
    let d7: i64 = div_u(v7, 7);
    proof {
        // v2 is at most 0.1764, so each further factor shrinks the term.
        crate::fix::lemma_mul_fp_unit_factor(v as int, v2 as int);
        crate::fix::lemma_mul_fp_unit_factor(v3 as int, v2 as int);
        crate::fix::lemma_mul_fp_unit_factor(v5 as int, v2 as int);
        assert(spec_mul_fp(v2 as int, v as int) == spec_mul_fp(v as int, v2 as int));
        lemma_div_is_ordered(v7 as int, v5 as int, 7);
        lemma_div_is_ordered_by_denominator(v5 as int, 5, 7);
        lemma_div_is_ordered(v5 as int, 176_400, 5);
    }
    v - d3 + d5 - d7
}

/// Arctangent of a ratio in `[0, ONE]`, folding large ratios through
/// `atan(t) = pi/4 + atan((t - 1) / (t + 1))`.
pub open spec fn spec_atan_unit(t: int) -> int {
    if t <= 414_213 {
        spec_atan_small(t)
    } else {
        QUARTER_PI_FP - spec_atan_small(spec_div_fp((ONE - t) as int, (ONE + t) as int))
    }
}

fn atan_unit(t: i64) -> (r: i64)
    requires
        0 <= t <= ONE,
    ensures
        r == spec_atan_unit(t as int),
        0 <= r <= QUARTER_PI_FP,
        t == 0 ==> r == 0,
{
    if t <= 414_213 {
        atan_small(t)
    } else {
        let w: i64 = div_fp(ONE - t, ONE + t);
        proof {
            lemma_div_is_ordered((ONE - t) * (ONE as int), 585_786_000_000, (ONE + t) as int);
            lemma_div_is_ordered_by_denominator(585_786_000_000, 1_414_214, (ONE + t) as int);
        }
        QUARTER_PI_FP - atan_small(w)
    }
}

/// Arctangent of any non-negative ratio, folding ratios above `ONE`
/// through `atan(t) = pi/2 - atan(1/t)`.
pub open spec fn spec_atan_fp(t: int) -> int {
    if t <= ONE {
        spec_atan_unit(t)
    } else {
        HALF_PI_FP - spec_atan_unit(spec_div_fp(ONE as int, t))
    }
}

/// Fixed-point arctangent of a non-negative ratio, in `[0, HALF_PI_FP]`.
pub fn atan_fp(t: i64) -> (r: i64)
    requires
        0 <= t <= crate::fix::MUL_IN,
    ensures
        r == spec_atan_fp(t as int),
        0 <= r <= HALF_PI_FP,
{
    if t <= ONE {
        atan_unit(t)
    } else {
        proof {
            lemma_div_is_ordered((ONE as int) * (ONE as int), 1_000_000_000_000, t as int);
            lemma_div_is_ordered_by_denominator(1_000_000_000_000, 1_000_001, t as int);
        }
        let w: i64 = div_fp(ONE, t);
        HALF_PI_FP - atan_unit(w)
    }
}

/// The quadrant-folded arctangent of `y / x`, in `(-PI_FP, PI_FP]`.
pub open spec fn spec_atan2_fp(y: int, x: int) -> int {
    let ay = vstd::math::abs(y) as int;
    let ax = vstd::math::abs(x) as int;
    let a1 = if ay <= ax {
        if ax == 0 {
            0
        } else {
            spec_atan_unit(spec_div_fp(ay, ax))
        }
    } else {
        HALF_PI_FP - spec_atan_unit(spec_div_fp(ax, ay))
    };
    let a2 = if x >= 0 {
        a1
    } else {
        PI_FP - a1
    };
    if y < 0 {
        -a2
    } else {
        a2
    }
}

/// Fixed-point two-argument arctangent: the angle of the point `(x, y)`.
pub fn atan2_fp(y: i64, x: i64) -> (r: i64)
    requires
        -crate::fix::MUL_IN <= y <= crate::fix::MUL_IN,
        -crate::fix::MUL_IN <= x <= crate::fix::MUL_IN,
    ensures
        r == spec_atan2_fp(y as int, x as int),
        -PI_FP <= r <= PI_FP,
        y == 0 && x >= 0 ==> r == 0,
        y == 0 && x < 0 ==> r == PI_FP,
        x == 0 && y > 0 ==> r == HALF_PI_FP,
        x == 0 && y < 0 ==> r == -HALF_PI_FP,
        y >= 0 ==> 0 <= r <= PI_FP,
        y < 0 ==> -PI_FP <= r <= 0,
{
    let ay: i64 = if y >= 0 {
        y
    } else {
        -y
    };
    let ax: i64 = if x >= 0 {
        x
    } else {
        -x
    };
    let a1: i64 = if ay <= ax {
        if ax == 0 {
            0
        } else {
            let ratio: i64 = div_fp(ay, ax);
            proof {
                lemma_div_is_ordered((ay as int) * (ONE as int), (ax as int) * (ONE as int),
                    ax as int);
                vstd::arithmetic::div_mod::lemma_div_by_multiple(ONE as int, ax as int);
                assert((ay as int) * (ONE as int) <= (ax as int) * (ONE as int))
                    by (nonlinear_arith)
                    requires
                        0 <= ay <= ax,
                ;
                assert((ax as int) * (ONE as int) == (ONE as int) * (ax as int));
            }
            atan_unit(ratio)
        }
    } else {
        let ratio: i64 = div_fp(ax, ay);
        proof {
            lemma_div_is_ordered((ax as int) * (ONE as int), (ay as int) * (ONE as int),
                ay as int);
            vstd::arithmetic::div_mod::lemma_div_by_multiple(ONE as int, ay as int);
            assert((ax as int) * (ONE as int) <= (ay as int) * (ONE as int)) by (nonlinear_arith)
                requires
                    0 <= ax < ay,
            ;
            assert((ay as int) * (ONE as int) == (ONE as int) * (ay as int));
        }
        HALF_PI_FP - atan_unit(ratio)
    };
    let a2: i64 = if x >= 0 {
        a1
    } else {
        PI_FP - a1
    };
    if y < 0 {
        -a2
    } else {
        a2
    }
}

} // verus!
