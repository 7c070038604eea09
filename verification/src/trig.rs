use vstd::prelude::*;

use crate::fixed::fix_emod;
use crate::fixed::spec_div;
use crate::fixed::FIX_ONE;

verus! {

/// 2*pi at the fixed-point scale (rounded to the nearest integer).
pub const FIX_TWO_PI: i64 = 411775;

/// pi at the fixed-point scale.
pub const FIX_PI: i64 = 205887;

/// pi/2 at the fixed-point scale.
pub const FIX_HALF_PI: i64 = 102944;

/// 3*pi/2 at the fixed-point scale.
pub const FIX_THREE_HALF_PI: i64 = 308831;

/// A truncated Taylor polynomial for the sine of `x`, meaningful for
/// `0 <= x <= FIX_HALF_PI`; the value is clamped into `[-FIX_ONE, FIX_ONE]`.
pub open spec fn spec_sin_poly(x: int) -> int {
    let x2 = (x * x) / (FIX_ONE as int);
    let x3 = (x2 * x) / (FIX_ONE as int);
    let x5 = (x3 * x2) / (FIX_ONE as int);
    let x7 = (x5 * x2) / (FIX_ONE as int);
    let s = x - x3 / 6 + x5 / 120 - x7 / 5040;
    if s > FIX_ONE {
        FIX_ONE as int
    } else if s < -FIX_ONE {
        -FIX_ONE as int
    } else {
        s
    }
}

/// Sine of an angle in fixed-point radians: the angle is reduced modulo
/// `FIX_TWO_PI`, folded into the first quadrant, and fed to the polynomial.
pub open spec fn spec_sin(a: int) -> int {
    let r = a % (FIX_TWO_PI as int);
    if r < FIX_HALF_PI {
        spec_sin_poly(r)
    } else if r < FIX_PI {
        spec_sin_poly(FIX_PI - r)
    } else if r < FIX_THREE_HALF_PI {
        -spec_sin_poly(r - FIX_PI)
    } else {
        -spec_sin_poly(FIX_TWO_PI - r)
    }
}

/// Cosine as the sine of the angle advanced by a quarter turn.
pub open spec fn spec_cos(a: int) -> int {
    spec_sin(a % (FIX_TWO_PI as int) + FIX_HALF_PI)
}

/// Tangent as the fixed-point quotient of sine by cosine; where the cosine
/// approximation is zero this saturates like `spec_div`.
pub open spec fn spec_tan(a: int) -> int {
    spec_div(spec_sin(a), spec_cos(a))
}

/// Evaluates the sine polynomial on the first quadrant.
pub fn sin_poly(x: i64) -> (r: i64)
    requires
        0 <= x <= FIX_HALF_PI,
    ensures
        r == spec_sin_poly(x as int),
        -FIX_ONE <= r <= FIX_ONE,
{
    let xi: i128 = x as i128;
    proof {
        assert(xi * xi <= 102944 * 102944) by (nonlinear_arith)
            requires
                0 <= xi <= 102944,
        ;
        vstd::arithmetic::div_mod::lemma_div_pos_is_pos((xi * xi) as int, 65536);
        vstd::arithmetic::div_mod::lemma_div_nonincreasing((xi * xi) as int, 65536);
    }
    let x2: i128 = (xi * xi) / 65536;
    proof {
        assert(x2 * xi <= 102944 * 102944 * 102944) by (nonlinear_arith)
            requires
                0 <= x2 <= 102944 * 102944,
                0 <= xi <= 102944,
        ;
        assert(x2 * xi >= 0) by (nonlinear_arith)
            requires
                x2 >= 0,
                xi >= 0,
        ;
        vstd::arithmetic::div_mod::lemma_div_pos_is_pos((x2 * xi) as int, 65536);
        vstd::arithmetic::div_mod::lemma_div_nonincreasing((x2 * xi) as int, 65536);
    }
    let x3: i128 = (x2 * xi) / 65536;
    proof {
        assert(x3 * x2 <= 102944 * 102944 * 102944 * 102944 * 102944) by (nonlinear_arith)
            requires
                0 <= x3 <= 102944 * 102944 * 102944,
                0 <= x2 <= 102944 * 102944,
        ;
        assert(x3 * x2 >= 0) by (nonlinear_arith)
            requires
                x3 >= 0,
                x2 >= 0,
        ;
        vstd::arithmetic::div_mod::lemma_div_pos_is_pos((x3 * x2) as int, 65536);
        vstd::arithmetic::div_mod::lemma_div_nonincreasing((x3 * x2) as int, 65536);
    }
    let x5: i128 = (x3 * x2) / 65536;
    proof {
        assert(x5 * x2 <= 102944 * 102944 * 102944 * 102944 * 102944 * 102944 * 102944)
            by (nonlinear_arith)
            requires
                0 <= x5 <= 102944 * 102944 * 102944 * 102944 * 102944,
                0 <= x2 <= 102944 * 102944,
        ;
        assert(x5 * x2 >= 0) by (nonlinear_arith)
            requires
                x5 >= 0,
                x2 >= 0,
        ;
        vstd::arithmetic::div_mod::lemma_div_pos_is_pos((x5 * x2) as int, 65536);
        vstd::arithmetic::div_mod::lemma_div_nonincreasing((x5 * x2) as int, 65536);
    }
    let x7: i128 = (x5 * x2) / 65536;
    proof {
        vstd::arithmetic::div_mod::lemma_div_pos_is_pos(x3 as int, 6);
        vstd::arithmetic::div_mod::lemma_div_nonincreasing(x3 as int, 6);
        vstd::arithmetic::div_mod::lemma_div_pos_is_pos(x5 as int, 120);
        vstd::arithmetic::div_mod::lemma_div_nonincreasing(x5 as int, 120);
        vstd::arithmetic::div_mod::lemma_div_pos_is_pos(x7 as int, 5040);
        vstd::arithmetic::div_mod::lemma_div_nonincreasing(x7 as int, 5040);
    }
    let s: i128 = xi - x3 / 6 + x5 / 120 - x7 / 5040;
    if s > 65536 {
        FIX_ONE
    } else if s < -65536 {
        -FIX_ONE
    } else {
        s as i64
    }
}

/// Sine of an angle given in fixed-point radians.
pub fn sin_fix(a: i64) -> (r: i64)
    ensures
        r == spec_sin(a as int),
        -FIX_ONE <= r <= FIX_ONE,
{
    let r: i64 = fix_emod(a, FIX_TWO_PI);
    if r < FIX_HALF_PI {
        sin_poly(r)
    } else if r < FIX_PI {
        sin_poly(FIX_PI - r)
    } else if r < FIX_THREE_HALF_PI {
        let p: i64 = sin_poly(r - FIX_PI);
        -p
    } else {
        let p: i64 = sin_poly(FIX_TWO_PI - r);
        -p
    }
}

/// Cosine of an angle given in fixed-point radians.
pub fn cos_fix(a: i64) -> (r: i64)
    ensures
        r == spec_cos(a as int),
        -FIX_ONE <= r <= FIX_ONE,
{
    let r: i64 = fix_emod(a, FIX_TWO_PI);
    sin_fix(r + FIX_HALF_PI)
}

/// Tangent of an angle given in fixed-point radians.
pub fn tan_fix(a: i64) -> (r: i64)
    ensures
        r == spec_tan(a as int),
{
    let s: i64 = sin_fix(a);
    let c: i64 = cos_fix(a);
    crate::fixed::fix_div(s, c)
}

} // verus!
