use vstd::prelude::*;

verus! {

/// The fixed-point scale: the integer that stands for the real number 1.
/// A scalar `a: i64` stands for the real number `a / 65536`.
pub const FIX_ONE: i64 = 65536;

/// Truncating division (rounding toward zero), matching Rust's `/` on
/// signed integers; the divisor must be nonzero.
pub open spec fn tdiv(a: int, b: int) -> int {
    let q = (if a < 0 {
        -a
    } else {
        a
    }) / (if b < 0 {
        -b
    } else {
        b
    });
    if (a < 0) != (b < 0) {
        -q
    } else {
        q
    }
}

/// Saturates a mathematical integer into the `i64` range.
pub open spec fn clip(x: int) -> int {
    if x > i64::MAX {
        i64::MAX as int
    } else if x < i64::MIN {
        i64::MIN as int
    } else {
        x
    }
}

pub open spec fn spec_add(a: int, b: int) -> int {
    clip(a + b)
}

pub open spec fn spec_sub(a: int, b: int) -> int {
    clip(a - b)
}

pub open spec fn spec_neg(a: int) -> int {
    clip(-a)
}

pub open spec fn spec_abs(a: int) -> int {
    if a < 0 {
        clip(-a)
    } else {
        a
    }
}

pub open spec fn spec_min(a: int, b: int) -> int {
    if a < b {
        a
    } else {
        b
    }
}

pub open spec fn spec_max(a: int, b: int) -> int {
    if a > b {
        a
    } else {
        b
    }
}

/// Fixed-point product `(a * b) / FIX_ONE`, truncated toward zero and
/// saturated into the `i64` range.
pub open spec fn spec_mul(a: int, b: int) -> int {
    clip(tdiv(a * b, FIX_ONE as int))
}

/// Fixed-point quotient `(a * FIX_ONE) / b`, truncated toward zero and
/// saturated into the `i64` range. A zero divisor saturates by the sign of
/// the dividend (the analogue of an infinite quotient).
pub open spec fn spec_div(a: int, b: int) -> int {
    if b == 0 {
        if a > 0 {
            i64::MAX as int
        } else if a < 0 {
            i64::MIN as int
        } else {
            0
        }
    } else {
        clip(tdiv(a * FIX_ONE, b))
    }
}

/// Saturating addition.
pub fn fix_add(a: i64, b: i64) -> (r: i64)
    ensures
        r == spec_add(a as int, b as int),
{
    let s: i128 = (a as i128) + (b as i128);
    if s > i64::MAX as i128 {
        i64::MAX
    } else if s < i64::MIN as i128 {
        i64::MIN
    } else {
        s as i64
    }
}

/// Saturating subtraction.
pub fn fix_sub(a: i64, b: i64) -> (r: i64)
    ensures
        r == spec_sub(a as int, b as int),
{
    let s: i128 = (a as i128) - (b as i128);
    if s > i64::MAX as i128 {
        i64::MAX
    } else if s < i64::MIN as i128 {
        i64::MIN
    } else {
        s as i64
    }
}

/// Saturating negation.
pub fn fix_neg(a: i64) -> (r: i64)
    ensures
        r == spec_neg(a as int),
{
    if a == i64::MIN {
        i64::MAX
    } else {
        -a
    }
}

/// Saturating absolute value.
pub fn fix_abs(a: i64) -> (r: i64)
    ensures
        r == spec_abs(a as int),
{
    if a < 0 {
        fix_neg(a)
    } else {
        a
    }
}

pub fn fix_min(a: i64, b: i64) -> (r: i64)
    ensures
        r == spec_min(a as int, b as int),
{
    if a < b {
        a
    } else {
        b
    }
}

pub fn fix_max(a: i64, b: i64) -> (r: i64)
    ensures
        r == spec_max(a as int, b as int),
{
    if a > b {
        a
    } else {
        b
    }
}

/// Fixed-point multiplication.
pub fn fix_mul(a: i64, b: i64) -> (r: i64)
    ensures
        r == spec_mul(a as int, b as int),
{
    proof {
        assert((a as int) * (b as int) <= 0x8000_0000_0000_0000 * 0x8000_0000_0000_0000
            && (a as int) * (b as int) >= -(0x8000_0000_0000_0000 * 0x8000_0000_0000_0000))
            by (nonlinear_arith)
            requires
                -0x8000_0000_0000_0000 <= a as int <= 0x7fff_ffff_ffff_ffff,
                -0x8000_0000_0000_0000 <= b as int <= 0x7fff_ffff_ffff_ffff,
        ;
    }
    let p: i128 = (a as i128) * (b as i128);
    let q: i128 = p / 65536;
    if q > i64::MAX as i128 {
        i64::MAX
    } else if q < i64::MIN as i128 {
        i64::MIN
    } else {
        q as i64
    }
}

/// Fixed-point division.
pub fn fix_div(a: i64, b: i64) -> (r: i64)
    ensures
        r == spec_div(a as int, b as int),
{
    if b == 0 {
        if a > 0 {
            i64::MAX
        } else if a < 0 {
            i64::MIN
        } else {
            0
        }
    } else {
        let an: i128 = if a < 0 {
            -(a as i128)
        } else {
            a as i128
        };
        let bn: i128 = if b < 0 {
            -(b as i128)
        } else {
            b as i128
        };
        let q: i128 = (an * 65536) / bn;
        let neg: bool = (a < 0) != (b < 0);
        let qs: i128 = if neg {
            -q
        } else {
            q
        };
        proof {
            assert(an * 65536 == (if (a as int) * FIX_ONE < 0 {
                -((a as int) * FIX_ONE)
            } else {
                (a as int) * FIX_ONE
            }));
            if a == 0 {
                vstd::arithmetic::div_mod::lemma_div_of0(bn as int);
            }
            assert(qs == tdiv((a as int) * FIX_ONE, b as int));
        }
        if qs > i64::MAX as i128 {
            i64::MAX
        } else if qs < i64::MIN as i128 {
            i64::MIN
        } else {
            qs as i64
        }
    }
}

/// Floor of the square root of a nonnegative integer.
pub open spec fn spec_isqrt(n: int) -> int
    decreases n,
{
    if n <= 0 {
        0
    } else {
        let r = spec_isqrt(n - 1);
        if (r + 1) * (r + 1) <= n {
            r + 1
        } else {
            r
        }
    }
}

/// `spec_isqrt(n)` is the greatest integer whose square is at most `n`.
pub proof fn lemma_isqrt(n: int)
    requires
        n >= 0,
    ensures
        spec_isqrt(n) >= 0,
        spec_isqrt(n) * spec_isqrt(n) <= n,
        n < (spec_isqrt(n) + 1) * (spec_isqrt(n) + 1),
    decreases n,
{
    if n == 0 {
        let s = spec_isqrt(n);
        assert(s == 0);
        assert(s * s <= n && n < (s + 1) * (s + 1)) by (nonlinear_arith)
            requires
                s == 0,
                n == 0,
        ;
    } else {
        lemma_isqrt(n - 1);
        let r = spec_isqrt(n - 1);
        let s = spec_isqrt(n);
        if (r + 1) * (r + 1) <= n {
            assert(s == r + 1);
            assert(n == (r + 1) * (r + 1));
            assert(s * s <= n && n < (s + 1) * (s + 1)) by (nonlinear_arith)
                requires
                    s == r + 1,
                    n == (r + 1) * (r + 1),
                    r >= 0,
            ;
        } else {
            assert(s == r);
            assert(s * s <= n && n < (s + 1) * (s + 1)) by (nonlinear_arith)
                requires
                    s == r,
                    r * r <= n - 1,
                    n - 1 < (r + 1) * (r + 1),
                    !((r + 1) * (r + 1) <= n),
            ;
        }
    }
}

/// Two numbers that both satisfy the square-root characterization are equal.
pub proof fn lemma_isqrt_unique(n: int, a: int, b: int)
    requires
        a >= 0,
        b >= 0,
        a * a <= n < (a + 1) * (a + 1),
        b * b <= n < (b + 1) * (b + 1),
    ensures
        a == b,
{
    assert(a == b) by (nonlinear_arith)
        requires
            a >= 0,
            b >= 0,
            a * a <= n < (a + 1) * (a + 1),
            b * b <= n < (b + 1) * (b + 1),
    ;
}

/// Floor of the square root, by binary search.
pub fn isqrt_u128(n: u128) -> (r: u64)
    ensures
        r == spec_isqrt(n as int),
{
    let mut lo: u128 = 0;
    let mut hi: u128 = 0x1_0000_0000_0000_0000;
    proof {
        assert((hi as int) * (hi as int) > u128::MAX) by (nonlinear_arith)
            requires
                hi == 0x1_0000_0000_0000_0000,
        ;
    }
    while lo + 1 < hi
        invariant
            lo < hi,
            hi <= 0x1_0000_0000_0000_0000,
            (lo as int) * (lo as int) <= n as int,
            (n as int) < (hi as int) * (hi as int),
        decreases hi - lo,
    {
        let mid: u128 = lo + (hi - lo) / 2;
        proof {
            assert((mid as int) * (mid as int) <= u128::MAX) by (nonlinear_arith)
                requires
                    0 <= mid as int <= 0xffff_ffff_ffff_ffff,
            ;
        }
        if mid * mid <= n {
            lo = mid;
        } else {
            hi = mid;
        }
    }
    proof {
        lemma_isqrt(n as int);
        lemma_isqrt_unique(n as int, lo as int, spec_isqrt(n as int));
    }
    lo as u64
}

/// Euclidean remainder: the result lies in `[0, b)`.
pub fn fix_emod(a: i64, b: i64) -> (r: i64)
    requires
        0 < b,
    ensures
        r == (a as int) % (b as int),
{
    let m: i64 = a % b;
    if m < 0 {
        proof {
            let ai = a as int;
            let bi = b as int;
            let mt = m as int;
            let qq = (-ai) / bi;
            vstd::arithmetic::div_mod::lemma_fundamental_div_mod(-ai, bi);
            assert(ai == (-qq - 1) * bi + (mt + bi)) by (nonlinear_arith)
                requires
                    -ai == bi * qq + (-mt),
            ;
            vstd::arithmetic::div_mod::lemma_fundamental_div_mod_converse_mod(
                ai,
                bi,
                -qq - 1,
                mt + bi,
            );
        }
        m + b
    } else {
        proof {
            if a < 0 {
                let ai = a as int;
                let bi = b as int;
                let qq = (-ai) / bi;
                vstd::arithmetic::div_mod::lemma_fundamental_div_mod(-ai, bi);
                assert(ai == (-qq) * bi + 0) by (nonlinear_arith)
                    requires
                        -ai == bi * qq,
                ;
                vstd::arithmetic::div_mod::lemma_fundamental_div_mod_converse_mod(ai, bi, -qq, 0);
            }
        }
        m
    }
}


/// A fixed-point scalar truncated to a whole pixel count, clamped into the
/// `usize` range (negative values give zero).
pub open spec fn spec_fix_to_px(w: int) -> int {
    if w <= 0 {
        0
    } else if tdiv(w, FIX_ONE as int) > usize::MAX {
        usize::MAX as int
    } else {
        tdiv(w, FIX_ONE as int)
    }
}

/// Truncates a fixed-point scalar to a whole pixel count.
pub fn fix_to_px(w: i64) -> (r: usize)
    ensures
        r == spec_fix_to_px(w as int),
{
    if w <= 0 {
        0
    } else {
        let q: i64 = w / 65536;
        if q as u64 > usize::MAX as u64 {
            usize::MAX
        } else {
            q as usize
        }
    }
}

/// A whole count taken to the fixed-point scale, saturating at the top of
/// the `i64` range.
pub fn fix_from_usize(n: usize) -> (r: i64)
    ensures
        r == clip(n as int * (FIX_ONE as int)),
{
    let v: u128 = (n as u128) * 65536;
    if v > i64::MAX as u128 {
        i64::MAX
    } else {
        v as i64
    }
}

/// The integer square root of a perfect square is exact.
pub proof fn lemma_isqrt_of_square(a: int)
    requires
        0 <= a,
    ensures
        spec_isqrt(a * a) == a,
{
    lemma_isqrt(a * a);
    assert(a * a <= a * a < (a + 1) * (a + 1)) by (nonlinear_arith)
        requires
            a >= 0,
    ;
    lemma_isqrt_unique(a * a, a, spec_isqrt(a * a));
}

} // verus!
