use vstd::prelude::*;

use crate::fixed::clip;
use crate::fixed::fix_add;
use crate::fixed::fix_div;
use crate::fixed::fix_mul;
use crate::fixed::fix_neg;
use crate::fixed::fix_sub;
use crate::fixed::isqrt_u128;
use crate::fixed::spec_add;
use crate::fixed::spec_div;
use crate::fixed::spec_isqrt;
use crate::fixed::spec_mul;
use crate::fixed::spec_neg;
use crate::fixed::spec_sub;
use crate::trig::cos_fix;
use crate::trig::sin_fix;
use crate::trig::spec_cos;
use crate::trig::spec_sin;

verus! {

/// A three-component vector of fixed-point scalars.
#[derive(Clone, Copy, Debug, PartialEq, Eq, Structural)]
pub struct Vector {
    pub x: i64,
    pub y: i64,
    pub z: i64,
}

impl Vector {
    pub open spec fn spec_new(x: int, y: int, z: int) -> Vector {
        Vector { x: x as i64, y: y as i64, z: z as i64 }
    }

    /// The squared length of the raw (unscaled) components; always fits in
    /// three squares of `i64` values.
    pub open spec fn spec_norm2_raw(self) -> int {
        (self.x as int) * (self.x as int) + (self.y as int) * (self.y as int) + (self.z as int)
            * (self.z as int)
    }

    pub open spec fn spec_add(self, o: Vector) -> Vector {
        Vector {
            x: spec_add(self.x as int, o.x as int) as i64,
            y: spec_add(self.y as int, o.y as int) as i64,
            z: spec_add(self.z as int, o.z as int) as i64,
        }
    }

    pub open spec fn spec_sub(self, o: Vector) -> Vector {
        Vector {
            x: spec_sub(self.x as int, o.x as int) as i64,
            y: spec_sub(self.y as int, o.y as int) as i64,
            z: spec_sub(self.z as int, o.z as int) as i64,
        }
    }

    pub open spec fn spec_neg(self) -> Vector {
        Vector {
            x: spec_neg(self.x as int) as i64,
            y: spec_neg(self.y as int) as i64,
            z: spec_neg(self.z as int) as i64,
        }
    }

    pub open spec fn spec_scale(self, s: int) -> Vector {
        Vector {
            x: spec_mul(self.x as int, s) as i64,
            y: spec_mul(self.y as int, s) as i64,
            z: spec_mul(self.z as int, s) as i64,
        }
    }

    pub open spec fn spec_div_by(self, s: int) -> Vector {
        Vector {
            x: spec_div(self.x as int, s) as i64,
            y: spec_div(self.y as int, s) as i64,
            z: spec_div(self.z as int, s) as i64,
        }
    }

    pub open spec fn spec_dot(self, o: Vector) -> int {
        spec_add(
            spec_add(spec_mul(self.x as int, o.x as int), spec_mul(self.y as int, o.y as int)),
            spec_mul(self.z as int, o.z as int),
        )
    }

    pub open spec fn spec_cross(self, o: Vector) -> Vector {
        Vector {
            x: spec_sub(spec_mul(self.y as int, o.z as int), spec_mul(self.z as int, o.y as int))
                as i64,
            y: spec_sub(spec_mul(self.z as int, o.x as int), spec_mul(self.x as int, o.z as int))
                as i64,
            z: spec_sub(spec_mul(self.x as int, o.y as int), spec_mul(self.y as int, o.x as int))
                as i64,
        }
    }

    /// The length of the vector: because components carry the scale, the
    /// integer square root of the raw squared norm is already at scale.
    pub open spec fn spec_magnitude(self) -> int {
        clip(spec_isqrt(self.spec_norm2_raw()))
    }

    pub open spec fn spec_magnitude_squared(self) -> int {
        clip(self.spec_norm2_raw() / (crate::fixed::FIX_ONE as int))
    }

    pub open spec fn spec_normalized(self) -> Vector {
        self.spec_div_by(self.spec_magnitude())
    }

    pub open spec fn spec_rotate_z(self, a: int) -> Vector {
        Vector {
            x: spec_add(spec_mul(self.x as int, spec_cos(a)), spec_mul(self.y as int, spec_sin(a)))
                as i64,
            y: spec_sub(spec_mul(self.y as int, spec_cos(a)), spec_mul(self.x as int, spec_sin(a)))
                as i64,
            z: self.z,
        }
    }

    pub fn new(x: i64, y: i64, z: i64) -> (r: Vector)
        ensures
            r == (Vector { x, y, z }),
    {
        Vector { x, y, z }
    }

    pub fn zero() -> (r: Vector)
        ensures
            r == (Vector { x: 0i64, y: 0i64, z: 0i64 }),
    {
        Vector { x: 0, y: 0, z: 0 }
    }

    pub fn add(self, o: Vector) -> (r: Vector)
        ensures
            r == self.spec_add(o),
    {
        Vector { x: fix_add(self.x, o.x), y: fix_add(self.y, o.y), z: fix_add(self.z, o.z) }
    }

    pub fn sub(self, o: Vector) -> (r: Vector)
        ensures
            r == self.spec_sub(o),
    {
        Vector { x: fix_sub(self.x, o.x), y: fix_sub(self.y, o.y), z: fix_sub(self.z, o.z) }
    }

    pub fn neg(self) -> (r: Vector)
        ensures
            r == self.spec_neg(),
    {
        Vector { x: fix_neg(self.x), y: fix_neg(self.y), z: fix_neg(self.z) }
    }

    /// Componentwise product with a fixed-point scalar.
    pub fn scale(self, s: i64) -> (r: Vector)
        ensures
            r == self.spec_scale(s as int),
    {
        Vector { x: fix_mul(self.x, s), y: fix_mul(self.y, s), z: fix_mul(self.z, s) }
    }

    /// Componentwise quotient by a fixed-point scalar.
    pub fn div_by(self, s: i64) -> (r: Vector)
        ensures
            r == self.spec_div_by(s as int),
    {
        Vector { x: fix_div(self.x, s), y: fix_div(self.y, s), z: fix_div(self.z, s) }
    }

    /// Fixed-point dot product.
    pub fn dot(self, o: Vector) -> (r: i64)
        ensures
            r == self.spec_dot(o),
    {
        fix_add(fix_add(fix_mul(self.x, o.x), fix_mul(self.y, o.y)), fix_mul(self.z, o.z))
    }

    /// Fixed-point cross product.
    pub fn cross(self, o: Vector) -> (r: Vector)
        ensures
            r == self.spec_cross(o),
    {
        Vector {
            x: fix_sub(fix_mul(self.y, o.z), fix_mul(self.z, o.y)),
            y: fix_sub(fix_mul(self.z, o.x), fix_mul(self.x, o.z)),
            z: fix_sub(fix_mul(self.x, o.y), fix_mul(self.y, o.x)),
        }
    }

    /// The squared magnitude at the fixed-point scale.
    pub fn magnitude_squared(self) -> (r: i64)
        ensures
            r == self.spec_magnitude_squared(),
    {
        let s: u128 = self.norm2_raw();
        let q: u128 = s / 65536;
        if q > i64::MAX as u128 {
            i64::MAX
        } else {
            q as i64
        }
    }

    /// The magnitude at the fixed-point scale.
    pub fn magnitude(self) -> (r: i64)
        ensures
            r == self.spec_magnitude(),
            r >= 0,
    {
        let s: u128 = self.norm2_raw();
        let m: u64 = isqrt_u128(s);
        proof {
            crate::fixed::lemma_isqrt(s as int);
        }
        if m > i64::MAX as u64 {
            i64::MAX
        } else {
            m as i64
        }
    }

    /// The raw squared norm, exactly, as an unsigned 128-bit integer.
    fn norm2_raw(self) -> (s: u128)
        ensures
            s == self.spec_norm2_raw(),
    {
        let xa: u128 = if self.x < 0 {
            (-(self.x as i128)) as u128
        } else {
            self.x as u128
        };
        let ya: u128 = if self.y < 0 {
            (-(self.y as i128)) as u128
        } else {
            self.y as u128
        };
        let za: u128 = if self.z < 0 {
            (-(self.z as i128)) as u128
        } else {
            self.z as u128
        };
        proof {
            assert(xa * xa == (self.x as int) * (self.x as int) && xa * xa
                <= 0x8000_0000_0000_0000 * 0x8000_0000_0000_0000) by (nonlinear_arith)
                requires
                    xa == (if self.x < 0 {
                        -(self.x as int)
                    } else {
                        self.x as int
                    }),
                    -0x8000_0000_0000_0000 <= self.x as int <= 0x7fff_ffff_ffff_ffff,
            ;
            assert(ya * ya == (self.y as int) * (self.y as int) && ya * ya
                <= 0x8000_0000_0000_0000 * 0x8000_0000_0000_0000) by (nonlinear_arith)
                requires
                    ya == (if self.y < 0 {
                        -(self.y as int)
                    } else {
                        self.y as int
                    }),
                    -0x8000_0000_0000_0000 <= self.y as int <= 0x7fff_ffff_ffff_ffff,
            ;
            assert(za * za == (self.z as int) * (self.z as int) && za * za
                <= 0x8000_0000_0000_0000 * 0x8000_0000_0000_0000) by (nonlinear_arith)
                requires
                    za == (if self.z < 0 {
                        -(self.z as int)
                    } else {
                        self.z as int
                    }),
                    -0x8000_0000_0000_0000 <= self.z as int <= 0x7fff_ffff_ffff_ffff,
            ;
        }
        xa * xa + ya * ya + za * za
    }

    /// Componentwise absolute value.
    pub fn abs(self) -> (r: Vector)
        ensures
            r == self.spec_abs(),
    {
        Vector {
            x: crate::fixed::fix_abs(self.x),
            y: crate::fixed::fix_abs(self.y),
            z: crate::fixed::fix_abs(self.z),
        }
    }

    pub open spec fn spec_abs(self) -> Vector {
        Vector {
            x: crate::fixed::spec_abs(self.x as int) as i64,
            y: crate::fixed::spec_abs(self.y as int) as i64,
            z: crate::fixed::spec_abs(self.z as int) as i64,
        }
    }

    /// Componentwise maximum with zero.
    pub fn max_zero(self) -> (r: Vector)
        ensures
            r == self.spec_max_zero(),
    {
        Vector {
            x: crate::fixed::fix_max(self.x, 0),
            y: crate::fixed::fix_max(self.y, 0),
            z: crate::fixed::fix_max(self.z, 0),
        }
    }

    pub open spec fn spec_max_zero(self) -> Vector {
        Vector {
            x: crate::fixed::spec_max(self.x as int, 0) as i64,
            y: crate::fixed::spec_max(self.y as int, 0) as i64,
            z: crate::fixed::spec_max(self.z as int, 0) as i64,
        }
    }

    /// The vector scaled down by its own magnitude; a zero vector saturates
    /// componentwise as `spec_div` does.
    pub fn normalized(self) -> (r: Vector)
        ensures
            r == self.spec_normalized(),
    {
        let m: i64 = self.magnitude();
        self.div_by(m)
    }

    /// Rotation about the z axis by an angle in fixed-point radians.
    pub fn rotate_z(self, angle: i64) -> (r: Vector)
        ensures
            r == self.spec_rotate_z(angle as int),
    {
        let c: i64 = cos_fix(angle);
        let s: i64 = sin_fix(angle);
        Vector {
            x: fix_add(fix_mul(self.x, c), fix_mul(self.y, s)),
            y: fix_sub(fix_mul(self.y, c), fix_mul(self.x, s)),
            z: self.z,
        }
    }
}

} // verus!
