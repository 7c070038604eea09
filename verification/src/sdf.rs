use vstd::prelude::*;

use crate::fixed::fix_abs;
use crate::fixed::spec_add;
use crate::fixed::fix_add;
use crate::fixed::fix_div;
use crate::fixed::fix_max;
use crate::fixed::fix_min;
use crate::fixed::fix_mul;
use crate::fixed::fix_sub;
use crate::fixed::spec_abs;
use crate::fixed::spec_div;
use crate::fixed::spec_max;
use crate::fixed::spec_min;
use crate::fixed::spec_mul;
use crate::fixed::spec_sub;
use crate::fixed::tdiv;
use crate::fixed::FIX_ONE;
use crate::trig::cos_fix;
use crate::trig::sin_fix;
use crate::trig::spec_cos;
use crate::trig::spec_sin;
use crate::vector::Vector;

verus! {

/// One twelfth of a full turn, in fixed-point radians: the angular width of
/// a gear sector.
pub const FIX_SECTOR: i64 = 34315;

/// The tangent of half a sector (15 degrees) at the fixed-point scale.
pub const TAN_HALF_SECTOR: i64 = 17560;

/// The tangent of two and a half sectors (75 degrees) at the fixed-point scale.
pub const TAN_FIVE_HALF_SECTOR: i64 = 244603;

/// A shape whose signed distance field can be sampled at a point and time.
pub trait Object: Sized {
    spec fn spec_sdf(&self, point: Vector, time: int) -> int;

    /// The signed distance from `point` to the surface: negative inside,
    /// zero on the boundary, positive outside.
    fn sdf(&self, point: Vector, time: i64) -> (r: i64)
        ensures
            r == self.spec_sdf(point, time as int),
    ;
}

#[derive(Clone, Copy, Debug)]
pub struct Sphere {
    pub center: Vector,
    pub radius: i64,
}

impl Object for Sphere {
    open spec fn spec_sdf(&self, point: Vector, time: int) -> int {
        spec_sub(point.spec_sub(self.center).spec_magnitude(), self.radius as int)
    }

    fn sdf(&self, point: Vector, time: i64) -> (r: i64) {
        fix_sub(point.sub(self.center).magnitude(), self.radius)
    }
}

#[derive(Clone, Copy, Debug)]
pub struct SDBox {
    pub center: Vector,
    pub size: Vector,
}

impl Object for SDBox {
    /// The exact box distance: with `q` the componentwise distance of the
    /// point from the half-size slab, the result is the length of the
    /// positive part of `q` plus the (negative) interior offset.
    open spec fn spec_sdf(&self, point: Vector, time: int) -> int {
        let q = self.center.spec_sub(point).spec_abs().spec_sub(
            self.size.spec_div_by(2 * (FIX_ONE as int)),
        );
        spec_add(
            q.spec_max_zero().spec_magnitude(),
            spec_min(spec_max(spec_max(q.y as int, q.z as int), q.x as int), 0),
        )
    }

    fn sdf(&self, point: Vector, time: i64) -> (r: i64) {
        let q = self.center.sub(point).abs().sub(self.size.div_by(2 * FIX_ONE));
        fix_add(
            q.max_zero().magnitude(),
            fix_min(fix_max(fix_max(q.y, q.z), q.x), 0),
        )
    }
}

/// Which of the twelve angular sectors (numbered `-3..=3` like the rounded
/// ratio of the polar angle to the sector angle) the direction `(y, z)`
/// falls in, decided by comparing `|z| / |y|` against the tangents of the
/// sector boundaries.
pub open spec fn spec_sector_index(y: int, z: int) -> int {
    let ya = if y < 0 {
        -y
    } else {
        y
    };
    let za = if z < 0 {
        -z
    } else {
        z
    };
    let k: int = if za * (FIX_ONE as int) < ya * (TAN_HALF_SECTOR as int) {
        0
    } else if za < ya {
        1
    } else if za * (FIX_ONE as int) < ya * (TAN_FIVE_HALF_SECTOR as int) {
        2
    } else {
        3
    };
    if (y < 0) != (z < 0) {
        -k
    } else {
        k
    }
}

/// Computes the sector index of a direction in the y-z plane.
pub fn sector_index(y: i64, z: i64) -> (k: i64)
    ensures
        k == spec_sector_index(y as int, z as int),
        -3 <= k <= 3,
{
    let ya: i128 = if y < 0 {
        -(y as i128)
    } else {
        y as i128
    };
    let za: i128 = if z < 0 {
        -(z as i128)
    } else {
        z as i128
    };
    proof {
        assert(0 <= za * (FIX_ONE as i128) <= 0x8000_0000_0000_0000 * 65536
            && 0 <= ya * (TAN_HALF_SECTOR as i128) <= 0x8000_0000_0000_0000 * 17560
            && 0 <= ya * (TAN_FIVE_HALF_SECTOR as i128) <= 0x8000_0000_0000_0000 * 244603)
            by (nonlinear_arith)
            requires
                0 <= za <= 0x8000_0000_0000_0000,
                0 <= ya <= 0x8000_0000_0000_0000,
                FIX_ONE == 65536i64,
                TAN_HALF_SECTOR == 17560i64,
                TAN_FIVE_HALF_SECTOR == 244603i64,
        ;
    }
    let ka: i64 = if za * (FIX_ONE as i128) < ya * (TAN_HALF_SECTOR as i128) {
        0
    } else if za < ya {
        1
    } else if za * (FIX_ONE as i128) < ya * (TAN_FIVE_HALF_SECTOR as i128) {
        2
    } else {
        3
    };
    if (y < 0) != (z < 0) {
        -ka
    } else {
        ka
    }
}

#[derive(Clone, Copy, Debug)]
pub struct Gear {
    pub center: Vector,
    pub radius: i64,
    pub thickness: i64,
    pub turn_rate: i64,
}

impl Gear {
    /// The hollow-ring part: the distance to a cylinder shell around the x
    /// axis through the gear's center.
    pub open spec fn spec_ring(&self, point: Vector) -> int {
        let t2 = tdiv(self.thickness as int, 2);
        let t4 = tdiv(self.thickness as int, 4);
        let cyl = spec_sub(
            (Vector { x: 0i64, y: point.y, z: point.z }).spec_sub(self.center).spec_magnitude(),
            spec_sub(self.radius as int, t4),
        );
        spec_sub(spec_abs(cyl), t2)
    }

    /// The tooth template: a box sitting on the ring's outer edge, evaluated
    /// on the point after it has been folded into the nearest sector.
    pub open spec fn spec_tooth_box(&self) -> SDBox {
        let t2 = tdiv(self.thickness as int, 2);
        SDBox {
            center: Vector {
                x: 0i64,
                y: spec_add(self.radius as int, t2) as i64,
                z: 0i64,
            },
            size: Vector {
                x: self.thickness,
                y: spec_mul(self.thickness as int, 2 * (FIX_ONE as int)) as i64,
                z: self.thickness,
            },
        }
    }

    /// The query point rotated by the time-dependent phase angle about the
    /// gear axis.
    pub open spec fn spec_rotated(&self, point: Vector, time: int) -> Vector {
        let angle = spec_div(spec_mul(FIX_SECTOR as int, time), self.turn_rate as int);
        let c = spec_cos(angle);
        let s = spec_sin(angle);
        Vector {
            x: point.x,
            y: spec_sub(spec_mul(point.y as int, c), spec_mul(point.z as int, s)) as i64,
            z: spec_add(spec_mul(point.y as int, s), spec_mul(point.z as int, c)) as i64,
        }
    }

    /// The rotated point folded into the first sector: rotate back by the
    /// sector index times the sector angle and mirror the radial component.
    pub open spec fn spec_folded(&self, rotated: Vector) -> Vector {
        let k = spec_sector_index(rotated.y as int, rotated.z as int);
        let back = -((FIX_SECTOR as int) * k);
        let c = spec_cos(back);
        let s = spec_sin(back);
        Vector {
            x: rotated.x,
            y: spec_abs(spec_sub(spec_mul(rotated.y as int, c), spec_mul(rotated.z as int, s)))
                as i64,
            z: spec_add(spec_mul(rotated.y as int, s), spec_mul(rotated.z as int, c)) as i64,
        }
    }
}

impl Object for Gear {
    /// Ring and teeth joined by a union, then sliced to the gear's axial
    /// thickness. A point on the gear axis sees the ring alone.
    open spec fn spec_sdf(&self, point: Vector, time: int) -> int {
        let t2 = tdiv(self.thickness as int, 2);
        let t4 = tdiv(self.thickness as int, 4);
        let ring = self.spec_ring(point);
        let rotated = self.spec_rotated(point, time);
        let body = if rotated.y == 0 && rotated.z == 0 {
            ring
        } else {
            let teeth = spec_sub(
                self.spec_tooth_box().spec_sdf(self.spec_folded(rotated), time),
                t4,
            );
            spec_min(ring, teeth)
        };
        spec_max(body, spec_sub(spec_abs(point.x as int), t2))
    }

    fn sdf(&self, point: Vector, time: i64) -> (r: i64) {
        let t2: i64 = self.thickness / 2;
        let t4: i64 = self.thickness / 4;

        // Ring
        let cyl: i64 = fix_sub(
            Vector { x: 0, y: point.y, z: point.z }.sub(self.center).magnitude(),
            fix_sub(self.radius, t4),
        );
        let mut dist: i64 = fix_sub(fix_abs(cyl), t2);

        // Teeth
        let angle: i64 = fix_div(fix_mul(FIX_SECTOR, time), self.turn_rate);
        let c: i64 = cos_fix(angle);
        let s: i64 = sin_fix(angle);
        let rotated = Vector {
            x: point.x,
            y: fix_sub(fix_mul(point.y, c), fix_mul(point.z, s)),
            z: fix_add(fix_mul(point.y, s), fix_mul(point.z, c)),
        };
        if !(rotated.y == 0 && rotated.z == 0) {
            let k: i64 = sector_index(rotated.y, rotated.z);
            let back: i64 = -(FIX_SECTOR * k);
            let c2: i64 = cos_fix(back);
            let s2: i64 = sin_fix(back);
            let mapped = Vector {
                x: rotated.x,
                y: fix_abs(fix_sub(fix_mul(rotated.y, c2), fix_mul(rotated.z, s2))),
                z: fix_add(fix_mul(rotated.y, s2), fix_mul(rotated.z, c2)),
            };
            let tooth = SDBox {
                center: Vector { x: 0, y: fix_add(self.radius, t2), z: 0 },
                size: Vector { x: self.thickness, y: fix_mul(self.thickness, 2 * FIX_ONE), z: self.thickness },
            };
            dist = fix_min(dist, fix_sub(tooth.sdf(mapped, time), t4));
        }

        // Take a slice of the gear's axial thickness
        fix_max(dist, fix_sub(fix_abs(point.x), t2))
    }
}

/// The closed set of shapes a scene may hold.
#[derive(Clone, Copy, Debug)]
pub enum Shape {
    Sphere(Sphere),
    Cuboid(SDBox),
    Gear(Gear),
}

impl Object for Shape {
    open spec fn spec_sdf(&self, point: Vector, time: int) -> int {
        match *self {
            Shape::Sphere(s) => s.spec_sdf(point, time),
            Shape::Cuboid(b) => b.spec_sdf(point, time),
            Shape::Gear(g) => g.spec_sdf(point, time),
        }
    }

    fn sdf(&self, point: Vector, time: i64) -> (r: i64) {
        match self {
            Shape::Sphere(s) => s.sdf(point, time),
            Shape::Cuboid(b) => b.sdf(point, time),
            Shape::Gear(g) => g.sdf(point, time),
        }
    }
}

/// The union distance over the members of `objs` from index `i` on: the
/// minimum of the member distances, and the saturated maximum (standing for
/// an infinite distance) past the end.
pub open spec fn spec_union_suffix(objs: Seq<Shape>, i: int, p: Vector, t: int) -> int
    decreases objs.len() - i,
{
    if i < 0 || i >= objs.len() {
        i64::MAX as int
    } else {
        spec_min(objs[i].spec_sdf(p, t), spec_union_suffix(objs, i + 1, p, t))
    }
}

/// An ordered collection of shapes whose distance field is the union
/// (pointwise minimum) of the members' fields.
pub struct Scene {
    pub objects: Vec<Shape>,
}

impl Scene {
    pub open spec fn spec_distance(&self, p: Vector, t: int) -> int {
        spec_union_suffix(self.objects@, 0, p, t)
    }

    pub fn new(objects: Vec<Shape>) -> (r: Scene)
        ensures
            r.objects@ == objects@,
    {
        Scene { objects }
    }

    /// The signed distance from `point` to the union of the scene's shapes;
    /// an empty scene reports the saturated maximum everywhere.
    pub fn distance(&self, point: Vector, time: i64) -> (r: i64)
        ensures
            r == self.spec_distance(point, time as int),
    {
        let mut dist: i64 = i64::MAX;
        let mut i: usize = self.objects.len();
        while i > 0
            invariant
                i <= self.objects.len(),
                dist == spec_union_suffix(self.objects@, i as int, point, time as int),
            decreases i,
        {
            i = i - 1;
            let d: i64 = self.objects[i].sdf(point, time);
            dist = fix_min(d, dist);
        }
        dist
    }
}

/// The smooth-union combinator: a blended minimum that rounds the seam
/// between two distances over the blend radius `k`.
pub open spec fn spec_smooth_union(a: int, b: int, k: int) -> int {
    let h = spec_div(spec_max(spec_sub(k, spec_abs(spec_sub(a, b))), 0), k);
    spec_sub(spec_min(a, b), spec_div(spec_mul(spec_mul(h, h), k), 4 * (FIX_ONE as int)))
}

/// Blends two distances: `min(a, b) - h*h*k/4` with
/// `h = max(k - |a - b|, 0) / k`.
pub fn smooth_union(a: i64, b: i64, k: i64) -> (r: i64)
    ensures
        r == spec_smooth_union(a as int, b as int, k as int),
{
    let h: i64 = fix_div(fix_max(fix_sub(k, fix_abs(fix_sub(a, b))), 0), k);
    fix_sub(fix_min(a, b), fix_div(fix_mul(fix_mul(h, h), k), 4 * FIX_ONE))
}

/// The scene's distance is the least member distance: it is a lower bound on
/// every member's distance, it is attained by some member when the scene is
/// not empty, and it is the saturated maximum when the scene is empty.
pub proof fn lemma_union_suffix_min(objs: Seq<Shape>, i: int, p: Vector, t: int)
    requires
        0 <= i <= objs.len(),
    ensures
        forall|j: int|
            i <= j < objs.len() ==> spec_union_suffix(objs, i, p, t) <= #[trigger] objs[j].spec_sdf(
                p,
                t,
            ),
        i < objs.len() ==> exists|j: int|
            i <= j < objs.len() && spec_union_suffix(objs, i, p, t) == objs[j].spec_sdf(p, t),
        spec_union_suffix(objs, i, p, t) <= i64::MAX,
        i == objs.len() ==> spec_union_suffix(objs, i, p, t) == i64::MAX,
    decreases objs.len() - i,
{
    if i < objs.len() {
        lemma_union_suffix_min(objs, i + 1, p, t);
        let rest = spec_union_suffix(objs, i + 1, p, t);
        let here = objs[i].spec_sdf(p, t);
        if here <= rest {
            assert(spec_union_suffix(objs, i, p, t) == here);
        }
    }
}

/// The union law for a whole scene: `distance` is the minimum over the
/// members, and the saturated maximum for an empty scene.
pub proof fn lemma_scene_union_is_min(objs: Seq<Shape>, p: Vector, t: int)
    ensures
        forall|j: int|
            0 <= j < objs.len() ==> spec_union_suffix(objs, 0, p, t) <= #[trigger] objs[j].spec_sdf(
                p,
                t,
            ),
        objs.len() > 0 ==> exists|j: int|
            0 <= j < objs.len() && spec_union_suffix(objs, 0, p, t) == objs[j].spec_sdf(p, t),
        objs.len() == 0 ==> spec_union_suffix(objs, 0, p, t) == i64::MAX,
{
    lemma_union_suffix_min(objs, 0, p, t);
}

/// A sphere's distance at its own center is exactly the negated radius.
pub proof fn lemma_sphere_center_distance(s: Sphere, t: int)
    requires
        -i64::MAX <= s.radius,
    ensures
        s.spec_sdf(s.center, t) == -(s.radius as int),
{
    let d = s.center.spec_sub(s.center);
    assert(d == (Vector { x: 0i64, y: 0i64, z: 0i64 }));
    assert(d.spec_norm2_raw() == 0) by (nonlinear_arith)
        requires
            d.x == 0i64,
            d.y == 0i64,
            d.z == 0i64,
    ;
    assert(crate::fixed::spec_isqrt(0) == 0);
    assert(d.spec_magnitude() == 0);
}

/// A sphere's distance at a point on its surface (the point one radius from
/// the center along an axis) is exactly zero.
pub proof fn lemma_sphere_surface_distance(s: Sphere, t: int)
    requires
        0 <= s.radius,
        s.center.x + s.radius <= i64::MAX,
    ensures
        ({
            let p = Vector { x: (s.center.x + s.radius) as i64, y: s.center.y, z: s.center.z };
            s.spec_sdf(p, t) == 0
        }),
{
    let p = Vector { x: (s.center.x + s.radius) as i64, y: s.center.y, z: s.center.z };
    let d = p.spec_sub(s.center);
    assert(d == (Vector { x: s.radius, y: 0i64, z: 0i64 }));
    assert(d.spec_norm2_raw() == (s.radius as int) * (s.radius as int)) by (nonlinear_arith)
        requires
            d.x == s.radius,
            d.y == 0i64,
            d.z == 0i64,
    ;
    crate::fixed::lemma_isqrt_of_square(s.radius as int);
    assert(d.spec_magnitude() == s.radius);
}

/// A box's distance at the center of a face (half the size along an axis
/// from the box's center) is exactly zero.
pub proof fn lemma_box_face_distance(b: SDBox, t: int)
    requires
        0 <= b.size.x,
        0 <= b.size.y,
        0 <= b.size.z,
        b.center.x + spec_div(b.size.x as int, 2 * (FIX_ONE as int)) <= i64::MAX,
    ensures
        ({
            let hx = spec_div(b.size.x as int, 2 * (FIX_ONE as int));
            let p = Vector { x: (b.center.x + hx) as i64, y: b.center.y, z: b.center.z };
            b.spec_sdf(p, t) == 0
        }),
{
    let half = b.size.spec_div_by(2 * (FIX_ONE as int));
    let hx = spec_div(b.size.x as int, 2 * (FIX_ONE as int));
    let hy = spec_div(b.size.y as int, 2 * (FIX_ONE as int));
    let hz = spec_div(b.size.z as int, 2 * (FIX_ONE as int));
    assert(hx >= 0 && hy >= 0 && hz >= 0) by {
        vstd::arithmetic::div_mod::lemma_div_pos_is_pos((b.size.x as int) * (FIX_ONE as int), 2 * (
        FIX_ONE as int));
        vstd::arithmetic::div_mod::lemma_div_pos_is_pos((b.size.y as int) * (FIX_ONE as int), 2 * (
        FIX_ONE as int));
        vstd::arithmetic::div_mod::lemma_div_pos_is_pos((b.size.z as int) * (FIX_ONE as int), 2 * (
        FIX_ONE as int));
    }
    let p = Vector { x: (b.center.x + hx) as i64, y: b.center.y, z: b.center.z };
    let q = b.center.spec_sub(p).spec_abs().spec_sub(half);
    assert(b.center.spec_sub(p).spec_abs() == (Vector { x: hx as i64, y: 0i64, z: 0i64 }));
    assert(q.x == 0 && q.y == -hy && q.z == -hz);
    let m = q.spec_max_zero();
    assert(m == (Vector { x: 0i64, y: 0i64, z: 0i64 }));
    assert(m.spec_norm2_raw() == 0) by (nonlinear_arith)
        requires
            m.x == 0i64,
            m.y == 0i64,
            m.z == 0i64,
    ;
    assert(crate::fixed::spec_isqrt(0) == 0);
    assert(m.spec_magnitude() == 0);
    assert(spec_min(spec_max(spec_max(q.y as int, q.z as int), q.x as int), 0) == 0);
}

} // verus!
