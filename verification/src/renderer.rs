use vstd::prelude::*;

use crate::buffer::Buffer;
use crate::camera::Camera;
use crate::fixed::fix_abs;
use crate::fixed::fix_add;
use crate::fixed::fix_div;
use crate::fixed::fix_max;
use crate::fixed::fix_min;
use crate::fixed::fix_mul;
use crate::fixed::fix_neg;
use crate::fixed::fix_sub;
use crate::fixed::spec_abs;
use crate::fixed::spec_add;
use crate::fixed::spec_div;
use crate::fixed::spec_fix_to_px;
use crate::fixed::spec_max;
use crate::fixed::spec_min;
use crate::fixed::spec_mul;
use crate::fixed::spec_neg;
use crate::fixed::spec_sub;
use crate::fixed::FIX_ONE;
use crate::screen::ScreenIterator;
use crate::sdf::Object;
use crate::sdf::Scene;
use crate::sdf::Sphere;
use crate::sdf::Shape;
use crate::vector::Vector;

verus! {

/// A surface is declared hit when the field drops below this threshold
/// (0.01 at the fixed-point scale).
pub const MARCH_THRESHOLD: i64 = 655;

/// A ray is declared a miss once the accumulated march distance reaches
/// this bound (8 at the fixed-point scale).
pub const MARCH_MAX_DIST: i64 = 524288;

/// The most field samples a single march may take.
pub const MARCH_MAX_STEPS: usize = 30;

/// The ambient brightness floor (0.1 at the fixed-point scale).
pub const AMBIENT: i64 = 6554;

/// The weight of the shadow term in the brightness mix (0.7).
pub const SHADOW_WEIGHT: i64 = 45875;

/// The weight of the surface-light term in the brightness mix (0.3).
pub const LIGHT_WEIGHT: i64 = 19661;

/// The field value below which a shadow ray counts as occluded (0.001).
pub const SHADOW_EPS: i64 = 66;

/// Where along the light direction the shadow march starts (0.1).
pub const SHADOW_START: i64 = 6554;

/// The sharpness factor of the soft penumbra (4).
pub const SHADOW_SHARPNESS: i64 = 262144;

/// The finite-difference offset of the normal estimate (0.001).
pub const NORMAL_EPS: i64 = 66;

/// The fixed light direction the lighting model uses.
pub open spec fn spec_light_vec() -> Vector {
    Vector { x: FIX_ONE, y: FIX_ONE, z: (-FIX_ONE) as i64 }
}

/// One march prefix: from `point`, having already traveled `traveled` along
/// the ray, with at most `fuel` samples left, the hit point or the miss that
/// sphere tracing reaches along `ray`. A step that carries the accumulated
/// distance to `MARCH_MAX_DIST` or beyond is a miss.
pub open spec fn spec_march_step(
    scene: Scene,
    time: int,
    ray: Vector,
    point: Vector,
    traveled: int,
    fuel: int,
) -> Option<Vector>
    decreases fuel,
{
    if fuel <= 0 {
        None
    } else {
        let d = scene.spec_distance(point, time);
        if spec_abs(d) < MARCH_THRESHOLD {
            Some(point)
        } else {
            let traveled2 = spec_add(traveled, d);
            if traveled2 >= MARCH_MAX_DIST {
                None
            } else {
                spec_march_step(
                    scene,
                    time,
                    ray,
                    point.spec_add(ray.spec_scale(d)),
                    traveled2,
                    fuel - 1,
                )
            }
        }
    }
}

/// The full march: the direction is normalized and up to `MARCH_MAX_STEPS`
/// sphere-tracing steps are taken from the origin, starting with no
/// accumulated distance.
pub open spec fn spec_march(scene: Scene, time: int, origin: Vector, direction: Vector) -> Option<
    Vector,
> {
    spec_march_step(scene, time, direction.spec_normalized(), origin, 0, MARCH_MAX_STEPS as int)
}

/// The soft-shadow march from `t` with running minimum `res`: occlusion
/// drops the result to zero, otherwise the penumbra estimate
/// `SHADOW_SHARPNESS * h / t` lowers the running minimum until the march
/// leaves the unit range along the light vector.
pub open spec fn spec_shadow_from(
    scene: Scene,
    time: int,
    point: Vector,
    light: Vector,
    t: int,
    res: int,
) -> int
    decreases spec_max((FIX_ONE as int) - t, 0),
{
    if t >= FIX_ONE {
        res
    } else {
        let h = scene.spec_distance(point.spec_sub(light.spec_scale(t)), time);
        if h < SHADOW_EPS {
            0
        } else {
            spec_shadow_from(
                scene,
                time,
                point,
                light,
                spec_add(t, h),
                spec_min(res, spec_div(spec_mul(SHADOW_SHARPNESS as int, h), t)),
            )
        }
    }
}

/// The whole soft-shadow term of a point.
pub open spec fn spec_diffuse(scene: Scene, time: int, point: Vector, light: Vector) -> int {
    spec_shadow_from(scene, time, point, light, SHADOW_START as int, FIX_ONE as int)
}

/// The finite-difference normal estimate of the scene's field at a point.
pub open spec fn spec_normal(scene: Scene, time: int, point: Vector) -> Vector {
    let d0 = scene.spec_distance(point, time);
    let gx = spec_sub(
        scene.spec_distance(point.spec_add(Vector { x: NORMAL_EPS, y: 0i64, z: 0i64 }), time),
        d0,
    );
    let gy = spec_sub(
        scene.spec_distance(point.spec_add(Vector { x: 0i64, y: NORMAL_EPS, z: 0i64 }), time),
        d0,
    );
    let gz = spec_sub(
        scene.spec_distance(point.spec_add(Vector { x: 0i64, y: 0i64, z: NORMAL_EPS }), time),
        d0,
    );
    (Vector { x: gx as i64, y: gy as i64, z: gz as i64 }).spec_div_by(
        NORMAL_EPS as int,
    ).spec_normalized()
}

/// The clamped Lambertian term of a point against the light direction.
pub open spec fn spec_specular(scene: Scene, time: int, point: Vector, light: Vector) -> int {
    spec_max(spec_min(spec_neg(spec_normal(scene, time, point).spec_dot(light)), FIX_ONE as int), 0)
}

/// The brightness of a hit point: the ambient floor plus the weighted mix of
/// the shadow and surface-light terms.
pub open spec fn spec_light_point(scene: Scene, time: int, point: Vector) -> int {
    spec_add(
        AMBIENT as int,
        spec_mul(
            spec_sub(FIX_ONE as int, AMBIENT as int),
            spec_add(
                spec_mul(spec_diffuse(scene, time, point, spec_light_vec()), SHADOW_WEIGHT as int),
                spec_mul(spec_specular(scene, time, point, spec_light_vec()), LIGHT_WEIGHT as int),
            ),
        ),
    )
}

/// Drives the whole pipeline: camera, scene and buffer, with one glyph
/// computed per pixel.
pub struct Renderer {
    pub camera: Camera,
    pub buffer: Buffer,
    pub scene: Scene,
}

impl Renderer {
    /// The screen walk that `render` uses: the camera's projection with the
    /// buffer's pixel grid adopted.
    pub open spec fn spec_screen_walk(&self) -> ScreenIterator {
        ScreenIterator {
            corner_position: self.camera.spec_corner(),
            vertical_edge: self.camera.spec_col_vertical(),
            horizontal_edge: self.camera.spec_col_horizontal(),
            horizontal_step: self.camera.spec_col_horizontal().spec_div_by(self.buffer.width as int),
            vertical_step: self.camera.spec_col_vertical().spec_div_by(self.buffer.height as int),
            buffer_width: spec_fix_to_px(self.buffer.width as int) as usize,
            buffer_height: spec_fix_to_px(self.buffer.height as int) as usize,
            current_index: 0,
        }
    }

    /// The glyph of one pixel: its ray marched into the scene, the hit lit
    /// and the brightness mapped over the palette, with a miss mapped to
    /// zero brightness.
    pub open spec fn spec_render_pixel(&self, time: int, idx: int) -> char {
        let dir = self.spec_screen_walk().spec_ray_dir(idx);
        let b = match spec_march(self.scene, time, self.camera.position, dir) {
            Some(p) => spec_light_point(self.scene, time, p),
            None => 0,
        };
        self.buffer.spec_glyph_for(b)
    }

    /// Assembles a renderer; the shapes become the scene whose union field
    /// every ray samples.
    pub fn new(buffer: Buffer, camera: Camera, objects: Vec<Shape>) -> (r: Renderer)
        ensures
            r.buffer.width == buffer.width,
            r.buffer.height == buffer.height,
            r.buffer.palette@ == buffer.palette@,
            r.camera == camera,
            r.scene.objects@ == objects@,
    {
        Renderer { buffer, camera, scene: Scene::new(objects) }
    }

    /// Sphere tracing: samples the field, stops at a hit when the sample is
    /// within the threshold, advances by the sample otherwise, and gives up
    /// at the step bound or once the accumulated march distance reaches the
    /// miss bound.
    pub fn ray_march(origin: Vector, direction: Vector, scene: &Scene, time: i64) -> (r: Option<
        Vector,
    >)
        ensures
            r == spec_march(*scene, time as int, origin, direction),
    {
        let ray: Vector = direction.normalized();
        let mut point: Vector = origin;
        let mut traveled: i64 = 0;
        let mut fuel: usize = MARCH_MAX_STEPS;

        while fuel > 0
            invariant
                spec_march_step(*scene, time as int, ray, point, traveled as int, fuel as int)
                    == spec_march(*scene, time as int, origin, direction),
                fuel <= MARCH_MAX_STEPS,
            decreases fuel,
        {
            let dist: i64 = scene.distance(point, time);
            if fix_abs(dist) < MARCH_THRESHOLD {
                return Some(point);
            }
            traveled = fix_add(traveled, dist);
            if traveled >= MARCH_MAX_DIST {
                return None;
            }
            point = point.add(ray.scale(dist));
            fuel = fuel - 1;
        }
        None
    }

    /// The brightness of a hit point under the fixed light direction.
    pub fn light_point(point: Vector, scene: &Scene, time: i64) -> (r: i64)
        ensures
            r == spec_light_point(*scene, time as int, point),
    {
        let light: Vector = Vector { x: FIX_ONE, y: FIX_ONE, z: -FIX_ONE };
        let d: i64 = Renderer::diffuse_lighting(point, light, scene, time);
        let s: i64 = Renderer::specular_lighting(point, light, scene, time);
        fix_add(
            AMBIENT,
            fix_mul(fix_sub(FIX_ONE, AMBIENT), fix_add(fix_mul(d, SHADOW_WEIGHT), fix_mul(s, LIGHT_WEIGHT))),
        )
    }

    /// The soft-shadow term: marches from the point along the opposite of
    /// the light vector and reports zero under occlusion, else the running
    /// penumbra minimum.
    pub fn diffuse_lighting(point: Vector, light: Vector, scene: &Scene, time: i64) -> (r: i64)
        ensures
            r == spec_diffuse(*scene, time as int, point, light),
    {
        let mut res: i64 = FIX_ONE;
        let mut t: i64 = SHADOW_START;

        while t < FIX_ONE
            invariant
                spec_shadow_from(*scene, time as int, point, light, t as int, res as int)
                    == spec_diffuse(*scene, time as int, point, light),
            decreases spec_max((FIX_ONE as int) - t, 0),
        {
            let h: i64 = scene.distance(point.sub(light.scale(t)), time);
            if h < SHADOW_EPS {
                return 0;
            }
            res = fix_min(res, fix_div(fix_mul(SHADOW_SHARPNESS, h), t));
            t = fix_add(t, h);
        }

        res
    }

    /// The clamped Lambertian term of the estimated normal against the
    /// light direction.
    pub fn specular_lighting(point: Vector, light: Vector, scene: &Scene, time: i64) -> (r: i64)
        ensures
            r == spec_specular(*scene, time as int, point, light),
    {
        let normal: Vector = Renderer::normal(point, scene, time);
        let dot: i64 = fix_neg(normal.dot(light));
        fix_max(fix_min(dot, FIX_ONE), 0)
    }

    /// The normal estimate: the forward finite difference of the field along
    /// each axis, scaled back and normalized.
    pub fn normal(point: Vector, scene: &Scene, time: i64) -> (r: Vector)
        ensures
            r == spec_normal(*scene, time as int, point),
    {
        let dx: Vector = Vector { x: NORMAL_EPS, y: 0, z: 0 };
        let dy: Vector = Vector { x: 0, y: NORMAL_EPS, z: 0 };
        let dz: Vector = Vector { x: 0, y: 0, z: NORMAL_EPS };

        let dist: i64 = scene.distance(point, time);

        Vector {
            x: fix_sub(scene.distance(point.add(dx), time), dist),
            y: fix_sub(scene.distance(point.add(dy), time), dist),
            z: fix_sub(scene.distance(point.add(dz), time), dist),
        }.div_by(NORMAL_EPS).normalized()
    }

    /// Renders one frame: every pixel of the grid, in row-major order,
    /// mapped through march, lighting and the glyph palette.
    pub fn render(&self, time: i64) -> (r: Vec<char>)
        requires
            self.buffer.palette.len() >= 1,
            spec_fix_to_px(self.buffer.width as int) * spec_fix_to_px(self.buffer.height as int)
                <= usize::MAX,
        ensures
            r@.len() == spec_fix_to_px(self.buffer.width as int) * spec_fix_to_px(
                self.buffer.height as int,
            ),
            forall|i: int| 0 <= i < r@.len() ==> r@[i] == self.spec_render_pixel(time as int, i),
    {
        let mut iterator: ScreenIterator = self.camera.get_screen_iterator();
        iterator.set_buffer_size(&self.buffer);

        let ghost walk = self.spec_screen_walk();
        let ghost total = walk.buffer_width * walk.buffer_height;

        let mut chars: Vec<char> = Vec::new();

        if iterator.buffer_width == 0 {
            // A grid with no columns has no pixels to walk.
            proof {
                assert(total == 0) by (nonlinear_arith)
                    requires
                        total == walk.buffer_width * walk.buffer_height,
                        walk.buffer_width == 0,
                ;
            }
            return chars;
        }
        loop
            invariant
                self.buffer.palette.len() >= 1,
                iterator.buffer_width > 0,
                iterator.corner_position == walk.corner_position,
                iterator.vertical_edge == walk.vertical_edge,
                iterator.horizontal_edge == walk.horizontal_edge,
                iterator.horizontal_step == walk.horizontal_step,
                iterator.vertical_step == walk.vertical_step,
                iterator.buffer_width == walk.buffer_width,
                iterator.buffer_height == walk.buffer_height,
                total == walk.buffer_width * walk.buffer_height,
                total <= usize::MAX,
                walk == self.spec_screen_walk(),
                iterator.current_index == chars@.len(),
                chars@.len() <= total,
                forall|i: int|
                    0 <= i < chars@.len() ==> chars@[i] == self.spec_render_pixel(time as int, i),
            decreases total - iterator.current_index,
        {
            let next: Option<Vector> = iterator.next();
            match next {
                Some(ray_dir) => {
                    proof {
                        assert(ray_dir == walk.spec_ray_dir(chars@.len() as int));
                    }
                    let collision: Option<Vector> = Renderer::ray_march(
                        self.camera.position,
                        ray_dir,
                        &self.scene,
                        time,
                    );
                    let brightness: i64 = match collision {
                        Some(p) => Renderer::light_point(p, &self.scene, time),
                        None => 0,
                    };
                    let glyph: char = self.buffer.glyph_for(brightness);
                    chars.push(glyph);
                },
                None => {
                    return chars;
                },
            }
        }
    }
}

/// Sphere tracing is deterministic: two scenes that hold the same shapes,
/// marched from the same origin and direction at the same time, reach the
/// same hit or miss.
pub proof fn lemma_march_deterministic(
    s1: Scene,
    s2: Scene,
    time: int,
    origin: Vector,
    direction: Vector,
)
    requires
        s1.objects@ == s2.objects@,
    ensures
        spec_march(s1, time, origin, direction) == spec_march(s2, time, origin, direction),
{
    lemma_march_step_deterministic(
        s1,
        s2,
        time,
        direction.spec_normalized(),
        origin,
        0,
        MARCH_MAX_STEPS as int,
    );
}

proof fn lemma_march_step_deterministic(
    s1: Scene,
    s2: Scene,
    time: int,
    ray: Vector,
    point: Vector,
    traveled: int,
    fuel: int,
)
    requires
        s1.objects@ == s2.objects@,
    ensures
        spec_march_step(s1, time, ray, point, traveled, fuel) == spec_march_step(
            s2,
            time,
            ray,
            point,
            traveled,
            fuel,
        ),
    decreases fuel,
{
    if fuel > 0 {
        assert(s1.spec_distance(point, time) == s2.spec_distance(point, time));
        let d = s1.spec_distance(point, time);
        if !(spec_abs(d) < MARCH_THRESHOLD) && !(spec_add(traveled, d) >= MARCH_MAX_DIST) {
            lemma_march_step_deterministic(
                s1,
                s2,
                time,
                ray,
                point.spec_add(ray.spec_scale(d)),
                spec_add(traveled, d),
                fuel - 1,
            );
        }
    }
}

} // verus!

verus! {

/// Scaling by the unit scalar is exact: `spec_mul(FIX_ONE, d) == d` for any
/// scalar already in range.
proof fn lemma_mul_one_exact(d: int)
    requires
        i64::MIN <= d <= i64::MAX,
    ensures
        spec_mul(FIX_ONE as int, d) == d,
        spec_mul(0, d) == 0,
{
    let da = if d < 0 {
        -d
    } else {
        d
    };
    assert((if (FIX_ONE as int) * d < 0 {
        -((FIX_ONE as int) * d)
    } else {
        (FIX_ONE as int) * d
    }) == da * 65536) by (nonlinear_arith)
        requires
            da == (if d < 0 {
                -d
            } else {
                d
            }),
    ;
    vstd::arithmetic::div_mod::lemma_div_by_multiple(da, 65536);
    assert(da * 65536 == 65536 * da) by (nonlinear_arith);
    assert((0int) * d == 0) by (nonlinear_arith);
    vstd::arithmetic::div_mod::lemma_div_of0(65536);
}

/// Sphere tracing converges on an axis-aligned ray: marched from an exterior
/// point on the negative x axis straight at a sphere around the origin that
/// lies within the miss bound, the march reports a hit, and the hit point is
/// within the hit threshold of the analytic intersection `(-r, 0, 0)`.
pub proof fn lemma_march_converges_on_axis(scene: Scene, a: i64, r: i64, time: int)
    requires
        scene.objects@.len() == 1,
        scene.objects@[0] == Shape::Sphere(
            Sphere { center: Vector { x: 0i64, y: 0i64, z: 0i64 }, radius: r },
        ),
        0 <= r < a,
        a - r < MARCH_MAX_DIST,
    ensures
        ({
            let hit = spec_march(
                scene,
                time,
                Vector { x: (-a) as i64, y: 0i64, z: 0i64 },
                Vector { x: FIX_ONE, y: 0i64, z: 0i64 },
            );
            &&& hit is Some
            &&& hit->0.y == 0
            &&& hit->0.z == 0
            &&& -(MARCH_THRESHOLD as int) < (hit->0.x as int) + (r as int)
                < MARCH_THRESHOLD
        }),
{
    let origin = Vector { x: (-a) as i64, y: 0i64, z: 0i64 };
    let dir = Vector { x: FIX_ONE, y: 0i64, z: 0i64 };
    let sphere = Sphere { center: Vector { x: 0i64, y: 0i64, z: 0i64 }, radius: r };

    // The direction is already unit length, and normalizing keeps it intact.
    assert(dir.spec_norm2_raw() == 65536 * 65536) by (nonlinear_arith)
        requires
            dir.x == 65536i64,
            dir.y == 0i64,
            dir.z == 0i64,
    ;
    crate::fixed::lemma_isqrt_of_square(65536);
    assert(65536 * 65536 == 4294967296) by (nonlinear_arith);
    assert(dir.spec_magnitude() == 65536);
    lemma_mul_one_exact(65536);
    assert(spec_div(65536, 65536) == spec_mul(FIX_ONE as int, 65536) == 65536) by {
        assert((65536int) * 65536 == 65536 * 65536) by (nonlinear_arith);
    }
    assert(spec_div(0, 65536) == 0);
    let ray = dir.spec_normalized();
    assert(ray == dir);

    // The field at the start point is the exact gap to the sphere.
    crate::fixed::lemma_isqrt_of_square(a as int);
    assert(((-a) as int) * ((-a) as int) == (a as int) * (a as int)) by (nonlinear_arith);
    assert(origin.spec_sub(sphere.center) == origin);
    assert(origin.spec_norm2_raw() == (a as int) * (a as int));
    assert(origin.spec_magnitude() == a);
    assert(sphere.spec_sdf(origin, time) == a - r);
    assert(crate::sdf::spec_union_suffix(scene.objects@, 1, origin, time) == i64::MAX as int);
    assert(scene.spec_distance(origin, time) == a - r);

    let d0 = (a - r) as int;
    if d0 < MARCH_THRESHOLD {
        // Already within the threshold: the very first sample is a hit.
        assert(spec_march(scene, time, origin, dir) == Some(origin));
    } else {
        // One step lands exactly on the sphere's surface.
        lemma_mul_one_exact(d0);
        let step = ray.spec_scale(d0);
        assert(step == (Vector { x: (a - r) as i64, y: 0i64, z: 0i64 }));
        let point1 = origin.spec_add(step);
        assert(point1 == (Vector { x: (-r) as i64, y: 0i64, z: 0i64 }));

        crate::fixed::lemma_isqrt_of_square(r as int);
        assert(((-r) as int) * ((-r) as int) == (r as int) * (r as int)) by (nonlinear_arith);
        assert(point1.spec_sub(sphere.center) == point1);
        assert(point1.spec_norm2_raw() == (r as int) * (r as int));
        assert(point1.spec_magnitude() == r);
        assert(sphere.spec_sdf(point1, time) == 0);
        assert(crate::sdf::spec_union_suffix(scene.objects@, 1, point1, time) == i64::MAX as int);
        assert(scene.spec_distance(point1, time) == 0);

        assert(spec_add(0, d0) == d0);
        assert(spec_march_step(scene, time, ray, point1, d0, (MARCH_MAX_STEPS - 1) as int) == Some(
            point1,
        ));
        assert(spec_march(scene, time, origin, dir) == Some(point1));
    }
}

/// A weighted mix term stays under its weight: scaling a unit-range value
/// by a nonnegative weight gives a value between zero and the weight.
proof fn lemma_weighted_term(v: int, w: int)
    requires
        0 <= v <= FIX_ONE,
        0 <= w,
    ensures
        0 <= spec_mul(v, w) <= w,
{
    assert(0 <= v * w <= (FIX_ONE as int) * w) by (nonlinear_arith)
        requires
            0 <= v <= FIX_ONE,
            0 <= w,
    ;
    vstd::arithmetic::div_mod::lemma_div_pos_is_pos(v * w, FIX_ONE as int);
    vstd::arithmetic::div_mod::lemma_div_is_ordered(v * w, (FIX_ONE as int) * w, FIX_ONE as int);
    vstd::arithmetic::div_mod::lemma_div_by_multiple(w, FIX_ONE as int);
    assert(w * (FIX_ONE as int) == (FIX_ONE as int) * w) by (nonlinear_arith);
}

/// The soft-shadow march stays within the unit range: whatever scene it
/// samples, the term it reports lies between full shadow and full light.
pub proof fn lemma_shadow_term_in_range(
    scene: Scene,
    time: int,
    point: Vector,
    light: Vector,
    t: int,
    res: int,
)
    requires
        0 < t,
        0 <= res <= FIX_ONE,
    ensures
        0 <= spec_shadow_from(scene, time, point, light, t, res) <= FIX_ONE,
    decreases spec_max((FIX_ONE as int) - t, 0),
{
    if t >= FIX_ONE {
    } else {
        let h = scene.spec_distance(point.spec_sub(light.spec_scale(t)), time);
        if h < SHADOW_EPS {
        } else {
            let num = spec_mul(SHADOW_SHARPNESS as int, h);
            assert(0 <= (SHADOW_SHARPNESS as int) * h) by (nonlinear_arith)
                requires
                    h >= 0,
            ;
            assert(num >= 0) by {
                vstd::arithmetic::div_mod::lemma_div_pos_is_pos(
                    (SHADOW_SHARPNESS as int) * h,
                    FIX_ONE as int,
                );
            }
            let penumbra = spec_div(num, t);
            assert(penumbra >= 0) by {
                vstd::arithmetic::div_mod::lemma_div_pos_is_pos(num * (FIX_ONE as int), t);
            }
            let res2 = spec_min(res, penumbra);
            lemma_shadow_term_in_range(scene, time, point, light, spec_add(t, h), res2);
        }
    }
}

/// The brightness of any point lies between the ambient floor and full
/// brightness, so every brightness maps into the glyph palette.
pub proof fn lemma_brightness_in_range(scene: Scene, time: int, point: Vector)
    ensures
        AMBIENT <= spec_light_point(scene, time, point) <= FIX_ONE,
{
    let l = spec_light_vec();
    lemma_shadow_term_in_range(scene, time, point, l, SHADOW_START as int, FIX_ONE as int);
    let d = spec_diffuse(scene, time, point, l);
    let sp = spec_specular(scene, time, point, l);
    assert(0 <= sp <= FIX_ONE);
    lemma_weighted_term(d, SHADOW_WEIGHT as int);
    lemma_weighted_term(sp, LIGHT_WEIGHT as int);
    let mix = spec_add(spec_mul(d, SHADOW_WEIGHT as int), spec_mul(sp, LIGHT_WEIGHT as int));
    assert(0 <= mix <= FIX_ONE);
    let inner = spec_mul(spec_sub(FIX_ONE as int, AMBIENT as int), mix);
    assert((FIX_ONE as int) - (AMBIENT as int) == 58982);
    assert(mix * 58982 == 58982 * mix) by (nonlinear_arith);
    lemma_weighted_term(mix, 58982);
    assert(0 <= inner <= 58982);
}

/// If the very first shadow sample already lies inside the occlusion
/// threshold, the shadow term is zero.
pub proof fn lemma_shadow_occluded(scene: Scene, time: int, point: Vector, light: Vector)
    requires
        scene.spec_distance(point.spec_sub(light.spec_scale(SHADOW_START as int)), time)
            < SHADOW_EPS,
    ensures
        spec_diffuse(scene, time, point, light) == 0,
{
}

/// An empty scene is missed by every ray.
pub proof fn lemma_empty_scene_misses(scene: Scene, time: int, origin: Vector, direction: Vector)
    requires
        scene.objects@.len() == 0,
    ensures
        spec_march(scene, time, origin, direction) is None,
{
    assert(scene.spec_distance(origin, time) == i64::MAX);
}

/// An empty scene renders as a fully background frame: every pixel carries
/// the palette's last (blank) glyph.
pub proof fn lemma_empty_scene_background(r: &Renderer, time: int, idx: int)
    requires
        r.scene.objects@.len() == 0,
        r.buffer.palette@.len() >= 1,
    ensures
        r.spec_render_pixel(time, idx) == r.buffer.palette@.last(),
{
    let dir = r.spec_screen_walk().spec_ray_dir(idx);
    lemma_empty_scene_misses(r.scene, time, r.camera.position, dir);
    crate::buffer::lemma_glyph_extremes(&r.buffer);
}

} // verus!
