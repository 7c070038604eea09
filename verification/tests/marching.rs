use sdfray::fixed::FIX_ONE;
use sdfray::renderer::{Renderer, MARCH_THRESHOLD};
use sdfray::sdf::{Scene, Shape, Sphere};
use sdfray::vector::Vector;

fn unit_sphere_scene() -> Scene {
    Scene::new(vec![Shape::Sphere(Sphere { center: Vector::new(0, 0, 0), radius: FIX_ONE })])
}

#[test]
fn march_is_deterministic_across_calls() {
    let scene = unit_sphere_scene();
    let origin = Vector::new(-4 * FIX_ONE, 13107, 6554);
    let dir = Vector::new(FIX_ONE, 0, 0);
    let first = Renderer::ray_march(origin, dir, &scene, 0);
    for _ in 0..5 {
        assert_eq!(Renderer::ray_march(origin, dir, &scene, 0), first);
    }
    let other_scene = unit_sphere_scene();
    assert_eq!(Renderer::ray_march(origin, dir, &other_scene, 0), first);
}

#[test]
fn march_on_axis_lands_on_the_analytic_intersection() {
    let scene = unit_sphere_scene();
    let hit = Renderer::ray_march(
        Vector::new(-4 * FIX_ONE, 0, 0),
        Vector::new(FIX_ONE, 0, 0),
        &scene,
        0,
    );
    // The analytic intersection is (-1, 0, 0); here the march lands on it
    // exactly, well within the hit threshold.
    assert_eq!(hit, Some(Vector::new(-FIX_ONE, 0, 0)));
}

#[test]
fn march_off_axis_converges_within_the_threshold() {
    let scene = unit_sphere_scene();
    let hit = Renderer::ray_march(
        Vector::new(-4 * FIX_ONE, 13107, 6554),
        Vector::new(FIX_ONE, 0, 0),
        &scene,
        0,
    );
    let p = hit.expect("the ray passes well inside the sphere");
    assert_eq!(p, Vector::new(-63908, 13107, 6554));
    // The hit point lies within the threshold of the surface.
    assert!(scene.distance(p, 0).abs() < MARCH_THRESHOLD);
}

#[test]
fn march_misses_once_the_traveled_distance_reaches_the_bound() {
    // A target sphere nine units down the ray, with a small obstacle off to
    // the side keeping the early samples short: the surface is reachable,
    // but only beyond the eight units of travel the march allows.
    let scene = Scene::new(vec![
        Shape::Sphere(Sphere { center: Vector::new(10 * FIX_ONE, 0, 0), radius: FIX_ONE }),
        Shape::Sphere(Sphere { center: Vector::new(0, 7 * FIX_ONE, 0), radius: FIX_ONE }),
    ]);
    let miss = Renderer::ray_march(
        Vector::new(0, 0, 0),
        Vector::new(FIX_ONE, 0, 0),
        &scene,
        0,
    );
    assert_eq!(miss, None);
}

#[test]
fn march_reports_a_miss_past_the_sphere() {
    let scene = unit_sphere_scene();
    let miss = Renderer::ray_march(
        Vector::new(-4 * FIX_ONE, 2 * FIX_ONE, 0),
        Vector::new(FIX_ONE, 0, 0),
        &scene,
        0,
    );
    assert_eq!(miss, None);
    let empty = Scene::new(Vec::new());
    let nothing = Renderer::ray_march(
        Vector::new(0, 0, 0),
        Vector::new(FIX_ONE, 0, 0),
        &empty,
        0,
    );
    assert_eq!(nothing, None);
}

#[test]
fn normal_on_a_sphere_points_radially() {
    let scene = unit_sphere_scene();
    // On the +x pole the normal is the +x axis exactly.
    let n = Renderer::normal(Vector::new(FIX_ONE, 0, 0), &scene, 0);
    assert_eq!(n, Vector::new(FIX_ONE, 0, 0));
    // On a slanted surface point (0.6, 0.8, 0) the normal stays within
    // 0.01 of the radial direction.
    let p = Vector::new(39322, 52429, 0);
    let n2 = Renderer::normal(p, &scene, 0);
    let radial = p.normalized();
    let tol = 655;  // 0.01 at the fixed-point scale
    assert!((n2.x - radial.x).abs() < tol);
    assert!((n2.y - radial.y).abs() < tol);
    assert!((n2.z - radial.z).abs() < tol);
}

#[test]
fn occluded_points_are_fully_shadowed() {
    // A solid sphere sits halfway between the point and the light.
    let light = Vector::new(FIX_ONE, FIX_ONE, -FIX_ONE);
    let occluder = Scene::new(vec![Shape::Sphere(Sphere {
        center: Vector::new(-32768, -32768, 32768),
        radius: 19661,
    })]);
    let term = Renderer::diffuse_lighting(Vector::new(0, 0, 0), light, &occluder, 0);
    assert_eq!(term, 0);
}

#[test]
fn clear_line_of_sight_gives_full_shadow_term() {
    let light = Vector::new(FIX_ONE, FIX_ONE, -FIX_ONE);
    let empty = Scene::new(Vec::new());
    assert_eq!(Renderer::diffuse_lighting(Vector::new(0, 0, 0), light, &empty, 0), FIX_ONE);
    let far = Scene::new(vec![Shape::Sphere(Sphere {
        center: Vector::new(100 * FIX_ONE, 0, 0),
        radius: FIX_ONE,
    })]);
    assert_eq!(Renderer::diffuse_lighting(Vector::new(0, 0, 0), light, &far, 0), FIX_ONE);
}

#[test]
fn lighting_stays_within_the_unit_range() {
    let scene = unit_sphere_scene();
    let samples = [
        Vector::new(FIX_ONE, 0, 0),
        Vector::new(0, FIX_ONE, 0),
        Vector::new(0, 0, -FIX_ONE),
        Vector::new(39322, 52429, 0),
        Vector::new(-63908, 13107, 6554),
    ];
    for p in samples {
        let b = Renderer::light_point(p, &scene, 0);
        assert!(0 <= b && b <= FIX_ONE, "brightness {b} out of range");
    }
}

#[test]
fn specular_term_is_a_clamped_lambertian() {
    let scene = unit_sphere_scene();
    let light = Vector::new(FIX_ONE, FIX_ONE, -FIX_ONE);
    // On the -x pole the normal faces the light's negated direction.
    let lit = Renderer::specular_lighting(Vector::new(-FIX_ONE, 0, 0), light, &scene, 0);
    assert!(lit > 0);
    // On the +x pole the surface faces away: the term clamps to zero.
    let dark = Renderer::specular_lighting(Vector::new(FIX_ONE, 0, 0), light, &scene, 0);
    assert_eq!(dark, 0);
}
