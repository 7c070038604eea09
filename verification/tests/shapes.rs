use sdfray::fixed::FIX_ONE;
use sdfray::sdf::{sector_index, smooth_union, Gear, Object, SDBox, Scene, Shape, Sphere};
use sdfray::vector::Vector;

fn unit_sphere() -> Sphere {
    Sphere { center: Vector::new(0, 0, 0), radius: FIX_ONE }
}

fn sample_gear() -> Gear {
    Gear {
        center: Vector::new(0, 0, 0),
        radius: 2 * FIX_ONE,
        thickness: 26214,  // 0.4 at the fixed-point scale
        turn_rate: 30 * FIX_ONE,
    }
}

#[test]
fn sphere_distance_at_center_is_negated_radius() {
    let s = unit_sphere();
    assert_eq!(s.sdf(Vector::new(0, 0, 0), 0), -FIX_ONE);
    let small = Sphere { center: Vector::new(FIX_ONE, 0, 0), radius: 26214 };
    assert_eq!(small.sdf(Vector::new(FIX_ONE, 0, 0), 99 * FIX_ONE), -26214);
}

#[test]
fn sphere_distance_on_surface_is_zero() {
    let s = unit_sphere();
    assert_eq!(s.sdf(Vector::new(FIX_ONE, 0, 0), 0), 0);
    assert_eq!(s.sdf(Vector::new(0, -FIX_ONE, 0), 0), 0);
    // A Pythagorean point on the surface: (0.6, 0.8, 0).
    let on = Vector::new(39322, 52429, 0);
    assert!(s.sdf(on, 0).abs() <= 2);
}

#[test]
fn sphere_distance_outside_is_the_gap() {
    let s = unit_sphere();
    assert_eq!(s.sdf(Vector::new(2 * FIX_ONE, 0, 0), 0), FIX_ONE);
    assert_eq!(s.sdf(Vector::new(-4 * FIX_ONE, 0, 0), 0), 3 * FIX_ONE);
}

#[test]
fn box_distance_is_zero_on_each_face() {
    let b = SDBox { center: Vector::new(0, 0, 0), size: Vector::new(2 * FIX_ONE, 2 * FIX_ONE, 2 * FIX_ONE) };
    assert_eq!(b.sdf(Vector::new(FIX_ONE, 0, 0), 0), 0);
    assert_eq!(b.sdf(Vector::new(0, -FIX_ONE, 0), 0), 0);
    assert_eq!(b.sdf(Vector::new(0, 0, FIX_ONE), 0), 0);
}

#[test]
fn box_distance_is_exact_outside_the_axis_regions() {
    // Past an edge the distance is the diagonal gap, not the axis gap: for
    // the corner direction it is sqrt(2) here, and a naive axis formula
    // would report 1.
    let b = SDBox { center: Vector::new(0, 0, 0), size: Vector::new(2 * FIX_ONE, 2 * FIX_ONE, 2 * FIX_ONE) };
    assert_eq!(b.sdf(Vector::new(2 * FIX_ONE, 2 * FIX_ONE, 0), 0), 92681);
}

#[test]
fn box_distance_is_negative_inside() {
    let b = SDBox { center: Vector::new(0, 0, 0), size: Vector::new(2 * FIX_ONE, 2 * FIX_ONE, 2 * FIX_ONE) };
    assert_eq!(b.sdf(Vector::new(0, 0, 0), 0), -FIX_ONE);
}

#[test]
fn gear_distance_on_the_inner_ring_is_zero() {
    // radius - thickness/4 - thickness/2 along y: the shell's inner surface,
    // between two teeth.
    let g = sample_gear();
    assert_eq!(g.sdf(Vector::new(0, 111412, 0), 0), 0);
}

#[test]
fn gear_axis_points_see_the_ring_alone() {
    let g = sample_gear();
    assert_eq!(g.sdf(Vector::new(0, 0, 0), 0), 111412);
    assert_eq!(g.sdf(Vector::new(5 * FIX_ONE, 0, 0), 0), 314573);
}

#[test]
fn gear_tooth_lowers_the_plain_ring_distance() {
    let g = sample_gear();
    // Just outside the ring shell along y, where a tooth sits.
    assert_eq!(g.sdf(Vector::new(0, 2 * FIX_ONE, 0), 0), -13107);
}

#[test]
fn sector_indices_follow_the_boundaries() {
    assert_eq!(sector_index(FIX_ONE, 0), 0);
    assert_eq!(sector_index(FIX_ONE, 5734), 0);  // about 5 degrees
    assert_eq!(sector_index(FIX_ONE, 17560), 1);  // the 15-degree boundary rounds up
    assert_eq!(sector_index(FIX_ONE, 45894), 1);  // about 35 degrees
    assert_eq!(sector_index(FIX_ONE, FIX_ONE), 2);  // the 45-degree boundary
    assert_eq!(sector_index(FIX_ONE, 244603), 3);  // the 75-degree boundary
    assert_eq!(sector_index(0, 123), 3);
    assert_eq!(sector_index(0, -123), -3);
    assert_eq!(sector_index(FIX_ONE, -17560), -1);
    assert_eq!(sector_index(-FIX_ONE, 17560), -1);
    assert_eq!(sector_index(-FIX_ONE, -17560), 1);
    // The origin has no direction; the gear skips the fold there, and the
    // comparisons by themselves land in the outermost sector.
    assert_eq!(sector_index(0, 0), 3);
}

#[test]
fn scene_distance_is_the_member_minimum() {
    let shapes = vec![
        Shape::Sphere(Sphere { center: Vector::new(0, 0, 0), radius: 26214 }),
        Shape::Cuboid(SDBox {
            center: Vector::new(2 * FIX_ONE, 2 * FIX_ONE, 0),
            size: Vector::new(FIX_ONE, FIX_ONE, FIX_ONE),
        }),
        Shape::Gear(sample_gear()),
    ];
    let scene = Scene::new(shapes.clone());
    let points = [
        Vector::new(0, 0, 0),
        Vector::new(FIX_ONE, FIX_ONE, FIX_ONE),
        Vector::new(3 * FIX_ONE, 2 * FIX_ONE, -FIX_ONE),
        Vector::new(-2 * FIX_ONE, 45000, 3000),
    ];
    for p in points {
        let want = shapes.iter().map(|s| s.sdf(p, 7 * FIX_ONE)).min().unwrap();
        assert_eq!(scene.distance(p, 7 * FIX_ONE), want);
    }
    assert_eq!(scene.distance(Vector::new(0, 0, 0), 7 * FIX_ONE), -26214);
    assert_eq!(scene.distance(Vector::new(FIX_ONE, FIX_ONE, FIX_ONE), 7 * FIX_ONE), 52429);
}

#[test]
fn empty_scene_distance_is_the_saturated_maximum() {
    let scene = Scene::new(Vec::new());
    assert_eq!(scene.distance(Vector::new(123, -456, 789), 0), i64::MAX);
}

#[test]
fn scene_order_does_not_change_the_distance() {
    let a = Shape::Sphere(Sphere { center: Vector::new(0, 0, 0), radius: FIX_ONE });
    let b = Shape::Cuboid(SDBox {
        center: Vector::new(FIX_ONE, 0, 0),
        size: Vector::new(FIX_ONE, FIX_ONE, FIX_ONE),
    });
    let s1 = Scene::new(vec![a, b]);
    let s2 = Scene::new(vec![b, a]);
    let p = Vector::new(3 * FIX_ONE, -FIX_ONE, FIX_ONE / 2);
    assert_eq!(s1.distance(p, 0), s2.distance(p, 0));
}

#[test]
fn smooth_union_matches_the_blend_formula() {
    // Far apart: the plain minimum.
    assert_eq!(smooth_union(FIX_ONE, 2 * FIX_ONE, FIX_ONE), FIX_ONE);
    // Close together: the seam is rounded below the minimum.
    assert_eq!(smooth_union(FIX_ONE, FIX_ONE + 100, FIX_ONE), 49202);
    assert_eq!(smooth_union(13107, 19661, 6554), 13107);
    assert!(smooth_union(13107, 13207, 6554) < 13107);
}
