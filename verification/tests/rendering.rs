use sdfray::buffer::Buffer;
use sdfray::camera::Camera;
use sdfray::fixed::{fix_add, fix_div, fix_mul, fix_sub, FIX_ONE};
use sdfray::renderer::Renderer;
use sdfray::sdf::{sector_index, Object, Scene, Shape, Sphere, FIX_SECTOR};
use sdfray::trig::{cos_fix, sin_fix};
use sdfray::vector::Vector;

#[test]
fn default_palette_runs_dense_to_blank() {
    let buffer = Buffer::from_height(50 * FIX_ONE, 3 * FIX_ONE);
    assert_eq!(buffer.width, 150 * FIX_ONE);
    assert_eq!(buffer.height, 50 * FIX_ONE);
    assert_eq!(buffer.palette.len(), 69);
    assert_eq!(buffer.palette[0], '$');
    assert_eq!(buffer.palette[68], ' ');
}

#[test]
fn glyph_for_zero_is_the_last_and_for_one_the_first() {
    let buffer = Buffer::from_height(50 * FIX_ONE, 3 * FIX_ONE);
    assert_eq!(buffer.glyph_for(0), ' ');
    assert_eq!(buffer.glyph_for(FIX_ONE), '$');
    // Out-of-range brightnesses clamp to the ends.
    assert_eq!(buffer.glyph_for(-5 * FIX_ONE), ' ');
    assert_eq!(buffer.glyph_for(5 * FIX_ONE), '$');
    // Half brightness lands in the middle of the palette.
    assert_eq!(buffer.glyph_for(FIX_ONE / 2), buffer.palette[34]);
    // The index rounds to the nearest glyph: 1446/65536 of the span times
    // 68 glyphs is 1.50024, which rounds up to 2 rather than truncating.
    assert_eq!(buffer.glyph_for(64090), buffer.palette[2]);
}

#[test]
fn glyph_mapping_is_monotone_in_brightness() {
    let buffer = Buffer::from_height(50 * FIX_ONE, 3 * FIX_ONE);
    let index_of = |c: char| buffer.palette.iter().position(|&p| p == c).unwrap();
    let mut last = buffer.palette.len();
    let mut b: i64 = 0;
    while b <= FIX_ONE {
        let idx = index_of(buffer.glyph_for(b));
        assert!(idx <= last, "palette index rose from {last} to {idx} at {b}");
        last = idx;
        b += 97;
    }
}

#[test]
fn camera_basis_points_at_the_target() {
    let camera = Camera::new(
        Vector::new(-4 * FIX_ONE, 0, 0),
        Vector::new(0, 0, 0),
        102944,  // a quarter turn: 90 degrees of field of view
        FIX_ONE,
    );
    assert_eq!(camera.direction, Vector::new(FIX_ONE, 0, 0));
    assert_eq!(camera.up, Vector::new(0, 0, FIX_ONE));
    // A 90-degree field of view at focal distance 1 spans width 2.
    assert_eq!(camera.screen.width, 131074);
    assert_eq!(camera.screen.height, 87383);
}

#[test]
fn screen_iterator_walks_the_grid_in_row_major_order() {
    let camera = Camera::new(
        Vector::new(-4 * FIX_ONE, 0, 0),
        Vector::new(0, 0, 0),
        102944,
        FIX_ONE,
    );
    let buffer = Buffer::from_height(2 * FIX_ONE, (3 * FIX_ONE) / 2);
    let mut it = camera.get_screen_iterator();
    it.set_buffer_size(&buffer);

    let mut dirs = Vec::new();
    while let Some(d) = it.next() {
        dirs.push(d);
    }
    assert_eq!(dirs.len(), 6);
    // Restarting from a fresh iterator reproduces the same directions.
    let mut it2 = camera.get_screen_iterator();
    it2.set_buffer_size(&buffer);
    let first_again = it2.next().unwrap();
    assert_eq!(first_again, dirs[0]);
    // Neighbors in a row differ by the horizontal step, rows by the vertical.
    let hstep = dirs[1].sub(dirs[0]);
    let vstep = dirs[3].sub(dirs[0]);
    assert_eq!(dirs[2], dirs[1].add(hstep));
    assert_eq!(dirs[4], dirs[3].add(hstep));
    assert!(vstep.z != 0);
}

#[test]
fn scenario_sphere_silhouette_hits_center_and_misses_corners() {
    // A unit sphere at the origin, camera on the -x axis looking at it,
    // 90-degree field of view, 30 rows of 90 columns.
    let scene = Scene::new(vec![Shape::Sphere(Sphere {
        center: Vector::new(0, 0, 0),
        radius: FIX_ONE,
    })]);
    let camera = Camera::new(
        Vector::new(-4 * FIX_ONE, 0, 0),
        Vector::new(0, 0, 0),
        102944,
        FIX_ONE,
    );
    let buffer = Buffer::from_height(30 * FIX_ONE, 3 * FIX_ONE);
    let renderer = Renderer::new(buffer, camera, scene.objects);
    let frame = renderer.render(0);
    assert_eq!(frame.len(), 90 * 30);

    // The corners miss: zero brightness maps to the blank glyph.
    assert_eq!(frame[0], ' ');
    assert_eq!(frame[89], ' ');
    assert_eq!(frame[90 * 30 - 90], ' ');
    assert_eq!(frame[90 * 30 - 1], ' ');
    // The central pixels hit the sphere; the middle one faces the light
    // fully and carries the densest glyph.
    assert_eq!(frame[15 * 90 + 45], '$');
    assert_ne!(frame[15 * 90 + 44], ' ');
    assert_ne!(frame[14 * 90 + 45], ' ');
    // The silhouette leaves most of the frame as background.
    let lit = frame.iter().filter(|&&c| c != ' ').count();
    assert!(0 < lit && lit < 90 * 30 / 2);
}

#[test]
fn rendering_twice_gives_identical_frames() {
    let scene = vec![
        Shape::Sphere(Sphere { center: Vector::new(0, 0, 0), radius: 26214 }),
        Shape::Gear(sdfray::sdf::Gear {
            center: Vector::new(0, 0, 0),
            radius: 2 * FIX_ONE,
            thickness: 26214,
            turn_rate: 30 * FIX_ONE,
        }),
    ];
    let camera = Camera::new(
        Vector::new(-4 * FIX_ONE, 0, 0),
        Vector::new(0, 0, 0),
        102944,
        FIX_ONE,
    );
    let buffer = Buffer::from_height(10 * FIX_ONE, 3 * FIX_ONE);
    let renderer = Renderer::new(buffer, camera, scene);
    let one = renderer.render(5 * FIX_ONE);
    let two = renderer.render(5 * FIX_ONE);
    assert_eq!(one, two);
}

#[test]
fn scenario_gear_fold_phase_advances_half_a_sector() {
    // Gear with turn rate 30 evaluated at time 15: the internal phase angle
    // is half a sector (15 degrees), so a direction at 5 degrees folds into
    // sector 1 instead of sector 0, and one at 35 degrees into sector 2
    // instead of sector 1.
    let time_15 = 15 * FIX_ONE;
    let turn_rate = 30 * FIX_ONE;
    let angle = fix_div(fix_mul(FIX_SECTOR, time_15), turn_rate);
    assert_eq!(angle, 17157);  // 15 degrees in fixed-point radians
    let c = cos_fix(angle);
    let s = sin_fix(angle);

    let rotate = |y: i64, z: i64| -> (i64, i64) {
        (fix_sub(fix_mul(y, c), fix_mul(z, s)), fix_add(fix_mul(y, s), fix_mul(z, c)))
    };

    // At time zero the phase angle is zero and the sectors are unchanged.
    let zero_angle = fix_div(fix_mul(FIX_SECTOR, 0), turn_rate);
    assert_eq!(zero_angle, 0);

    let five_deg = (FIX_ONE, 5734);
    let thirty_five_deg = (FIX_ONE, 45894);
    assert_eq!(sector_index(five_deg.0, five_deg.1), 0);
    assert_eq!(sector_index(thirty_five_deg.0, thirty_five_deg.1), 1);

    let (ry, rz) = rotate(five_deg.0, five_deg.1);
    assert_eq!(sector_index(ry, rz), 1);
    let (ry2, rz2) = rotate(thirty_five_deg.0, thirty_five_deg.1);
    assert_eq!(sector_index(ry2, rz2), 2);
}

#[test]
fn gear_rotation_moves_the_surface_over_time() {
    // The same point sees different distances as the gear turns, and the
    // plain ring (no teeth in reach) does not.
    let g = sdfray::sdf::Gear {
        center: Vector::new(0, 0, 0),
        radius: 2 * FIX_ONE,
        thickness: 26214,
        turn_rate: 30 * FIX_ONE,
    };
    let near_teeth = Vector::new(0, 2 * FIX_ONE + 26214, 26214);
    assert_eq!(g.sdf(near_teeth, 0), 6546);
    assert_eq!(g.sdf(near_teeth, 15 * FIX_ONE), -4271);
}

#[test]
fn empty_scene_renders_a_blank_frame() {
    let camera = Camera::new(
        Vector::new(-4 * FIX_ONE, 0, 0),
        Vector::new(0, 0, 0),
        102944,
        FIX_ONE,
    );
    let buffer = Buffer::from_height(5 * FIX_ONE, 3 * FIX_ONE);
    let renderer = Renderer::new(buffer, camera, Vec::new());
    let frame = renderer.render(0);
    assert_eq!(frame.len(), 15 * 5);
    assert!(frame.iter().all(|&c| c == ' '));
}
