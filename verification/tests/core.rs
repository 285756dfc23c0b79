//! End-to-end tests of the verified core: camera mappings, grid index
//! math, the reactive update cycle, and the blur pass sequencing.

use quadblur::blur::{
    chain_sizes, kawase_plan, ping_pong_plan, BlurKey, KawaseParams, PassDest, PassKind,
    PassSource, PingPongParams,
};
use quadblur::camera::{Camera, Rotor};
use quadblur::controller::{InputEvent, SceneController};
use quadblur::grid::QuadEntity;
use quadblur::mesh::{entity_vertices, indices_for_quad};
use quadblur::grid::{
    area_width_for, closest_grid_coord_from_pos, derive_rect, grid_coord_from_index,
    index_from_grid_coord, pos_from_grid_coord, pos_from_index, round_div16, QuadGrid,
};
use quadblur::rat::{rat_add, rat_div, rat_mul, rat_round, rat_round_clamped, Rat};
use quadblur::rng::rng_from_seed;
use quadblur::upload::row_upload_ranges;
use quadblur::vec2::V2;

fn rat(num: i128, den: i128) -> Rat {
    Rat { num, den }
}

/// `a` holds exactly the integer value `v`.
fn is_int(a: &Rat, v: i128) -> bool {
    a.num == v * a.den
}

fn test_camera() -> Camera {
    Camera {
        position: V2 { x: rat(0, 1), y: rat(0, 1) },
        rotation: Rotor { cos: rat(1, 1), sin: rat(0, 1) },
        scale: V2 { x: rat(2, 1), y: rat(2, 1) },
    }
}

#[test]
fn real_size_and_center_offset_scenario() {
    // camera at the origin, no rotation, scale (2,2), viewport 800x600
    let cam = test_camera();
    let viewport = V2 { x: rat(800, 1), y: rat(600, 1) };
    let rs = cam.real_size(&viewport);
    assert!(is_int(&rs.x, 400));
    assert!(is_int(&rs.y, 300));
    let o = cam.center_offset(&viewport);
    assert!(is_int(&o.x, 200));
    assert!(is_int(&o.y, 150));
}

#[test]
fn pointer_round_trip_concrete() {
    // a rotated, zoomed, panned camera: the two mappings are exact inverses
    let cam = Camera {
        position: V2 { x: rat(7, 1), y: rat(-3, 1) },
        rotation: Rotor { cos: rat(3, 5), sin: rat(4, 5) },
        scale: V2 { x: rat(2, 1), y: rat(2, 1) },
    };
    let viewport = V2 { x: rat(800, 1), y: rat(600, 1) };
    let world = V2 { x: rat(5, 1), y: rat(9, 1) };
    let pointer = cam.pos_to_pointer(&world, &viewport);
    let back = cam.pointer_to_pos(&pointer, &viewport);
    assert!(is_int(&back.x, 5));
    assert!(is_int(&back.y, 9));
}

#[test]
fn pointer_to_pos_center_is_camera_position() {
    // the viewport center maps to the negated camera position at no rotation
    let cam = Camera {
        position: V2 { x: rat(11, 1), y: rat(4, 1) },
        rotation: Rotor { cos: rat(1, 1), sin: rat(0, 1) },
        scale: V2 { x: rat(1, 1), y: rat(1, 1) },
    };
    let viewport = V2 { x: rat(640, 1), y: rat(480, 1) };
    let w = cam.pointer_to_pos(&V2 { x: rat(320, 1), y: rat(240, 1) }, &viewport);
    assert!(is_int(&w.x, -11));
    assert!(is_int(&w.y, -4));
}

#[test]
fn camera_matrix_entries() {
    let cam = test_camera();
    let viewport = V2 { x: rat(800, 1), y: rat(600, 1) };
    let m = cam.matrix(&viewport);
    // m00 = 2*sx/vw = 4/800 = 1/200, m11 = -4/600 = -1/150
    assert_eq!(m.m00.num * 200, m.m00.den);
    assert_eq!(m.m11.num * 150, -m.m11.den);
    assert_eq!(m.m01.num, 0);
    assert_eq!(m.m10.num, 0);
    // m03 = (2sx/vw)*ox - 1 = (1/200)*200 - 1 = 0
    assert_eq!(m.m03.num, 0);
    assert_eq!(m.m13.num, 0);
    assert_eq!((m.m22.num, m.m22.den), (1, 65535));
    assert_eq!(m.m23.num * 2, -m.m23.den);
}

#[test]
fn rounding_halves_away_from_zero() {
    assert_eq!(rat_round(&rat(3, 2)), 2);
    assert_eq!(rat_round(&rat(-3, 2)), -2);
    assert_eq!(rat_round(&rat(7, 5)), 1);
    assert_eq!(rat_round(&rat(-7, 5)), -1);
    assert_eq!(rat_round_clamped(&rat(1000, 1), 50), 50);
    assert_eq!(rat_round_clamped(&rat(-1000, 1), 50), -50);
    assert_eq!(round_div16(24), 2);
    assert_eq!(round_div16(-24), -2);
    assert_eq!(round_div16(23), 1);
}

#[test]
fn rational_arithmetic_exact() {
    let a = rat(1, 3);
    let b = rat(1, 6);
    let s = rat_add(&a, &b);
    // 1/3 + 1/6 == 1/2
    assert_eq!(s.num * 2, s.den);
    let p = rat_mul(&a, &b);
    assert_eq!(p.num * 18, p.den);
    let q = rat_div(&a, &b);
    assert!(is_int(&q, 2));
}

#[test]
fn grid_scenario_hundred_thousand_quads() {
    // area width 100,000 quads: cell (0,0) sits at (-width/2 * spacing, ...)
    let aw = area_width_for(100_000);
    assert_eq!(aw, 316);
    let p = pos_from_grid_coord(0, 0, aw);
    assert_eq!(p, (-(316 / 2) * 16, -(316 / 2) * 16));
    assert_eq!(p, (-2528, -2528));
    // quad index of cell (width-1, 0) is width-1
    assert_eq!(index_from_grid_coord(aw - 1, 0, aw), aw - 1);
}

#[test]
fn grid_index_bijection_concrete() {
    let aw = 316;
    for &(x, y) in &[(0u32, 0u32), (5, 7), (315, 0), (0, 315), (315, 315)] {
        let i = index_from_grid_coord(x, y, aw);
        assert_eq!(grid_coord_from_index(i, aw), (x, y));
    }
}

#[test]
fn closest_grid_coord_clamps() {
    let aw = 316;
    // far outside the lattice on every side: always inside [0, aw-1]
    let far = [
        (1_000_000_000_000i64, 1_000_000_000_000i64),
        (-1_000_000_000_000, -1_000_000_000_000),
        (1_000_000_000_000, -1_000_000_000_000),
        (0, 4_000_000_000_000),
    ];
    for &(px, py) in &far {
        let (x, y) = closest_grid_coord_from_pos(px, py, aw);
        assert!(x < aw && y < aw);
    }
    // the exact center of the lattice maps to the middle cell
    assert_eq!(closest_grid_coord_from_pos(0, 0, aw), (158, 158));
    // a cell's own position maps back to it
    let (px, py) = pos_from_grid_coord(12, 300, aw);
    assert_eq!(closest_grid_coord_from_pos(px, py, aw), (12, 300));
}

#[test]
fn seeded_grid_fields_in_range() {
    let mut rng = rng_from_seed(42);
    let g = QuadGrid::generate(1000, &mut rng);
    assert_eq!(g.area_width, 31);
    assert_eq!(g.entities.len(), 1000);
    let mut any_rotation_differs = false;
    for (i, e) in g.entities.iter().enumerate() {
        let p = pos_from_index(i as u32, g.area_width);
        assert_eq!((e.pos_x, e.pos_y), p);
        assert!((10..=20).contains(&e.size_x));
        assert!((10..=20).contains(&e.size_y));
        assert!(e.rotation < 1_000_000);
        assert!((1..=5).contains(&e.border_radius));
        assert!((1..=5).contains(&e.border_width));
        let fill = e.fill_color.to_le_bytes();
        assert!(fill.iter().all(|&b| b >= 128));
        let stroke = e.stroke_color.to_le_bytes();
        assert!(stroke[0] >= 24 && stroke[0] <= 128);
        assert!(stroke[1] >= 24 && stroke[1] <= 128);
        assert!(stroke[2] >= 24 && stroke[2] <= 128);
        assert!(stroke[3] >= 128);
        assert_eq!(e.intensity.num, 0);
        if e.rotation != g.entities[0].rotation {
            any_rotation_differs = true;
        }
    }
    assert!(any_rotation_differs);
}

#[test]
fn reactive_update_and_reset_cycle() {
    let mut rng = rng_from_seed(7);
    let mut g = QuadGrid::generate(100, &mut rng);
    assert_eq!(g.area_width, 10);
    let before = g.entities.clone();
    // pointer at the world position of cell (5,5), radius 40
    let (px, py) = pos_from_grid_coord(5, 5, 10);
    let rect = g.reactive_update(px, py, 40, 16_667);
    assert_eq!(rect, derive_rect(px, py, 40, 10));
    // the cell under the pointer has distance 0: intensity exactly 1
    let i = index_from_grid_coord(5, 5, 10) as usize;
    assert_eq!(g.entities[i].intensity.num, g.entities[i].intensity.den);
    // its rotation advanced by the full step
    assert_eq!(
        g.entities[i].rotation as u64,
        (before[i].rotation as u64 + 16_667) % 1_000_000
    );
    // a cell within the radius has positive intensity
    let j = index_from_grid_coord(6, 5, 10) as usize;
    assert!(g.entities[j].intensity.num > 0);
    // entities outside the rectangle are untouched
    for y in 0..10u32 {
        for x in 0..10u32 {
            let k = index_from_grid_coord(x, y, 10) as usize;
            let inside = rect.x_beg <= x && x <= rect.x_end && rect.y_beg <= y && y <= rect.y_end;
            if !inside {
                assert_eq!(g.entities[k].rotation, before[k].rotation);
                assert_eq!(g.entities[k].intensity.num, before[k].intensity.num);
            }
        }
    }
    // the reset pass puts every touched entity back at the idle intensity,
    // keeping the advanced rotation
    let rotated = g.entities[i].rotation;
    g.reset_range(rect);
    assert_eq!(g.entities[i].intensity.num, 0);
    assert_eq!(g.entities[i].rotation, rotated);
    for e in &g.entities {
        assert_eq!(e.intensity.num, 0);
    }
}

#[test]
fn upload_ranges_one_per_row() {
    let mut rng = rng_from_seed(3);
    let mut g = QuadGrid::generate(100, &mut rng);
    let (px, py) = pos_from_grid_coord(4, 4, 10);
    let rect = g.reactive_update(px, py, 40, 0);
    // 240 bytes per quad: 4 vertices of 15 floats
    let ranges = row_upload_ranges(rect, 10, 240);
    assert_eq!(ranges.len(), (rect.y_end - rect.y_beg + 1) as usize);
    for (k, r) in ranges.iter().enumerate() {
        let row = rect.y_beg as u64 + k as u64;
        assert_eq!(r.offset, (row * 10 + rect.x_beg as u64) * 240);
        assert_eq!(r.len, (rect.x_end - rect.x_beg + 1) as u64 * 240);
        // within the buffer of 100 quads
        assert!(r.offset + r.len <= 100 * 240);
        // strictly after the previous row's range
        if k > 0 {
            assert!(ranges[k - 1].offset + ranges[k - 1].len <= r.offset);
        }
    }
}

#[test]
fn chain_sizes_follow_divisors() {
    let sizes = chain_sizes(1280, 720);
    assert_eq!(
        sizes,
        vec![(640, 360), (320, 180), (160, 90), (80, 45), (40, 22), (20, 11)]
    );
}

#[test]
fn kawase_plan_counts_match_layers() {
    for layers in 0..=5usize {
        let mut p = KawaseParams::new();
        p.on_key(BlurKey::LayersDown);
        assert_eq!(p.layers, 0);
        for _ in 0..layers {
            p.on_key(BlurKey::LayersUp);
        }
        assert_eq!(p.layers, layers);
        let plan = kawase_plan(&p);
        let downs = plan.iter().filter(|q| q.kind == PassKind::Down).count();
        let ups = plan.iter().filter(|q| q.kind == PassKind::Up).count();
        assert_eq!(downs, layers);
        assert_eq!(ups, layers);
        if layers == 0 {
            assert_eq!(plan.len(), 1);
            assert_eq!(plan[0].source, PassSource::Original);
            assert_eq!(plan[0].dest, PassDest::Screen);
        } else {
            assert_eq!(plan.len(), 2 * layers + 2);
            assert_eq!(plan[0].kind, PassKind::Seed);
            assert_eq!(plan[plan.len() - 1].kind, PassKind::Blit);
            assert_eq!(plan[plan.len() - 1].source, PassSource::Level(0));
        }
    }
}

#[test]
fn kawase_plan_writes_before_reads() {
    let mut p = KawaseParams::new();
    p.on_key(BlurKey::LayersUp);
    p.on_key(BlurKey::LayersUp);
    let plan = kawase_plan(&p);
    for (j, pass) in plan.iter().enumerate() {
        match pass.source {
            PassSource::Original => {}
            level => {
                let written = plan[..j].iter().any(|q| match (q.dest, level) {
                    (PassDest::Level(a), PassSource::Level(b)) => a == b,
                    (PassDest::Scratch(a), PassSource::Scratch(b)) => a == b,
                    _ => false,
                });
                assert!(written, "pass {} reads an unwritten target", j);
            }
        }
    }
}

#[test]
fn kawase_params_clamp_at_bounds() {
    let mut p = KawaseParams::new();
    for _ in 0..1000 {
        p.on_key(BlurKey::RadiusUp);
    }
    assert_eq!(p.radius_tenths, 320);
    for _ in 0..1000 {
        p.on_key(BlurKey::RadiusDown);
    }
    assert_eq!(p.radius_tenths, 2);
    for _ in 0..1000 {
        p.on_key(BlurKey::LayersUp);
    }
    assert_eq!(p.layers, 5);
    for _ in 0..1000 {
        p.on_key(BlurKey::LayersDown);
    }
    assert_eq!(p.layers, 0);
    assert!(!p.dithered);
    p.on_key(BlurKey::ToggleDither);
    assert!(p.dithered);
}

#[test]
fn ping_pong_plan_counts() {
    let p = PingPongParams::new();
    assert_eq!((p.kernel, p.radius_tenths, p.layers), (5, 20, 4));
    let plan = ping_pong_plan(&p);
    // two sub-passes per logical level: 4 down levels, 3 up levels
    let downs = plan.iter().filter(|q| q.kind == PassKind::Down).count();
    let ups = plan.iter().filter(|q| q.kind == PassKind::Up).count();
    assert_eq!(downs, 8);
    assert_eq!(ups, 6);
    assert_eq!(plan.len(), 16);
    assert_eq!(plan[plan.len() - 1].kind, PassKind::Blit);
}

#[test]
fn ping_pong_params_clamp() {
    let mut p = PingPongParams::new();
    for _ in 0..100 {
        p.on_key(BlurKey::KernelUp);
    }
    assert_eq!(p.kernel, 64);
    for _ in 0..100 {
        p.on_key(BlurKey::KernelDown);
    }
    assert_eq!(p.kernel, 0);
    for _ in 0..100 {
        p.on_key(BlurKey::RadiusDown);
    }
    assert_eq!(p.radius_tenths, 0);
    p.on_key(BlurKey::ToggleDiagonal);
    assert!(p.diagonal);
}

#[test]
fn controller_scroll_moves_only_the_target() {
    let mut c = SceneController::new(&rat(1, 1), &rat(1, 2));
    assert!(is_int(&c.camera.scale.x, 1));
    assert!(is_int(&c.hard_scale.x, 1));
    // a wheel notch at speed 1/2 doubles the target scale
    c.interact(&InputEvent::Scroll { factor: rat(2, 1) });
    assert!(is_int(&c.hard_scale.x, 2));
    assert!(is_int(&c.hard_scale.y, 2));
    // the live camera scale is untouched until the next update
    assert!(is_int(&c.camera.scale.x, 1));
    // scrolling far up clamps the target at 64
    for _ in 0..20 {
        c.interact(&InputEvent::Scroll { factor: rat(2, 1) });
    }
    assert!(is_int(&c.hard_scale.x, 64));
    // and far down clamps it at 1/64
    for _ in 0..40 {
        c.interact(&InputEvent::Scroll { factor: rat(1, 2) });
    }
    assert_eq!((c.hard_scale.x.num, c.hard_scale.x.den), (1, 64));
}

#[test]
fn controller_update_eases_and_pans() {
    let mut c = SceneController::new(&rat(1, 1), &rat(1, 2));
    c.interact(&InputEvent::Scroll { factor: rat(2, 1) });
    // a full easing step lands the live scale exactly on the target
    c.update(16_667, &rat(1, 1));
    assert!(is_int(&c.camera.scale.x, 2));
    assert_eq!(c.prev_elapsed_us, 0);
    assert_eq!(c.current_elapsed_us, 16_667);
    assert_eq!(c.dt(), 16_667);
    assert_eq!(c.current_elapsed(), 16_667);
    // a half step closes half the remaining gap: 2 + (4-2)/2 = 3
    c.interact(&InputEvent::Scroll { factor: rat(2, 1) });
    c.update(33_334, &rat(1, 2));
    assert!(is_int(&c.camera.scale.x, 3));
    // press, move 128 px right and 64 px down, update: the camera pans by
    // the pixel delta divided by the new scale (zoom invariant drag)
    c.interact(&InputEvent::Button { pressed: true });
    c.interact(&InputEvent::PointerMoved { x: 128, y: 64 });
    c.update(50_001, &rat(0, 1));
    // scale stays 3 under a zero easing step; pan is 128/3 and 64/3
    assert!(is_int(&c.camera.scale.x, 3));
    // snapped onto the 1/64 grid: round(128/3 * 64) = round(2730.67) = 2731
    assert_eq!((c.camera.position.x.num, c.camera.position.x.den), (2731, 64));
    assert_eq!((c.camera.position.y.num, c.camera.position.y.den), (1365, 64));
    // release: further updates no longer pan
    c.interact(&InputEvent::Button { pressed: false });
    let before = c.camera.position.x.num;
    c.update(66_668, &rat(0, 1));
    assert_eq!(c.camera.position.x.num, before);
}

#[test]
fn entity_vertices_rotated_corners_and_emission() {
    let e = QuadEntity {
        pos_x: 100,
        pos_y: -50,
        size_x: 10,
        size_y: 20,
        rotation: 0,
        border_radius: 2,
        border_width: 3,
        fill_color: 0xffff_ffff,
        stroke_color: 0x8040_4040,
        intensity: rat(1, 2),
    };
    // no rotation: corners are position +/- half the size
    let rotor = Rotor { cos: rat(1, 1), sin: rat(0, 1) };
    let vs = entity_vertices(&e, &rotor);
    assert_eq!(vs.len(), 4);
    let expect = [(95, -60), (95, -40), (105, -40), (105, -60)];
    for (v, &(ex, ey)) in vs.iter().zip(expect.iter()) {
        assert!(is_int(&v.pos.x, ex));
        assert!(is_int(&v.pos.y, ey));
        // emitted emphasis 2*(1/2) + 1/2 = 3/2
        assert_eq!(v.intensity.num * 2, 3 * v.intensity.den);
        assert_eq!(v.size_x, 10);
        assert_eq!(v.fill_color, 0xffff_ffff);
    }
    // a quarter turn maps the corner offset (-5,-10) to (10,-5)
    let quarter = Rotor { cos: rat(0, 1), sin: rat(1, 1) };
    let vs = entity_vertices(&e, &quarter);
    assert!(is_int(&vs[0].pos.x, 110));
    assert!(is_int(&vs[0].pos.y, -55));
    // the idle falloff 0 emits exactly the baseline 1/2
    let idle = QuadEntity { intensity: rat(0, 1), ..e };
    let vs = entity_vertices(&idle, &rotor);
    assert_eq!(vs[0].intensity.num * 2, vs[0].intensity.den);
}

#[test]
fn indices_follow_quad_index() {
    assert_eq!(indices_for_quad(0), vec![0, 1, 2, 0, 2, 3]);
    assert_eq!(indices_for_quad(3), vec![12, 13, 14, 12, 14, 15]);
}

#[test]
fn final_blit_carries_the_dither_choice() {
    let mut p = KawaseParams::new();
    p.on_key(BlurKey::ToggleDither);
    let plan = kawase_plan(&p);
    assert!(plan[plan.len() - 1].dithered);
    assert!(plan[..plan.len() - 1].iter().all(|q| !q.dithered));
    p.on_key(BlurKey::ToggleDither);
    let plan = kawase_plan(&p);
    assert!(!plan[plan.len() - 1].dithered);

    let mut pp = PingPongParams::new();
    pp.on_key(BlurKey::ToggleDither);
    let plan = ping_pong_plan(&pp);
    assert!(plan[plan.len() - 1].dithered);
    assert!(plan[..plan.len() - 1].iter().all(|q| !q.dithered));
}

#[test]
fn pointer_world_units_quantizes() {
    let cam = test_camera();
    let viewport = V2 { x: rat(800, 1), y: rat(600, 1) };
    // the viewport center maps to the world origin for this camera
    let w = cam.pointer_world_units(&V2 { x: rat(400, 1), y: rat(300, 1) }, &viewport);
    assert_eq!(w, (0, 0));
}
