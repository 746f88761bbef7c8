use ascii_tree::fx::{fx_cos, fx_mul, fx_sin};
use ascii_tree::pipeline::render_frame;
use ascii_tree::project::{adjust_color, rotate, sat_add, ProjPoint};
use ascii_tree::raster::{final_channel, paint, sort_by_depth, sparkle, Grid};
use ascii_tree::rng::Rng;
use ascii_tree::scene::{generate_scene, visible, visible_points, Point3D, PointKind};
use ascii_tree::snow::{snow_step, update_snow, SnowFlake};
use ascii_tree::state::{apply_key, tick, AnimState, KeyEvent};

fn scene(zooming: bool, zoom: i64, time: i64) -> Vec<Point3D> {
    let mut rng = Rng::new(777);
    generate_scene(zooming, zoom, time, &mut rng)
}

#[test]
fn rng_same_seed_same_sequence() {
    let mut a = Rng::new(42);
    let mut b = Rng::new(42);
    for _ in 0..100 {
        assert_eq!(a.next_unit(), b.next_unit());
    }
}

#[test]
fn rng_draws_stay_in_unit_range() {
    let mut a = Rng::new(999);
    for _ in 0..1000 {
        let v = a.next_unit();
        assert!((0..1000).contains(&v));
    }
}

#[test]
fn scene_generation_is_deterministic() {
    let first = scene(false, 0, 1234);
    let second = scene(false, 0, 1234);
    assert_eq!(first, second);
    let third = scene(true, 500, 987);
    let fourth = scene(true, 500, 987);
    assert_eq!(third, fourth);
}

#[test]
fn thresholds_lie_in_unit_interval() {
    for p in scene(true, 500, 0) {
        assert!((0..=1000).contains(&p.birth_threshold));
        assert!((0..=1000).contains(&p.lod_level));
    }
}

#[test]
fn birth_gate_boundary_is_included() {
    let mut p = scene(false, 0, 0)[0];
    p.birth_threshold = 500;
    p.lod_level = 0;
    assert!(visible(&p, 500, 0));
    assert!(!visible(&p, 499, 0));
}

#[test]
fn zoom_gate_has_forward_bias() {
    let mut p = scene(false, 0, 0)[0];
    p.birth_threshold = 0;
    p.lod_level = 600;
    assert!(visible(&p, 0, 500));
    assert!(!visible(&p, 0, 499));
}

#[test]
fn visible_set_respects_both_gates() {
    let pts = scene(false, 0, 0);
    let vis = visible_points(&pts, 300, 0);
    for p in &vis {
        assert!(p.birth_threshold <= 300);
        assert!(p.lod_level <= 100);
    }
    let expected = pts
        .iter()
        .filter(|p| p.birth_threshold <= 300 && p.lod_level <= 100)
        .count();
    assert_eq!(vis.len(), expected);
}

#[test]
fn early_growth_shows_trunk_not_foliage() {
    let pts = scene(false, 0, 0);
    let vis = visible_points(&pts, 50, 0);
    assert!(vis.iter().any(|p| matches!(p.kind, PointKind::Trunk) && p.birth_threshold == 0));
    assert!(!vis.iter().any(|p| matches!(p.kind, PointKind::Foliage { .. })));
}

#[test]
fn star_density_depends_on_zoom_flag() {
    let low = scene(false, 0, 0);
    let stars = low
        .iter()
        .filter(|p| matches!(p.kind, PointKind::Star { .. }))
        .count();
    assert_eq!(stars, 15 * 180);
    let high = scene(true, 0, 0);
    let dense = high
        .iter()
        .filter(|p| matches!(p.kind, PointKind::Star { .. }))
        .count();
    assert_eq!(dense, 15 * 900);
}

#[test]
fn greeting_needs_zoom_strictly_over_a_tenth() {
    let at_boundary = scene(false, 100, 0);
    assert!(!at_boundary
        .iter()
        .any(|p| matches!(p.kind, PointKind::Greeting { .. })));
    let past = scene(false, 101, 0);
    let greetings = past
        .iter()
        .filter(|p| matches!(p.kind, PointKind::Greeting { .. }))
        .count();
    assert_eq!(greetings, 15);
}

#[test]
fn dense_star_faces_carry_lod() {
    let dense = scene(true, 0, 0);
    for p in &dense {
        if matches!(p.kind, PointKind::Star { .. }) {
            assert_eq!(p.lod_level, 400);
            assert_eq!(p.birth_threshold, 850);
        }
    }
    let sparse = scene(false, 0, 0);
    for p in &sparse {
        if matches!(p.kind, PointKind::Star { .. }) {
            assert_eq!(p.lod_level, 0);
        }
    }
}

#[test]
fn trig_matches_known_values() {
    assert_eq!(fx_sin(0), 0);
    assert_eq!(fx_sin(1571), 999);
    assert_eq!(fx_sin(1571 + 3141), -999);
    assert_eq!(fx_cos(0), 999);
    assert_eq!(fx_sin(-1571), -999);
    assert_eq!(fx_mul(500, 500), 250);
    assert_eq!(fx_mul(-500, 500), -250);
}

#[test]
fn identity_rotation_keeps_coordinates() {
    let r = rotate(1000, 2000, 3000, 0, 1000, 0, 1000);
    assert_eq!(r, (1000, 2000, 3000));
}

#[test]
fn quarter_turn_about_y_swaps_x_and_z() {
    // With sin = 1, cos = 0 the X axis maps onto Z and back.
    let r = rotate(1000, 0, 0, 0, 1000, 1000, 0);
    assert_eq!(r, (0, 0, -1000));
}

#[test]
fn channel_saturates_at_both_ends() {
    assert_eq!(sat_add(250, 25), 255);
    assert_eq!(sat_add(10, -25), 0);
    assert_eq!(sat_add(100, 25), 125);
    assert_eq!(final_channel(200, 1400), 255);
    assert_eq!(final_channel(200, 50), 20);
    assert_eq!(final_channel(200, 1000), 200);
    assert_eq!(final_channel(255, 10_000), 255);
}

#[test]
fn ornament_palette_cycles_with_time() {
    let base = scene(false, 0, 0);
    let mut p = base[0];
    p.kind = PointKind::Foliage {
        ornament: true,
        ornament_id: 0,
    };
    assert_eq!(adjust_color(&p, 0), (255, 60, 60));
    assert_eq!(adjust_color(&p, 250), (60, 180, 255));
    assert_eq!(adjust_color(&p, 500), (255, 215, 0));
    assert_eq!(adjust_color(&p, 750), (100, 255, 100));
    assert_eq!(adjust_color(&p, 1000), (255, 60, 60));
}

fn probe_point(pz: i64, r: u8, ch: char) -> ProjPoint {
    ProjPoint {
        px: 0,
        py: 0,
        pz,
        r,
        g: 0,
        b: 0,
        ch,
        bright: false,
        star: false,
        snow: false,
        greeting: false,
    }
}

#[test]
fn nearer_point_wins_the_cell() {
    // Two points land on the same cell; whatever their generation order, the
    // one with the smaller depth is what the cell finally shows.
    let far = probe_point(100, 10, 'f');
    let near = probe_point(-100, 20, 'n');
    for pts in [vec![far, near], vec![near, far]] {
        let sorted = sort_by_depth(pts);
        let mut grid = Grid::new(11, 11);
        paint(&mut grid, &sorted, 1000, 0);
        let cell = grid.cells[5 * 11 + 5];
        assert_eq!(cell.ch, 'n');
    }
}

#[test]
fn sort_orders_by_descending_depth() {
    let pts = vec![
        probe_point(5, 0, 'a'),
        probe_point(-3, 0, 'b'),
        probe_point(9, 0, 'c'),
        probe_point(0, 0, 'd'),
    ];
    let sorted = sort_by_depth(pts);
    let depths: Vec<i64> = sorted.iter().map(|p| p.pz).collect();
    assert_eq!(depths, vec![9, 5, 0, -3]);
}

#[test]
fn depth_zero_keeps_the_base_color() {
    // At depth 0 the intensity factor is exactly 1, so the painted cell holds
    // the point's own color.
    let p = probe_point(0, 123, 'x');
    let mut grid = Grid::new(11, 11);
    paint(&mut grid, &vec![p], 1000, 0);
    let cell = grid.cells[5 * 11 + 5];
    assert_eq!(cell.ch, 'x');
    assert_eq!(cell.r, 123);
}

#[test]
fn out_of_bounds_points_are_clipped() {
    let mut p = probe_point(0, 1, 'y');
    p.px = 700_000;
    let mut grid = Grid::new(11, 11);
    paint(&mut grid, &vec![p], 1000, 0);
    assert!(grid.cells.iter().all(|c| c.ch == ' '));
}

#[test]
fn sparkle_is_gated_behind_deep_zoom() {
    let mut p = probe_point(0, 9, 'q');
    p.star = true;
    let mut rng = Rng::new(7);
    let mut grid = Grid::new(11, 11);
    paint(&mut grid, &vec![p], 1000, 0);
    let before: Vec<char> = grid.cells.iter().map(|c| c.ch).collect();
    sparkle(&mut grid, &vec![p], 1000, 800, &mut rng);
    let after: Vec<char> = grid.cells.iter().map(|c| c.ch).collect();
    assert_eq!(before, after);
}

#[test]
fn snow_wraps_from_floor_to_ceiling() {
    let mut f = SnowFlake {
        x: 0,
        y: -9_990,
        z: 0,
        drift: 0,
        speed: 20,
    };
    let wrapped = snow_step(&mut f, 0);
    assert!(wrapped);
    assert_eq!(f.y, 10_000);
    // A step never leaves the height below the floor.
    let mut g = SnowFlake {
        x: 0,
        y: -9_990,
        z: 0,
        drift: 0,
        speed: 10,
    };
    assert!(!snow_step(&mut g, 0));
    assert_eq!(g.y, -10_000);
}

#[test]
fn snow_scenario_hundred_steps() {
    // One flake at (0, 10, 0), no drift, speed 0.1: after 100 steps with
    // growth complete its height is exactly 0 and it never wrapped.
    let mut snow = vec![SnowFlake {
        x: 0,
        y: 10_000,
        z: 0,
        drift: 0,
        speed: 100,
    }];
    let mut wraps = 0;
    for _ in 0..100 {
        wraps += update_snow(&mut snow, 1000, 0);
    }
    assert_eq!(snow[0].y, 0);
    assert_eq!(wraps, 0);
    assert_eq!(snow[0].x, 0);
}

#[test]
fn snow_is_gated_behind_growth() {
    let mut snow = vec![SnowFlake {
        x: 0,
        y: 10_000,
        z: 0,
        drift: 0,
        speed: 100,
    }];
    let wraps = update_snow(&mut snow, 999, 0);
    assert_eq!(wraps, 0);
    assert_eq!(snow[0].y, 10_000);
}

#[test]
fn growth_ramp_follows_elapsed_time() {
    let mut s = AnimState::new(Vec::new());
    apply_key(&mut s, KeyEvent::StartGrow);
    tick(&mut s, 2250);
    assert_eq!(s.growth, 500);
    tick(&mut s, 4500);
    assert_eq!(s.growth, 1000);
    tick(&mut s, 9000);
    assert_eq!(s.growth, 1000);
}

#[test]
fn zoom_toggle_needs_grown_tree() {
    let mut s = AnimState::new(Vec::new());
    apply_key(&mut s, KeyEvent::ToggleZoom);
    assert!(!s.is_zooming);
    s.growth = 900;
    apply_key(&mut s, KeyEvent::ToggleZoom);
    assert!(s.is_zooming);
    tick(&mut s, 0);
    assert_eq!(s.zoom, 50);
}

#[test]
fn keys_edit_input_and_turn_camera() {
    let mut s = AnimState::new(Vec::new());
    let before = s.input.len();
    apply_key(&mut s, KeyEvent::Insert { ch: '!' });
    assert_eq!(s.input.len(), before + 1);
    assert_eq!(*s.input.last().unwrap(), '!');
    apply_key(&mut s, KeyEvent::Backspace);
    assert_eq!(s.input.len(), before);
    apply_key(&mut s, KeyEvent::Left);
    assert_eq!(s.angle_y, -150);
    apply_key(&mut s, KeyEvent::Down);
    assert_eq!(s.angle_x, 350);
}

#[test]
fn render_smoke_draws_something() {
    let mut s = AnimState::new(Vec::new());
    s.growth = 300;
    let grid = render_frame(&s, 0, 40, 20);
    assert_eq!(grid.width, 40);
    assert_eq!(grid.height, 20);
    assert_eq!(grid.cells.len(), 800);
    assert!(grid.cells.iter().any(|c| c.ch != ' '));
}
