use raycaster::angle::normalize_angle;
use raycaster::canvas::{Canvas, Color, DrawOp};
use raycaster::grid::Grid;
use raycaster::player::key_down;
use raycaster::ray::{distance_between_points, Ray};
use raycaster::scene::{build_ray_fan, draw, update, Scene};
use raycaster::trig::{inv_tan_from, tan_from, TrigTable};
use raycaster::{
    ANGLE_STEP, CELL, FIELD_OF_VIEW, FP, FULL_TURN, HALF_TURN, MAP_HEIGHT, MAP_WIDTH,
    QUARTER_TURN, SCREEN_COLUMNS, THREE_QUARTER_TURN,
};

const HALF_CELL: i64 = CELL / 2;

/// Fixed-point cosine and sine samples for every angle unit, computed
/// with floating point by the test host.
fn trig_table() -> TrigTable {
    let mut cos: Vec<i64> = Vec::new();
    let mut sin: Vec<i64> = Vec::new();
    for i in 0..FULL_TURN {
        let rad = (i as f64) * std::f64::consts::PI / (HALF_TURN as f64);
        cos.push((rad.cos() * (FP as f64)).round() as i64);
        sin.push((rad.sin() * (FP as f64)).round() as i64);
    }
    TrigTable::new(cos, sin).expect("the samples fit the table's bounds")
}

/// An 11x15 map with a solid wall border and an open interior.
fn bordered_grid() -> Grid {
    let mut rows: Vec<Vec<u8>> = Vec::new();
    for r in 0..11 {
        let mut row: Vec<u8> = Vec::new();
        for c in 0..15 {
            row.push(if r == 0 || r == 10 || c == 0 || c == 14 { 1 } else { 0 });
        }
        rows.push(row);
    }
    Grid::from_cells(rows).expect("the bordered map is well formed")
}

#[test]
fn trig_table_validates_shape_and_bounds() {
    let t = trig_table();
    assert_eq!(t.cos.len(), FULL_TURN as usize);
    assert_eq!(t.cos[0], FP);
    assert_eq!(t.sin[0], 0);
    assert_eq!(t.cos[QUARTER_TURN as usize], 0);
    assert_eq!(t.sin[QUARTER_TURN as usize], FP);
    assert_eq!(t.cos[HALF_TURN as usize], -FP);
    assert_eq!(t.sin[HALF_TURN as usize], 0);
    assert_eq!(t.sin[THREE_QUARTER_TURN as usize], -FP);
    assert!(TrigTable::new(vec![0; 10], vec![0; 10]).is_none());
    let mut cos = vec![0i64; FULL_TURN as usize];
    let sin = vec![0i64; FULL_TURN as usize];
    cos[5] = FP + 1;
    assert!(TrigTable::new(cos, sin).is_none());
}

#[test]
fn slope_ratios_from_samples() {
    // A diagonal angle has tangent and cotangent one.
    assert_eq!(tan_from(FP, FP), Some(FP));
    assert_eq!(inv_tan_from(FP, FP), Some(FP));
    // An axis-aligned ray loses the ratio whose denominator sample is 0.
    assert_eq!(tan_from(0, FP), None);
    assert_eq!(inv_tan_from(FP, 0), None);
    assert_eq!(tan_from(FP, 0), Some(0));
    assert_eq!(inv_tan_from(0, FP), Some(0));
    // Signs carry through.
    assert_eq!(tan_from(-FP, FP), Some(-FP));
    assert_eq!(inv_tan_from(FP, -FP), Some(-FP));
}

#[test]
fn new_ray_normalizes_and_derives_facing() {
    let east = Ray::new(0);
    assert_eq!(east.angle, 0);
    assert!(east.facing_down && east.facing_right);
    assert!(!east.facing_up && !east.facing_left);
    let south = Ray::new(QUARTER_TURN);
    assert!(south.facing_down && south.facing_left);
    let west = Ray::new(HALF_TURN);
    assert!(west.facing_down && west.facing_left);
    let north = Ray::new(THREE_QUARTER_TURN);
    assert!(north.facing_up && north.facing_left);
    let past_north = Ray::new(THREE_QUARTER_TURN + 1);
    assert!(past_north.facing_up && past_north.facing_right);
    let wrapped = Ray::new(-1);
    assert_eq!(wrapped.angle, FULL_TURN - 1);
    assert!(wrapped.facing_up && wrapped.facing_right);
    let full = Ray::new(FULL_TURN + 5);
    assert_eq!(full.angle, 5);
}

#[test]
fn corridor_distance_is_cells_times_cell_size() {
    // The player stands on a grid line over an open column seven cells
    // deep; the ray straight down must hit the bottom border wall.
    let g = bordered_grid();
    let t = trig_table();
    let px = 7 * CELL + HALF_CELL;
    let py = 3 * CELL;
    let mut ray = Ray::new(QUARTER_TURN);
    assert!(ray.facing_down);
    let cos_a = t.cos_at(ray.angle);
    let sin_a = t.sin_at(ray.angle);
    assert_eq!(cos_a, 0);
    assert_eq!(sin_a, FP);
    let inv_tan = inv_tan_from(cos_a, sin_a);
    let tan = tan_from(cos_a, sin_a);
    assert_eq!(inv_tan, Some(0));
    assert_eq!(tan, None);
    ray.cast(px, py, &g, inv_tan, tan);
    assert!(ray.hit);
    assert_eq!(ray.wall_x, px);
    assert_eq!(ray.wall_y, 10 * CELL);
    assert_eq!(ray.distance, (7 * CELL) as u64);
}

#[test]
fn due_east_ray_hits_right_border() {
    // Map centre, facing east: the ray must reach the right border wall
    // at distance half the map width minus the player's offset into the
    // column of the hit.
    let g = bordered_grid();
    let t = trig_table();
    let px = MAP_WIDTH / 2;
    let py = MAP_HEIGHT / 2;
    let mut ray = Ray::new(0);
    let cos_a = t.cos_at(ray.angle);
    let sin_a = t.sin_at(ray.angle);
    let inv_tan = inv_tan_from(cos_a, sin_a);
    let tan = tan_from(cos_a, sin_a);
    assert_eq!(inv_tan, None);
    assert_eq!(tan, Some(0));
    ray.cast(px, py, &g, inv_tan, tan);
    assert!(ray.hit);
    assert_eq!(ray.wall_x, 14 * CELL);
    assert_eq!(ray.wall_y, py);
    assert_eq!(ray.distance, (14 * CELL - px) as u64);
    assert_eq!(ray.distance, (208 * FP) as u64);
}

#[test]
fn no_hit_keeps_sentinel_distance() {
    // With no walls anywhere in reach both scans run out of steps only
    // by leaving the world, where everything is blocked; but a ray cast
    // with both ratios missing resolves nothing at all.
    let g = bordered_grid();
    let mut ray = Ray::new(0);
    ray.cast(MAP_WIDTH / 2, MAP_HEIGHT / 2, &g, None, None);
    assert!(!ray.hit);
    assert_eq!(ray.wall_x, 0);
    assert_eq!(ray.wall_y, 0);
    assert_eq!(ray.distance, u64::MAX);
}

#[test]
fn diagonal_ray_picks_nearer_candidate() {
    // Facing exactly south-east from a point nearer the bottom border
    // than the right one, the horizontal scan's candidate must win.
    let g = bordered_grid();
    let t = trig_table();
    let a = QUARTER_TURN / 2;
    let px = 7 * CELL;
    let py = 8 * CELL;
    let mut ray = Ray::new(a);
    let cos_a = t.cos_at(ray.angle);
    let sin_a = t.sin_at(ray.angle);
    let inv_tan = inv_tan_from(cos_a, sin_a);
    let tan = tan_from(cos_a, sin_a);
    ray.cast(px, py, &g, inv_tan, tan);
    assert!(ray.hit);
    // The bottom border is two cells down, the right border seven cells
    // across: the hit lies on the bottom border's line.
    assert_eq!(ray.wall_y, 10 * CELL);
}

#[test]
fn ray_render_draws_red_line_to_hit() {
    let g = bordered_grid();
    let t = trig_table();
    let px = MAP_WIDTH / 2;
    let py = MAP_HEIGHT / 2;
    let mut ray = Ray::new(0);
    let cos_a = t.cos_at(ray.angle);
    let sin_a = t.sin_at(ray.angle);
    ray.cast(px, py, &g, inv_tan_from(cos_a, sin_a), tan_from(cos_a, sin_a));
    let mut c = Canvas::new();
    ray.render(&mut c, px, py);
    assert_eq!(
        c.ops,
        vec![
            DrawOp::Line { x1: px, y1: py, x2: 14 * CELL, y2: py },
            DrawOp::Fill { color: Color::Red },
            DrawOp::Stroke { color: Color::Red },
        ]
    );
}

#[test]
fn fan_has_one_ray_per_column_with_even_angles() {
    let s = Scene::new();
    let t = trig_table();
    let fan = build_ray_fan(&s.player, &s.grid, &t);
    assert_eq!(fan.len(), SCREEN_COLUMNS);
    let facing = s.player.angle;
    assert_eq!(fan[0].angle, normalize_angle(facing - FIELD_OF_VIEW / 2));
    assert_eq!(fan[0].angle, 2592);
    assert_eq!(
        fan[SCREEN_COLUMNS - 1].angle,
        normalize_angle(facing + FIELD_OF_VIEW / 2 - ANGLE_STEP)
    );
    assert_eq!(fan[SCREEN_COLUMNS - 1].angle, 191);
    for i in 0..SCREEN_COLUMNS {
        assert_eq!(
            fan[i].angle,
            normalize_angle(facing - FIELD_OF_VIEW / 2 + (i as i64) * ANGLE_STEP)
        );
    }
}

#[test]
fn scene_update_applies_intent() {
    let mut s = Scene::new();
    let t = trig_table();
    let (x0, y0) = (s.player.x, s.player.y);
    update(&mut s, &t);
    assert_eq!((s.player.x, s.player.y), (x0, y0));
    key_down(&mut s.player, "W");
    update(&mut s, &t);
    assert!((s.player.x, s.player.y) != (x0, y0));
    assert!(!s.grid.has_wall(s.player.x, s.player.y));
}

#[test]
fn draw_composes_one_frame_of_commands() {
    let mut s = Scene::new();
    let t = trig_table();
    let mut c = Canvas::new();
    draw(&mut s, &mut c, &t);
    assert_eq!(s.rays.len(), SCREEN_COLUMNS);
    assert_eq!(c.ops.len(), 1 + 11 * 15 * 3 + 4 + SCREEN_COLUMNS * 3);
    assert_eq!(c.ops[0], DrawOp::Clear);
    assert_eq!(c.ops[1], DrawOp::Rect { x: 0, y: 0, width: CELL, height: CELL });
    let marker = 1 + 11 * 15 * 3;
    assert_eq!(c.ops[marker + 1], DrawOp::Stroke { color: Color::Blue });
    assert_eq!(c.ops[marker + 3], DrawOp::Fill { color: Color::Blue });
    let first_ray = marker + 4;
    assert_eq!(c.ops[first_ray + 1], DrawOp::Fill { color: Color::Red });
    // Every ray of the fan from the map's interior hits some wall.
    for ray in &s.rays {
        assert!(ray.hit);
        assert!(ray.distance < u64::MAX);
    }
}

#[test]
fn frames_walk_the_player_forward() {
    let mut s = Scene::new();
    let t = trig_table();
    let x0 = s.player.x;
    key_down(&mut s.player, "W");
    for _ in 0..5 {
        let mut c = Canvas::new();
        draw(&mut s, &mut c, &t);
        assert!(!s.grid.has_wall(s.player.x, s.player.y));
    }
    assert!(s.player.x != x0);
}

#[test]
fn distance_floor_of_euclidean() {
    assert_eq!(distance_between_points(0, 0, 3 * FP, 4 * FP), (5 * FP) as u64);
    assert_eq!(distance_between_points(FP, FP, FP, FP), 0);
    // A unit diagonal: the floor of the scaled square root of two.
    assert_eq!(distance_between_points(0, 0, FP, FP), 92681);
    assert_eq!(distance_between_points(-FP, 0, FP, 0), (2 * FP) as u64);
}
