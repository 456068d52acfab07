use raycaster::angle::normalize_angle;
use raycaster::canvas::{Canvas, Color, DrawOp};
use raycaster::fixed::div_trunc;
use raycaster::grid::Grid;
use raycaster::player::{key_down, key_up, Player};
use raycaster::{CELL, FP, FULL_TURN, MAP_HEIGHT, MAP_WIDTH};

const HALF_CELL: i64 = CELL / 2;

/// An 11x15 map with a solid wall border and an open interior.
fn bordered_grid() -> Grid {
    let mut rows: Vec<Vec<u8>> = Vec::new();
    for r in 0..11 {
        let mut row: Vec<u8> = Vec::new();
        for c in 0..15 {
            row.push(if r == 0 || r == 10 || c == 0 || c == 14 { 1 } else { 0 });
        }
        rows.push(row);
    }
    Grid::from_cells(rows).expect("the bordered map is well formed")
}

#[test]
fn wall_everywhere_outside_bounds() {
    let g = Grid::new();
    let open_x = CELL + HALF_CELL;
    let open_y = CELL + HALF_CELL;
    assert!(!g.has_wall(open_x, open_y));
    assert!(g.has_wall(-1, open_y));
    assert!(g.has_wall(open_x, -1));
    assert!(g.has_wall(MAP_WIDTH + 1, open_y));
    assert!(g.has_wall(open_x, MAP_HEIGHT + 1));
    assert!(g.has_wall(-FP, MAP_HEIGHT / 2));
    assert!(g.has_wall(i64::MIN / 4, i64::MIN / 4));
}

#[test]
fn wall_matches_stored_cells() {
    let g = Grid::new();
    // Row 0, column 0 stores a wall; row 0, column 12 is the opening.
    assert!(g.has_wall(HALF_CELL, HALF_CELL));
    assert!(!g.has_wall(12 * CELL + HALF_CELL, HALF_CELL));
    // Row 2, column 5 stores a wall; row 2, column 6 is open.
    assert!(g.has_wall(5 * CELL + HALF_CELL, 2 * CELL + HALF_CELL));
    assert!(!g.has_wall(6 * CELL + HALF_CELL, 2 * CELL + HALF_CELL));
    // Row 10 is the bottom border.
    assert!(g.has_wall(7 * CELL + HALF_CELL, 10 * CELL + HALF_CELL));
    // A point exactly on a cell boundary belongs to the cell it opens.
    assert!(!g.has_wall(CELL, CELL));
    // The far right edge has no stored column, so it counts as blocked.
    assert!(g.has_wall(MAP_WIDTH, CELL + HALF_CELL));
}

#[test]
fn from_cells_validates_shape_and_values() {
    assert!(Grid::from_cells(vec![vec![0u8; 15]; 11]).is_some());
    assert!(Grid::from_cells(vec![vec![0u8; 15]; 10]).is_none());
    let mut short_row = vec![vec![0u8; 15]; 11];
    short_row[4] = vec![0u8; 14];
    assert!(Grid::from_cells(short_row).is_none());
    let mut bad_value = vec![vec![0u8; 15]; 11];
    bad_value[3][7] = 2;
    assert!(Grid::from_cells(bad_value).is_none());
}

#[test]
fn normalize_angle_is_idempotent() {
    for a in [0i64, 1, 719, 720, 1440, 2160, 2879] {
        assert_eq!(normalize_angle(a), a);
        assert_eq!(normalize_angle(normalize_angle(a)), normalize_angle(a));
    }
    assert_eq!(normalize_angle(FULL_TURN), 0);
    assert_eq!(normalize_angle(-1), FULL_TURN - 1);
    assert_eq!(normalize_angle(-FULL_TURN), 0);
    for a in [-5000i64, -1, 0, 37, 2879, 2880, 100000] {
        assert_eq!(normalize_angle(a + FULL_TURN), normalize_angle(a));
        assert_eq!(normalize_angle(normalize_angle(a)), normalize_angle(a));
    }
}

#[test]
fn player_starts_at_map_centre_height() {
    let p = Player::new();
    assert_eq!(p.x, MAP_HEIGHT / 2);
    assert_eq!(p.y, MAP_HEIGHT / 2);
    assert_eq!(p.angle, 2832);
    assert_eq!(p.moving_speed, FP);
    assert_eq!(p.turning_speed, 24);
    assert_eq!(p.direction, 0);
    assert_eq!(p.turning_direction, 0);
}

#[test]
fn key_events_drive_intent() {
    let mut p = Player::new();
    key_down(&mut p, "W");
    assert_eq!(p.direction, 1);
    key_down(&mut p, "S");
    assert_eq!(p.direction, -1);
    key_down(&mut p, "A");
    assert_eq!(p.turning_direction, -1);
    key_down(&mut p, "D");
    assert_eq!(p.turning_direction, 1);
    key_down(&mut p, "X");
    assert_eq!(p.direction, -1);
    assert_eq!(p.turning_direction, 1);
    key_down(&mut p, "SHIFT");
    assert_eq!(p.direction, -1);
    key_up(&mut p, "W");
    assert_eq!(p.direction, 0);
    key_down(&mut p, "W");
    key_up(&mut p, "S");
    assert_eq!(p.direction, 0);
    key_up(&mut p, "A");
    assert_eq!(p.turning_direction, 0);
    key_down(&mut p, "D");
    key_up(&mut p, "D");
    assert_eq!(p.turning_direction, 0);
    key_up(&mut p, "Q");
    assert_eq!(p.direction, 0);
    assert_eq!(p.turning_direction, 0);
}

#[test]
fn forward_key_walks_until_blocked_and_released() {
    let g = bordered_grid();
    let mut p = Player::new();
    p.x = 7 * CELL + HALF_CELL;
    p.y = 5 * CELL + HALF_CELL;
    p.angle = 0;
    key_down(&mut p, "W");
    assert_eq!(p.direction, 1);
    p.update(&g, FP, 0);
    assert_eq!(p.x, 7 * CELL + HALF_CELL + FP);
    assert_eq!(p.y, 5 * CELL + HALF_CELL);
    p.update(&g, FP, 0);
    assert_eq!(p.x, 7 * CELL + HALF_CELL + 2 * FP);
    // At the edge of the border wall the candidate point is blocked.
    p.x = 14 * CELL - FP;
    p.update(&g, FP, 0);
    assert_eq!(p.x, 14 * CELL - FP);
    assert_eq!(p.y, 5 * CELL + HALF_CELL);
    key_up(&mut p, "W");
    assert_eq!(p.direction, 0);
    p.x = 7 * CELL + HALF_CELL;
    p.update(&g, FP, 0);
    assert_eq!(p.x, 7 * CELL + HALF_CELL);
}

#[test]
fn update_never_enters_a_wall_cell() {
    let g = Grid::new();
    let mut p = Player::new();
    p.x = 4 * CELL + HALF_CELL;
    p.y = 2 * CELL + HALF_CELL;
    p.angle = 0;
    p.direction = 1;
    for _ in 0..200 {
        p.update(&g, FP, 0);
        assert!(!g.has_wall(p.x, p.y));
    }
}

#[test]
fn backward_direction_steps_the_other_way() {
    let g = bordered_grid();
    let mut p = Player::new();
    p.x = 7 * CELL + HALF_CELL;
    p.y = 5 * CELL + HALF_CELL;
    p.angle = 0;
    p.direction = -1;
    p.update(&g, FP, 0);
    assert_eq!(p.x, 7 * CELL + HALF_CELL - FP);
}

#[test]
fn turning_adds_turning_speed_and_renormalizes() {
    let g = bordered_grid();
    let mut p = Player::new();
    p.x = 7 * CELL + HALF_CELL;
    p.y = 5 * CELL + HALF_CELL;
    p.angle = 2870;
    p.turning_direction = 1;
    p.update(&g, FP, 0);
    assert_eq!(p.angle, (2870 + 24) % 2880);
    p.turning_direction = -1;
    p.angle = 10;
    p.update(&g, FP, 0);
    assert_eq!(p.angle, 2880 + 10 - 24);
}

#[test]
fn odd_intent_values_are_inert() {
    let g = bordered_grid();
    let mut p = Player::new();
    p.x = 7 * CELL + HALF_CELL;
    p.y = 5 * CELL + HALF_CELL;
    p.angle = 0;
    p.direction = 3;
    p.turning_direction = -7;
    p.update(&g, FP, 0);
    assert_eq!(p.x, 7 * CELL + HALF_CELL);
    assert_eq!(p.angle, 0);
}

#[test]
fn canvas_records_commands_in_order() {
    let mut c = Canvas::new();
    assert_eq!(c.ops.len(), 0);
    raycaster::canvas::clear(&mut c);
    raycaster::canvas::rect(&mut c, 0, 0, CELL, CELL);
    raycaster::canvas::fill(&mut c, Color::White);
    raycaster::canvas::stroke(&mut c, Color::Black);
    raycaster::canvas::circle(&mut c, FP, 2 * FP, 3 * FP);
    raycaster::canvas::line(&mut c, 0, 0, FP, FP);
    raycaster::canvas::fill(&mut c, Color::Red);
    assert_eq!(
        c.ops,
        vec![
            DrawOp::Clear,
            DrawOp::Rect { x: 0, y: 0, width: CELL, height: CELL },
            DrawOp::Fill { color: Color::White },
            DrawOp::Stroke { color: Color::Black },
            DrawOp::Circle { x: FP, y: 2 * FP, radius: 3 * FP },
            DrawOp::Line { x1: 0, y1: 0, x2: FP, y2: FP },
            DrawOp::Fill { color: Color::Red },
        ]
    );
}

#[test]
fn grid_render_emits_three_commands_per_cell() {
    let g = Grid::new();
    let mut c = Canvas::new();
    g.render(&mut c);
    assert_eq!(c.ops.len(), 11 * 15 * 3);
    assert_eq!(c.ops[0], DrawOp::Rect { x: 0, y: 0, width: CELL, height: CELL });
    assert_eq!(c.ops[1], DrawOp::Fill { color: Color::Black });
    assert_eq!(c.ops[2], DrawOp::Stroke { color: Color::Black });
    // Row 0, column 12 is the opening: white fill.
    let open = (0 * 15 + 12) * 3;
    assert_eq!(c.ops[open], DrawOp::Rect { x: 12 * CELL, y: 0, width: CELL, height: CELL });
    assert_eq!(c.ops[open + 1], DrawOp::Fill { color: Color::White });
    // Row 1, column 1 is open interior.
    let interior = (1 * 15 + 1) * 3;
    assert_eq!(c.ops[interior + 1], DrawOp::Fill { color: Color::White });
}

#[test]
fn player_render_draws_indicator_and_marker() {
    let p = Player::new();
    let mut c = Canvas::new();
    p.render(&mut c, FP, 0);
    assert_eq!(
        c.ops,
        vec![
            DrawOp::Line { x1: p.x, y1: p.y, x2: p.x + FP * 20, y2: p.y },
            DrawOp::Stroke { color: Color::Blue },
            DrawOp::Circle { x: p.x, y: p.y, radius: 3 * FP },
            DrawOp::Fill { color: Color::Blue },
        ]
    );
}

#[test]
fn div_trunc_rounds_toward_zero() {
    assert_eq!(div_trunc(7, 2), 3);
    assert_eq!(div_trunc(-7, 2), -3);
    assert_eq!(div_trunc(7, -2), -3);
    assert_eq!(div_trunc(-7, -2), 3);
    assert_eq!(div_trunc(6, 3), 2);
    assert_eq!(div_trunc(0, 5), 0);
}
