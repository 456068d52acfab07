//! Rays and the grid march that resolves them against the map.
//!
//! A ray starts at the player, points along a normalized angle, and is
//! resolved by two scans: one that visits the crossings of horizontal
//! grid lines along the ray, one that visits the crossings of vertical
//! grid lines. Each scan starts at the nearest crossing in the ray's
//! direction and advances by a fixed step pair derived from the angle's
//! tangent, asking the grid at every crossing whether the point is
//! blocked; the first blocked point is that scan's candidate. Points on a
//! grid line belong to the cell on their far side, so a scan walking up
//! or left first backs its test point off by one pixel. A scan whose
//! slope ratio is missing (an axis-aligned ray) is skipped, and every
//! scan gives up after a fixed number of steps that comfortably exceeds
//! the map's diagonal in cells, so a march is always bounded. The
//! resolved hit is whichever candidate lies nearer the player, the
//! horizontal one on a tie; with no candidate at all the ray keeps a
//! no-hit marker and the largest representable distance.

use vstd::prelude::*;

use crate::angle::{
    normalize_angle, spec_facing_down, spec_facing_left, spec_facing_right, spec_facing_up,
    spec_normalize_angle,
};
use crate::canvas::{fill, line, stroke, Canvas, Color, DrawOp};
use crate::fixed::{div_trunc, lemma_div_trunc_bound, spec_abs, spec_div_trunc};
use crate::grid::Grid;
use crate::{
    CELL, FP, FULL_TURN, HALF_TURN, MAP_HEIGHT, MAP_NUM_COLS, MAP_NUM_ROWS, MAP_WIDTH,
    QUARTER_TURN, THREE_QUARTER_TURN,
};

verus! {

/// A scan gives up after this many crossings; the map's diagonal spans
/// fewer cells, so a scan that would ever hit has hit by then.
pub const MAX_SCAN_STEPS: u64 = 32;

/// Magnitude bound on a scan's starting coordinates.
pub const SCAN_START_MAX: i64 = 0x100_0000_0000;

/// Magnitude bound on a scan's per-crossing step.
pub const SCAN_STEP_MAX: i64 = 0x40_0000_0000;

/// How much a test point's magnitude can grow per crossing: one step
/// and one nudge.
pub const SCAN_GROWTH: i64 = SCAN_STEP_MAX + FP;

/// Magnitude bound on any coordinate a scan can report.
pub const SCAN_COORD_MAX: i64 = SCAN_START_MAX + 33 * SCAN_GROWTH;

/// One cast ray.
pub struct Ray {
    /// The ray's angle, normalized to `[0, FULL_TURN)`.
    pub angle: i64,
    pub facing_down: bool,
    pub facing_up: bool,
    pub facing_left: bool,
    pub facing_right: bool,
    /// The resolved hit point, in fixed-point world units.
    pub wall_x: i64,
    pub wall_y: i64,
    /// Distance from the cast origin to the hit point, fixed-point;
    /// `u64::MAX` when no scan found a wall.
    pub distance: u64,
    /// Whether either scan found a wall.
    pub hit: bool,
}

/// The ray a given angle produces before casting: the angle normalized,
/// the four facing flags derived from it, and no hit recorded yet.
pub open spec fn spec_new_ray(angle: int) -> Ray {
    let a = spec_normalize_angle(angle);
    Ray {
        angle: a as i64,
        facing_down: spec_facing_down(a),
        facing_up: spec_facing_up(a),
        facing_left: spec_facing_left(a),
        facing_right: spec_facing_right(a),
        wall_x: 0,
        wall_y: 0,
        distance: 0,
        hit: false,
    }
}

/// The first blocked point among the successive test points of a scan,
/// if one occurs within `fuel` crossings. Each crossing first backs the
/// point off by the nudge (one pixel toward the near cell for scans
/// walking up or left, zero otherwise), tests it, and on open ground
/// advances by the step pair.
pub open spec fn spec_march(
    g: Grid,
    x: int,
    y: int,
    nudge_x: int,
    nudge_y: int,
    step_x: int,
    step_y: int,
    fuel: nat,
) -> Option<(int, int)>
    decreases fuel,
{
    if fuel == 0 {
        None
    } else {
        let cx = x + nudge_x;
        let cy = y + nudge_y;
        if g.spec_has_wall(cx, cy) {
            Some((cx, cy))
        } else {
            spec_march(g, cx + step_x, cy + step_y, nudge_x, nudge_y, step_x, step_y, (fuel
                - 1) as nat)
        }
    }
}

/// The horizontal-gridline scan's candidate: from the nearest horizontal
/// grid line above or below the origin, stepping one cell row at a time,
/// with the crossing's x advanced by the cotangent per row. `None` when
/// the cotangent is missing (a horizontal ray never crosses those lines
/// usefully) or nothing blocks within the step limit.
pub open spec fn spec_horz_hit(
    g: Grid,
    px: int,
    py: int,
    down: bool,
    inv_tan: Option<i64>,
) -> Option<(int, int)> {
    match inv_tan {
        Option::None => None,
        Option::Some(it) => {
            let c = CELL as int;
            let y0 = (py / c) * c + if down {
                c
            } else {
                0
            };
            let x0 = px + spec_div_trunc((y0 - py) * (it as int), FP as int);
            let sy = if down {
                c
            } else {
                -c
            };
            let sx0 = spec_div_trunc(c * (it as int), FP as int);
            let sx = if down {
                sx0
            } else {
                -sx0
            };
            let ny = if down {
                0
            } else {
                -(FP as int)
            };
            spec_march(g, x0, y0, 0, ny, sx, sy, MAX_SCAN_STEPS as nat)
        },
    }
}

/// The vertical-gridline scan's candidate: the symmetric procedure over
/// vertical grid lines, with the crossing's y advanced by the tangent
/// per column, its sign forced to match the ray's vertical direction.
pub open spec fn spec_vert_hit(
    g: Grid,
    px: int,
    py: int,
    right: bool,
    down: bool,
    tan: Option<i64>,
) -> Option<(int, int)> {
    match tan {
        Option::None => None,
        Option::Some(t) => {
            let c = CELL as int;
            let x0 = (px / c) * c + if right {
                c
            } else {
                0
            };
            let y0 = py + spec_div_trunc((x0 - px) * (t as int), FP as int);
            let sx = if right {
                c
            } else {
                -c
            };
            let sy0 = spec_div_trunc(c * (t as int), FP as int);
            let sy = if down {
                spec_abs(sy0)
            } else {
                -spec_abs(sy0)
            };
            let nx = if right {
                0
            } else {
                -(FP as int)
            };
            spec_march(g, x0, y0, nx, 0, sx, sy, MAX_SCAN_STEPS as nat)
        },
    }
}

/// Squared Euclidean distance from `(px, py)` to `p`.
pub open spec fn spec_dist_sq(px: int, py: int, p: (int, int)) -> int {
    (p.0 - px) * (p.0 - px) + (p.1 - py) * (p.1 - py)
}

/// The nearer of the two scan candidates, the horizontal one on a tie;
/// a missing candidate always loses, and two missing candidates leave
/// nothing.
pub open spec fn spec_nearest(
    px: int,
    py: int,
    h: Option<(int, int)>,
    v: Option<(int, int)>,
) -> Option<(int, int)> {
    match (h, v) {
        (Option::Some(hp), Option::Some(vp)) => if spec_dist_sq(px, py, hp) <= spec_dist_sq(
            px,
            py,
            vp,
        ) {
            Some(hp)
        } else {
            Some(vp)
        },
        (Option::Some(hp), Option::None) => Some(hp),
        (Option::None, Option::Some(vp)) => Some(vp),
        (Option::None, Option::None) => None,
    }
}

/// The floor of the square root of a nonnegative integer.
pub open spec fn spec_sqrt_floor(n: int) -> int {
    choose|r: int| #![trigger r * r] 0 <= r && r * r <= n && n < (r + 1) * (r + 1)
}

/// The floor of the square root is pinned down by its two defining
/// inequalities.
pub proof fn lemma_sqrt_floor_is(n: int, r: int)
    requires
        0 <= r,
        r * r <= n,
        n < (r + 1) * (r + 1),
    ensures
        spec_sqrt_floor(n) == r,
{
    assert(exists|q: int| #![trigger q * q] 0 <= q && q * q <= n && n < (q + 1) * (q + 1)) by {
        assert(0 <= r && r * r <= n && n < (r + 1) * (r + 1));
    }
    let s = spec_sqrt_floor(n);
    assert(0 <= s && s * s <= n && n < (s + 1) * (s + 1));
    assert(s == r) by (nonlinear_arith)
        requires
            0 <= r,
            r * r <= n,
            n < (r + 1) * (r + 1),
            0 <= s,
            s * s <= n,
            n < (s + 1) * (s + 1),
    ;
}

/// The ray after casting from `(px, py)`: both scan candidates resolved,
/// the nearer one (horizontal on ties) recorded as the hit with the
/// floor of its Euclidean distance, or the no-hit marker with the
/// largest representable distance when neither scan found a wall.
pub open spec fn spec_cast(
    ray: Ray,
    px: int,
    py: int,
    g: Grid,
    inv_tan: Option<i64>,
    tan: Option<i64>,
) -> Ray {
    let h = spec_horz_hit(g, px, py, ray.facing_down, inv_tan);
    let v = spec_vert_hit(g, px, py, ray.facing_right, ray.facing_down, tan);
    match spec_nearest(px, py, h, v) {
        Option::Some(pt) => Ray {
            wall_x: pt.0 as i64,
            wall_y: pt.1 as i64,
            distance: spec_sqrt_floor(spec_dist_sq(px, py, pt)) as u64,
            hit: true,
            ..ray
        },
        Option::None => Ray { wall_x: 0, wall_y: 0, distance: u64::MAX, hit: false, ..ray },
    }
}

impl Ray {
    /// The flags of a well-formed ray agree with its normalized angle.
    pub open spec fn wf(self) -> bool {
        &&& 0 <= self.angle < FULL_TURN
        &&& self.facing_down == spec_facing_down(self.angle as int)
        &&& self.facing_up == !self.facing_down
        &&& self.facing_right == spec_facing_right(self.angle as int)
        &&& self.facing_left == !self.facing_right
    }

    /// Builds the ray for an angle: normalizes it and derives the four
    /// facing flags.
    pub fn new(angle: i64) -> (r: Ray)
        ensures
            r == spec_new_ray(angle as int),
            r.wf(),
    {
        let a = normalize_angle(angle);
        let facing_down = 0 <= a && a <= HALF_TURN;
        let facing_right = a < QUARTER_TURN || a > THREE_QUARTER_TURN;
        Ray {
            angle: a,
            facing_down,
            facing_up: !facing_down,
            facing_left: !facing_right,
            facing_right,
            wall_x: 0,
            wall_y: 0,
            distance: 0,
            hit: false,
        }
    }

    /// Resolves the ray against the grid from the origin `(px, py)`,
    /// given the fixed-point cotangent and tangent of its angle (each
    /// `None` for an axis-aligned ray, skipping that scan).
    pub fn cast(&mut self, px: i64, py: i64, grid: &Grid, inv_tan: Option<i64>, tan: Option<i64>)
        requires
            0 <= px <= MAP_WIDTH,
            0 <= py <= MAP_HEIGHT,
            inv_tan matches Some(t) ==> spec_abs(t as int) <= FP * FP,
            tan matches Some(t) ==> spec_abs(t as int) <= FP * FP,
        ensures
            *final(self) == spec_cast(*old(self), px as int, py as int, *grid, inv_tan, tan),
    {
        let h: Option<(i64, i64)> = match inv_tan {
            Some(it) => horz_scan(grid, px, py, self.facing_down, it),
            None => None,
        };
        let v: Option<(i64, i64)> = match tan {
            Some(t) => vert_scan(grid, px, py, self.facing_right, self.facing_down, t),
            None => None,
        };
        let sel: Option<(i64, i64)> = match (h, v) {
            (Some(hp), Some(vp)) => {
                let hd = dist_sq(px, py, hp.0, hp.1);
                let vd = dist_sq(px, py, vp.0, vp.1);
                if hd <= vd {
                    Some(hp)
                } else {
                    Some(vp)
                }
            },
            (Some(hp), None) => Some(hp),
            (None, Some(vp)) => Some(vp),
            (None, None) => None,
        };
        match sel {
            Some(pt) => {
                let dist = distance_between_points(px, py, pt.0, pt.1);
                self.wall_x = pt.0;
                self.wall_y = pt.1;
                self.distance = dist;
                self.hit = true;
            },
            None => {
                self.wall_x = 0;
                self.wall_y = 0;
                self.distance = u64::MAX;
                self.hit = false;
            },
        }
    }

    /// The commands that draw the ray: a line from the cast origin to
    /// the hit point, filled and stroked red.
    pub open spec fn spec_render_ops(self, px: int, py: int) -> Seq<DrawOp> {
        seq![
            DrawOp::Line { x1: px as i64, y1: py as i64, x2: self.wall_x, y2: self.wall_y },
            DrawOp::Fill { color: Color::Red },
            DrawOp::Stroke { color: Color::Red },
        ]
    }

    /// Draws the ray as a red line from the cast origin to its hit
    /// point.
    pub fn render(&self, c: &mut Canvas, px: i64, py: i64)
        ensures
            final(c).ops@ == old(c).ops@ + self.spec_render_ops(px as int, py as int),
    {
        let ghost ops0 = c.ops@;
        line(c, px, py, self.wall_x, self.wall_y);
        fill(c, Color::Red);
        stroke(c, Color::Red);
        proof {
            assert(c.ops@ =~= ops0 + self.spec_render_ops(px as int, py as int));
        }
    }
}

/// One gridline crossing of a straight-down scan reads exactly the cell
/// of column `col` in the crossed row.
proof fn lemma_down_point_reads_cell(g: Grid, col: int, px: int, r: int)
    requires
        g.wf(),
        0 <= col < MAP_NUM_COLS,
        0 <= r < MAP_NUM_ROWS,
        col * CELL <= px < (col + 1) * CELL,
    ensures
        g.spec_has_wall(px, r * CELL) == (g.cells@[r]@[col] == 1),
{
    let c = CELL as int;
    vstd::arithmetic::mul::lemma_mul_inequality(col + 1, MAP_NUM_COLS as int, c);
    vstd::arithmetic::mul::lemma_mul_nonnegative(col, c);
    vstd::arithmetic::mul::lemma_mul_nonnegative(r, c);
    vstd::arithmetic::mul::lemma_mul_inequality(r, MAP_NUM_ROWS as int, c);
    assert((col + 1) * c == col * c + c) by (nonlinear_arith);
    vstd::arithmetic::div_mod::lemma_fundamental_div_mod_converse(px, c, col, px - col * c);
    vstd::arithmetic::div_mod::lemma_fundamental_div_mod_converse(r * c, c, r, 0);
}

/// A straight-down scan over open cells of one column marches row by
/// row until the first row that stores a wall, and reports the crossing
/// of that row's top gridline.
proof fn lemma_down_scan_hits(g: Grid, col: int, px: int, r: int, rw: int, fuel: nat)
    requires
        g.wf(),
        0 <= col < MAP_NUM_COLS,
        0 <= r <= rw,
        rw < MAP_NUM_ROWS,
        col * CELL <= px < (col + 1) * CELL,
        forall|k: int| r <= k < rw ==> g.cells@[k]@[col] == 0,
        g.cells@[rw]@[col] == 1,
        fuel > rw - r,
    ensures
        spec_march(g, px, r * CELL, 0, 0, 0, CELL as int, fuel) == Some((px, rw * CELL)),
    decreases rw - r,
{
    lemma_down_point_reads_cell(g, col, px, r);
    if r == rw {
    } else {
        assert(g.cells@[r]@[col] == 0);
        lemma_down_scan_hits(g, col, px, r + 1, rw, (fuel - 1) as nat);
        assert(r * CELL + CELL == (r + 1) * CELL) by (nonlinear_arith);
    }
}

/// Straight down an open corridor, the resolved hit is the first wall
/// cell's top gridline and the resolved distance is exactly the number
/// of open cells crossed times the cell edge: the corridor's depth in
/// world units.
pub proof fn lemma_corridor_distance(g: Grid, col: int, r0: int, rw: int, px: int)
    requires
        g.wf(),
        0 <= col < MAP_NUM_COLS,
        0 <= r0,
        r0 < rw < MAP_NUM_ROWS,
        col * CELL <= px < (col + 1) * CELL,
        forall|k: int| r0 < k < rw ==> g.cells@[k]@[col] == 0,
        g.cells@[rw]@[col] == 1,
    ensures
        ({
            let ray = spec_cast(
                spec_new_ray(QUARTER_TURN as int),
                px,
                r0 * CELL,
                g,
                Some(0i64),
                None,
            );
            &&& ray.hit
            &&& ray.wall_x == px
            &&& ray.wall_y == rw * CELL
            &&& ray.distance == (rw - r0) * CELL
        }),
{
    let c = CELL as int;
    let py = r0 * c;
    vstd::arithmetic::div_mod::lemma_fundamental_div_mod_converse(py, c, r0, 0);
    assert(spec_div_trunc(0, FP as int) == 0) by {
        vstd::arithmetic::div_mod::lemma_div_of0(FP as int);
    }
    assert((py / c) * c + c == (r0 + 1) * c) by (nonlinear_arith)
        requires
            py / c == r0,
    ;
    lemma_down_scan_hits(g, col, px, r0 + 1, rw, MAX_SCAN_STEPS as nat);
    assert(spec_horz_hit(g, px, py, true, Some(0i64)) == Some((px, rw * c)));
    vstd::arithmetic::mul::lemma_mul_inequality(rw, MAP_NUM_ROWS as int, c);
    vstd::arithmetic::mul::lemma_mul_nonnegative(rw, c);
    let d = (rw - r0) * c;
    assert(spec_dist_sq(px, py, (px, rw * c)) == d * d) by (nonlinear_arith)
        requires
            d == (rw - r0) * c,
            py == r0 * c,
    ;
    assert(0 <= d && d * d <= d * d && d * d < (d + 1) * (d + 1)) by (nonlinear_arith)
        requires
            0 <= rw - r0,
            0 < c,
            d == (rw - r0) * c,
    ;
    lemma_sqrt_floor_is(d * d, d);
    assert(d <= 11 * c) by (nonlinear_arith)
        requires
            d == (rw - r0) * c,
            0 < rw - r0 <= 11,
            0 < c,
    ;
    vstd::arithmetic::mul::lemma_mul_inequality(col + 1, MAP_NUM_COLS as int, c);
    vstd::arithmetic::mul::lemma_mul_nonnegative(col, c);
    assert((col + 1) * c == col * c + c) by (nonlinear_arith);
    let ray = spec_cast(spec_new_ray(QUARTER_TURN as int), px, py, g, Some(0i64), None);
    assert(spec_nearest(px, py, Some((px, rw * c)), Option::<(int, int)>::None) == Some(
        (px, rw * c),
    ));
    assert(ray.hit);
    assert(ray.wall_x == px);
    assert(ray.wall_y == rw * c);
    assert(ray.distance == d);
}

/// Runs the horizontal-gridline scan with cotangent `it`.
fn horz_scan(grid: &Grid, px: i64, py: i64, down: bool, it: i64) -> (r: Option<(i64, i64)>)
    requires
        0 <= px <= MAP_WIDTH,
        0 <= py <= MAP_HEIGHT,
        spec_abs(it as int) <= FP * FP,
    ensures
        match r {
            Some(p) => spec_horz_hit(*grid, px as int, py as int, down, Some(it)) == Some(
                (p.0 as int, p.1 as int),
            ) && -SCAN_COORD_MAX <= p.0 <= SCAN_COORD_MAX && -SCAN_COORD_MAX <= p.1
                <= SCAN_COORD_MAX,
            None => spec_horz_hit(*grid, px as int, py as int, down, Some(it)) is None,
        },
{
    proof {
        vstd::arithmetic::div_mod::lemma_fundamental_div_mod(py as int, CELL as int);
        vstd::arithmetic::div_mod::lemma_mod_bound(py as int, CELL as int);
        vstd::arithmetic::div_mod::lemma_div_pos_is_pos(py as int, CELL as int);
        vstd::arithmetic::div_mod::lemma_multiply_divide_le(
            py as int,
            CELL as int,
            MAP_NUM_ROWS as int,
        );
    }
    let y_floor = (((py as u64) / (CELL as u64)) as i64) * CELL;
    let y0 = if down {
        y_floor + CELL
    } else {
        y_floor
    };
    proof {
        assert(spec_abs((y0 - py) * (it as int)) <= (CELL * FP) * FP) by (nonlinear_arith)
            requires
                -CELL <= y0 - py <= CELL,
                spec_abs(it as int) <= FP * FP,
                0 < CELL,
                0 < FP,
        ;
        lemma_div_trunc_bound((y0 - py) * (it as int), FP as int, CELL * FP);
        assert(spec_abs(CELL * (it as int)) <= (CELL * FP) * FP) by (nonlinear_arith)
            requires
                spec_abs(it as int) <= FP * FP,
                0 < CELL,
                0 < FP,
        ;
        lemma_div_trunc_bound(CELL * (it as int), FP as int, CELL * FP);
    }
    let x0 = px + div_trunc((y0 - py) * it, FP);
    let sy = if down {
        CELL
    } else {
        -CELL
    };
    let sx0 = div_trunc(CELL * it, FP);
    let sx = if down {
        sx0
    } else {
        -sx0
    };
    let ny = if down {
        0
    } else {
        -FP
    };
    march(grid, x0, y0, 0, ny, sx, sy)
}

/// Runs the vertical-gridline scan with tangent `t`.
fn vert_scan(grid: &Grid, px: i64, py: i64, right: bool, down: bool, t: i64) -> (r: Option<
    (i64, i64),
>)
    requires
        0 <= px <= MAP_WIDTH,
        0 <= py <= MAP_HEIGHT,
        spec_abs(t as int) <= FP * FP,
    ensures
        match r {
            Some(p) => spec_vert_hit(*grid, px as int, py as int, right, down, Some(t)) == Some(
                (p.0 as int, p.1 as int),
            ) && -SCAN_COORD_MAX <= p.0 <= SCAN_COORD_MAX && -SCAN_COORD_MAX <= p.1
                <= SCAN_COORD_MAX,
            None => spec_vert_hit(*grid, px as int, py as int, right, down, Some(t)) is None,
        },
{
    proof {
        vstd::arithmetic::div_mod::lemma_fundamental_div_mod(px as int, CELL as int);
        vstd::arithmetic::div_mod::lemma_mod_bound(px as int, CELL as int);
        vstd::arithmetic::div_mod::lemma_div_pos_is_pos(px as int, CELL as int);
        vstd::arithmetic::div_mod::lemma_multiply_divide_le(
            px as int,
            CELL as int,
            MAP_NUM_COLS as int,
        );
    }
    let x_floor = (((px as u64) / (CELL as u64)) as i64) * CELL;
    let x0 = if right {
        x_floor + CELL
    } else {
        x_floor
    };
    proof {
        assert(spec_abs((x0 - px) * (t as int)) <= (CELL * FP) * FP) by (nonlinear_arith)
            requires
                -CELL <= x0 - px <= CELL,
                spec_abs(t as int) <= FP * FP,
                0 < CELL,
                0 < FP,
        ;
        lemma_div_trunc_bound((x0 - px) * (t as int), FP as int, CELL * FP);
        assert(spec_abs(CELL * (t as int)) <= (CELL * FP) * FP) by (nonlinear_arith)
            requires
                spec_abs(t as int) <= FP * FP,
                0 < CELL,
                0 < FP,
        ;
        lemma_div_trunc_bound(CELL * (t as int), FP as int, CELL * FP);
    }
    let y0 = py + div_trunc((x0 - px) * t, FP);
    let sx = if right {
        CELL
    } else {
        -CELL
    };
    let sy0 = div_trunc(CELL * t, FP);
    let sy = if down {
        if sy0 < 0 {
            -sy0
        } else {
            sy0
        }
    } else {
        if sy0 > 0 {
            -sy0
        } else {
            sy0
        }
    };
    let nx = if right {
        0
    } else {
        -FP
    };
    march(grid, x0, y0, nx, 0, sx, sy)
}

/// Walks a scan's successive test points and returns the first blocked
/// one, or `None` when the step limit runs out first.
fn march(g: &Grid, x0: i64, y0: i64, nudge_x: i64, nudge_y: i64, step_x: i64, step_y: i64) -> (r:
    Option<(i64, i64)>)
    requires
        spec_abs(x0 as int) <= SCAN_START_MAX,
        spec_abs(y0 as int) <= SCAN_START_MAX,
        spec_abs(nudge_x as int) <= FP,
        spec_abs(nudge_y as int) <= FP,
        spec_abs(step_x as int) <= SCAN_STEP_MAX,
        spec_abs(step_y as int) <= SCAN_STEP_MAX,
    ensures
        match r {
            Some(p) => spec_march(
                *g,
                x0 as int,
                y0 as int,
                nudge_x as int,
                nudge_y as int,
                step_x as int,
                step_y as int,
                MAX_SCAN_STEPS as nat,
            ) == Some((p.0 as int, p.1 as int)) && -SCAN_COORD_MAX <= p.0 <= SCAN_COORD_MAX
                && -SCAN_COORD_MAX <= p.1 <= SCAN_COORD_MAX,
            None => spec_march(
                *g,
                x0 as int,
                y0 as int,
                nudge_x as int,
                nudge_y as int,
                step_x as int,
                step_y as int,
                MAX_SCAN_STEPS as nat,
            ) is None,
        },
{
    let mut x = x0;
    let mut y = y0;
    let mut i: u64 = 0;
    while i < MAX_SCAN_STEPS
        invariant
            i <= MAX_SCAN_STEPS,
            spec_abs(nudge_x as int) <= FP,
            spec_abs(nudge_y as int) <= FP,
            spec_abs(step_x as int) <= SCAN_STEP_MAX,
            spec_abs(step_y as int) <= SCAN_STEP_MAX,
            // the literal is SCAN_GROWTH's value; spelled out, the
            // product stays linear for the solver
            spec_abs(x as int) <= SCAN_START_MAX + i * 0x40_0001_0000,
            spec_abs(y as int) <= SCAN_START_MAX + i * 0x40_0001_0000,
            spec_march(
                *g,
                x as int,
                y as int,
                nudge_x as int,
                nudge_y as int,
                step_x as int,
                step_y as int,
                (MAX_SCAN_STEPS - i) as nat,
            ) == spec_march(
                *g,
                x0 as int,
                y0 as int,
                nudge_x as int,
                nudge_y as int,
                step_x as int,
                step_y as int,
                MAX_SCAN_STEPS as nat,
            ),
        decreases MAX_SCAN_STEPS - i,
    {
        let cx = x + nudge_x;
        let cy = y + nudge_y;
        if g.has_wall(cx, cy) {
            proof {
                assert(spec_march(
                    *g,
                    x as int,
                    y as int,
                    nudge_x as int,
                    nudge_y as int,
                    step_x as int,
                    step_y as int,
                    (MAX_SCAN_STEPS - i) as nat,
                ) == Some((cx as int, cy as int)));
            }
            return Some((cx, cy));
        }
        proof {
            assert(spec_march(
                *g,
                x as int,
                y as int,
                nudge_x as int,
                nudge_y as int,
                step_x as int,
                step_y as int,
                (MAX_SCAN_STEPS - i) as nat,
            ) == spec_march(
                *g,
                cx as int + step_x as int,
                cy as int + step_y as int,
                nudge_x as int,
                nudge_y as int,
                step_x as int,
                step_y as int,
                (MAX_SCAN_STEPS - i - 1) as nat,
            ));
        }
        x = cx + step_x;
        y = cy + step_y;
        i = i + 1;
    }
    proof {
        assert(spec_march(
            *g,
            x as int,
            y as int,
            nudge_x as int,
            nudge_y as int,
            step_x as int,
            step_y as int,
            (MAX_SCAN_STEPS - i) as nat,
        ) is None);
    }
    None
}

/// Squared Euclidean distance between two bounded points.
fn dist_sq(px: i64, py: i64, x: i64, y: i64) -> (r: i128)
    requires
        spec_abs(px as int) <= SCAN_COORD_MAX,
        spec_abs(py as int) <= SCAN_COORD_MAX,
        spec_abs(x as int) <= SCAN_COORD_MAX,
        spec_abs(y as int) <= SCAN_COORD_MAX,
    ensures
        r == spec_dist_sq(px as int, py as int, (x as int, y as int)),
        0 <= r < 0x4000_0000_0000_0000_0000_0000_0000_0000,
{
    let dx = (x as i128) - (px as i128);
    let dy = (y as i128) - (py as i128);
    proof {
        assert(-0x2_0000_0000_0000 <= dx <= 0x2_0000_0000_0000);
        assert(-0x2_0000_0000_0000 <= dy <= 0x2_0000_0000_0000);
        assert(0 <= dx * dx <= 0x4_0000_0000_0000_0000_0000_0000 && 0 <= dy * dy
            <= 0x4_0000_0000_0000_0000_0000_0000) by (nonlinear_arith)
            requires
                -0x2_0000_0000_0000 <= dx <= 0x2_0000_0000_0000,
                -0x2_0000_0000_0000 <= dy <= 0x2_0000_0000_0000,
        ;
    }
    dx * dx + dy * dy
}

/// Euclidean distance between two points, rounded down to a whole
/// fixed-point unit: the floor of the square root of the squared
/// distance.
pub fn distance_between_points(x1: i64, y1: i64, x2: i64, y2: i64) -> (r: u64)
    requires
        spec_abs(x1 as int) <= SCAN_COORD_MAX,
        spec_abs(y1 as int) <= SCAN_COORD_MAX,
        spec_abs(x2 as int) <= SCAN_COORD_MAX,
        spec_abs(y2 as int) <= SCAN_COORD_MAX,
    ensures
        r as int == spec_sqrt_floor(spec_dist_sq(x1 as int, y1 as int, (x2 as int, y2 as int))),
{
    let d = dist_sq(x1, y1, x2, y2);
    isqrt(d as u128)
}

/// The floor of the square root of `n`.
fn isqrt(n: u128) -> (r: u64)
    requires
        n < 0x4000_0000_0000_0000_0000_0000_0000_0000,
    ensures
        r as int == spec_sqrt_floor(n as int),
{
    let mut lo: u64 = 0;
    let mut hi: u64 = 0x8000_0000_0000_0000;
    while hi - lo > 1
        invariant
            lo < hi,
            hi <= 0x8000_0000_0000_0000,
            (lo as int) * (lo as int) <= n as int,
            (n as int) < (hi as int) * (hi as int),
        decreases hi - lo,
    {
        let mid = lo + (hi - lo) / 2;
        proof {
            assert((mid as int) * (mid as int) < 0x4000_0000_0000_0000_0000_0000_0000_0000)
                by (nonlinear_arith)
                requires
                    0 <= (mid as int) < 0x8000_0000_0000_0000,
            ;
        }
        if (mid as u128) * (mid as u128) <= n {
            lo = mid;
        } else {
            hi = mid;
        }
    }
    proof {
        lemma_sqrt_floor_is(n as int, lo as int);
    }
    lo
}

} // verus!
