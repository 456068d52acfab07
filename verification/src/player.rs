//! The player: position, facing angle, and movement intent.
//!
//! Input handlers set the two intent fields (`direction` for walking,
//! `turning_direction` for rotating); once per frame [`Player::update`]
//! consumes them. A walk step follows the facing vector, scaled by the
//! moving speed, and commits only when the candidate point is on open
//! ground — the candidate is tested as one point, so a corner that either
//! axis alone would clear still blocks the diagonal step. A turn adds the
//! turning speed to the facing angle and renormalizes it. Intent values
//! other than exactly 1 or -1 leave their axis untouched.

use vstd::prelude::*;

use vstd::string::StringSliceAdditionalSpecFns;

use crate::angle::{normalize_angle, spec_normalize_angle};
use crate::canvas::{circle, fill, line, stroke, Canvas, Color, DrawOp};
use crate::fixed::{div_trunc, lemma_div_trunc_bound, spec_abs, spec_div_trunc};
use crate::grid::Grid;
use crate::{FP, FULL_TURN, MAP_HEIGHT, MAP_WIDTH};

verus! {

/// The player's starting facing angle: 354 degrees in angle units.
pub const INITIAL_ANGLE: i64 = 2832;

/// How far the player walks per frame, in fixed-point units: one pixel.
pub const MOVING_SPEED: i64 = FP;

/// How far the player turns per frame: 3 degrees in angle units.
pub const TURNING_SPEED: i64 = 24;

/// Length of the drawn facing indicator, in pixels.
pub const INDICATOR_PIXELS: i64 = 20;

/// Radius of the drawn player marker, in fixed-point units: 3 pixels.
pub const MARKER_RADIUS: i64 = 3 * FP;

/// The player.
pub struct Player {
    /// Position, in fixed-point world units.
    pub x: i64,
    pub y: i64,
    /// Facing angle, normalized to `[0, FULL_TURN)`.
    pub angle: i64,
    /// Walk distance per frame, fixed-point.
    pub moving_speed: i64,
    /// Turn per frame, in angle units.
    pub turning_speed: i64,
    /// Walking intent: 1 forward, -1 backward, anything else stands still.
    pub direction: i8,
    /// Turning intent: 1 clockwise, -1 counter-clockwise, else none.
    pub turning_direction: i8,
}

impl Player {
    /// A well-formed player stands inside the map's world extent, faces a
    /// normalized angle, and has bounded speeds.
    pub open spec fn wf(self) -> bool {
        &&& 0 <= self.x <= MAP_WIDTH
        &&& 0 <= self.y <= MAP_HEIGHT
        &&& 0 <= self.angle < FULL_TURN
        &&& 0 <= self.moving_speed <= FP
        &&& 0 <= self.turning_speed < FULL_TURN
    }

    /// The candidate point one walk step along the facing vector, whose
    /// cosine and sine samples are given: each coordinate advances by the
    /// sample scaled by the moving speed, signed by the walking intent.
    pub open spec fn spec_step_target(self, cos_a: int, sin_a: int) -> (int, int) {
        let d = self.direction as int;
        (
            self.x + spec_div_trunc(cos_a * self.moving_speed, FP as int) * d,
            self.y + spec_div_trunc(sin_a * self.moving_speed, FP as int) * d,
        )
    }

    /// The player after one frame's update: a walk step committed only
    /// onto open ground, then a turn folded back into a normalized angle.
    pub open spec fn spec_update(self, g: Grid, cos_a: int, sin_a: int) -> Player {
        let (nx, ny) = self.spec_step_target(cos_a, sin_a);
        let moved = if (self.direction == 1 || self.direction == -1) && !g.spec_has_wall(nx, ny) {
            Player { x: nx as i64, y: ny as i64, ..self }
        } else {
            self
        };
        if moved.turning_direction == 1 || moved.turning_direction == -1 {
            Player {
                angle: spec_normalize_angle(
                    moved.angle + moved.turning_speed * moved.turning_direction as int,
                ) as i64,
                ..moved
            }
        } else {
            moved
        }
    }

    /// The player at startup: at the map's centre height on both axes,
    /// facing the starting angle, standing still.
    pub open spec fn spec_initial() -> Player {
        Player {
            x: (MAP_HEIGHT as int / 2) as i64,
            y: (MAP_HEIGHT as int / 2) as i64,
            angle: INITIAL_ANGLE,
            moving_speed: MOVING_SPEED,
            turning_speed: TURNING_SPEED,
            direction: 0,
            turning_direction: 0,
        }
    }

    /// The player at startup.
    pub fn new() -> (p: Player)
        ensures
            p == Player::spec_initial(),
            p.wf(),
    {
        Player {
            x: MAP_HEIGHT / 2,
            y: MAP_HEIGHT / 2,
            angle: INITIAL_ANGLE,
            moving_speed: MOVING_SPEED,
            turning_speed: TURNING_SPEED,
            direction: 0,
            turning_direction: 0,
        }
    }

    /// Applies one frame of movement intent. `cos_a` and `sin_a` are the
    /// facing angle's samples, each within ±[`FP`]. The position changes
    /// only when the walk intent is exactly 1 or -1 and the candidate
    /// point is open; the angle changes only when the turn intent is
    /// exactly 1 or -1, and stays normalized.
    pub fn update(&mut self, grid: &Grid, cos_a: i64, sin_a: i64)
        requires
            old(self).wf(),
            -FP <= cos_a <= FP,
            -FP <= sin_a <= FP,
        ensures
            *final(self) == old(self).spec_update(*grid, cos_a as int, sin_a as int),
            final(self).wf(),
            (final(self).x == old(self).x && final(self).y == old(self).y) || !grid.spec_has_wall(
                final(self).x as int,
                final(self).y as int,
            ),
    {
        if self.direction == 1 || self.direction == -1 {
            proof {
                assert(spec_abs(cos_a * self.moving_speed) <= FP * FP && spec_abs(
                    sin_a * self.moving_speed,
                ) <= FP * FP) by (nonlinear_arith)
                    requires
                        -FP <= cos_a <= FP,
                        -FP <= sin_a <= FP,
                        0 <= self.moving_speed <= FP,
                ;
                lemma_div_trunc_bound(cos_a * self.moving_speed, FP as int, FP as int);
                lemma_div_trunc_bound(sin_a * self.moving_speed, FP as int, FP as int);
            }
            let step_x = div_trunc(cos_a * self.moving_speed, FP);
            let step_y = div_trunc(sin_a * self.moving_speed, FP);
            let d = self.direction as i64;
            let nx = self.x + step_x * d;
            let ny = self.y + step_y * d;
            if !grid.has_wall(nx, ny) {
                self.x = nx;
                self.y = ny;
            }
        }
        if self.turning_direction == 1 || self.turning_direction == -1 {
            self.angle = normalize_angle(
                self.angle + self.turning_speed * (self.turning_direction as i64),
            );
        }
    }

    /// The commands that draw the player: the facing indicator line, its
    /// blue stroke, the marker circle, and its blue fill.
    pub open spec fn spec_render_ops(self, cos_a: int, sin_a: int) -> Seq<DrawOp> {
        seq![
            DrawOp::Line {
                x1: self.x,
                y1: self.y,
                x2: (self.x + cos_a * INDICATOR_PIXELS) as i64,
                y2: (self.y + sin_a * INDICATOR_PIXELS) as i64,
            },
            DrawOp::Stroke { color: Color::Blue },
            DrawOp::Circle { x: self.x, y: self.y, radius: MARKER_RADIUS },
            DrawOp::Fill { color: Color::Blue },
        ]
    }

    /// Draws the player: a line along the facing vector and a circle at
    /// the position, both blue.
    pub fn render(&self, c: &mut Canvas, cos_a: i64, sin_a: i64)
        requires
            self.wf(),
            -FP <= cos_a <= FP,
            -FP <= sin_a <= FP,
        ensures
            final(c).ops@ == old(c).ops@ + self.spec_render_ops(cos_a as int, sin_a as int),
    {
        let ghost ops0 = c.ops@;
        line(
            c,
            self.x,
            self.y,
            self.x + cos_a * INDICATOR_PIXELS,
            self.y + sin_a * INDICATOR_PIXELS,
        );
        stroke(c, Color::Blue);
        circle(c, self.x, self.y, MARKER_RADIUS);
        fill(c, Color::Blue);
        proof {
            assert(c.ops@ =~= ops0 + self.spec_render_ops(cos_a as int, sin_a as int));
        }
    }
}

/// A frame update never ends with the player inside a wall cell it was
/// not already in: the position either stays exactly where it was or
/// lands on a point the grid reports open.
pub proof fn lemma_update_keeps_off_walls(p: Player, g: Grid, cos_a: int, sin_a: int)
    requires
        p.wf(),
        -FP <= cos_a <= FP,
        -FP <= sin_a <= FP,
    ensures
        ({
            let q = p.spec_update(g, cos_a, sin_a);
            (q.x == p.x && q.y == p.y) || !g.spec_has_wall(q.x as int, q.y as int)
        }),
{
    assert(spec_abs(cos_a * p.moving_speed) <= FP * FP && spec_abs(sin_a * p.moving_speed) <= FP
        * FP) by (nonlinear_arith)
        requires
            -FP <= cos_a <= FP,
            -FP <= sin_a <= FP,
            0 <= p.moving_speed <= FP,
    ;
    lemma_div_trunc_bound(cos_a * p.moving_speed, FP as int, FP as int);
    lemma_div_trunc_bound(sin_a * p.moving_speed, FP as int, FP as int);
}

/// The byte of the key that starts walking forward.
pub const KEY_W: u8 = 87;

/// The byte of the key that starts walking backward.
pub const KEY_S: u8 = 83;

/// The byte of the key that starts turning counter-clockwise.
pub const KEY_A: u8 = 65;

/// The byte of the key that starts turning clockwise.
pub const KEY_D: u8 = 68;

/// The player after a key goes down: the four recognized keys set one
/// intent field; every other key changes nothing.
pub open spec fn spec_key_down(p: Player, key: Seq<u8>) -> Player {
    if key == seq![KEY_W] {
        Player { direction: 1i8, ..p }
    } else if key == seq![KEY_S] {
        Player { direction: -1i8, ..p }
    } else if key == seq![KEY_A] {
        Player { turning_direction: -1i8, ..p }
    } else if key == seq![KEY_D] {
        Player { turning_direction: 1i8, ..p }
    } else {
        p
    }
}

/// The player after a key goes up: the walking keys clear the walking
/// intent, the turning keys clear the turning intent, every other key
/// changes nothing.
pub open spec fn spec_key_up(p: Player, key: Seq<u8>) -> Player {
    if key == seq![KEY_W] || key == seq![KEY_S] {
        Player { direction: 0i8, ..p }
    } else if key == seq![KEY_A] || key == seq![KEY_D] {
        Player { turning_direction: 0i8, ..p }
    } else {
        p
    }
}

/// Handles a key-down event carrying an uppercase key identifier.
pub fn key_down(player: &mut Player, key: &str)
    ensures
        *final(player) == spec_key_down(*old(player), key.spec_bytes()),
{
    let bytes = key.as_bytes();
    if bytes.len() == 1 {
        let k = bytes[0];
        proof {
            if k == KEY_W {
                assert(key.spec_bytes() =~= seq![KEY_W]);
            } else if k == KEY_S {
                assert(key.spec_bytes() =~= seq![KEY_S]);
            } else if k == KEY_A {
                assert(key.spec_bytes() =~= seq![KEY_A]);
            } else if k == KEY_D {
                assert(key.spec_bytes() =~= seq![KEY_D]);
            }
        }
        if k == KEY_W {
            player.direction = 1;
        } else if k == KEY_S {
            player.direction = -1;
        } else if k == KEY_A {
            player.turning_direction = -1;
        } else if k == KEY_D {
            player.turning_direction = 1;
        }
    }
}

/// Handles a key-up event carrying an uppercase key identifier.
pub fn key_up(player: &mut Player, key: &str)
    ensures
        *final(player) == spec_key_up(*old(player), key.spec_bytes()),
{
    let bytes = key.as_bytes();
    if bytes.len() == 1 {
        let k = bytes[0];
        proof {
            if k == KEY_W {
                assert(key.spec_bytes() =~= seq![KEY_W]);
            } else if k == KEY_S {
                assert(key.spec_bytes() =~= seq![KEY_S]);
            } else if k == KEY_A {
                assert(key.spec_bytes() =~= seq![KEY_A]);
            } else if k == KEY_D {
                assert(key.spec_bytes() =~= seq![KEY_D]);
            }
        }
        if k == KEY_W || k == KEY_S {
            player.direction = 0;
        } else if k == KEY_A || k == KEY_D {
            player.turning_direction = 0;
        }
    }
}

} // verus!
