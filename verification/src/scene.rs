//! The simulation state and the per-frame step.
//!
//! A [`Scene`] owns the grid, the player and the current ray fan; the
//! host drives it by calling [`draw`] once per animation frame with a
//! command buffer to fill and the trigonometric table. A frame clears
//! the surface, draws the grid, applies the player's pending intent,
//! rebuilds the fan — one ray per screen column, angles evenly spaced
//! across the field of view centred on the facing angle — and then
//! draws the player marker and every ray.

use vstd::prelude::*;

use crate::angle::spec_normalize_angle;
use crate::canvas::{clear, Canvas, DrawOp};
use crate::grid::{default_map, Grid};
use crate::player::Player;
use crate::ray::{spec_cast, spec_new_ray, Ray};
use crate::trig::{inv_tan_from, spec_inv_tan_from, spec_tan_from, tan_from, TrigTable};
use crate::{ANGLE_STEP, FIELD_OF_VIEW, SCREEN_COLUMNS};

verus! {

/// The whole simulation state.
pub struct Scene {
    pub grid: Grid,
    pub player: Player,
    /// The fan cast on the most recent frame, one ray per screen column.
    pub rays: Vec<Ray>,
}

impl Scene {
    /// A well-formed scene has a well-formed grid and player.
    pub open spec fn wf(self) -> bool {
        &&& self.grid.wf()
        &&& self.player.wf()
    }

    /// The scene at startup: the built-in map, the player at its
    /// starting pose, and no rays cast yet.
    pub fn new() -> (s: Scene)
        ensures
            s.wf(),
            s.grid.cells.deep_view() == default_map(),
            s.player == Player::spec_initial(),
            s.rays@.len() == 0,
    {
        Scene { grid: Grid::new(), player: Player::new(), rays: Vec::new() }
    }
}

/// The angle of the fan's ray for screen column `i`, before
/// normalization: the fan spans the field of view centred on the facing
/// angle, one step per column from its left edge.
pub open spec fn spec_fan_angle(facing: int, i: int) -> int {
    facing - FIELD_OF_VIEW / 2 + i * ANGLE_STEP
}

/// The fully resolved ray of the fan for screen column `i`: built from
/// the column's angle and cast from the player against the grid, with
/// its slope ratios taken from the table's samples.
pub open spec fn spec_fan_ray(p: Player, g: Grid, t: TrigTable, i: int) -> Ray {
    let r0 = spec_new_ray(spec_fan_angle(p.angle as int, i));
    let cos_a = t.cos@[r0.angle as int] as int;
    let sin_a = t.sin@[r0.angle as int] as int;
    spec_cast(
        r0,
        p.x as int,
        p.y as int,
        g,
        spec_inv_tan_from(cos_a, sin_a),
        spec_tan_from(cos_a, sin_a),
    )
}

/// Applies the player's pending movement and turning intent for one
/// frame, reading the facing angle's samples from the table.
pub fn update(scene: &mut Scene, trig: &TrigTable)
    requires
        old(scene).wf(),
        trig.wf(),
    ensures
        final(scene).wf(),
        final(scene).grid == old(scene).grid,
        final(scene).rays == old(scene).rays,
        final(scene).player == old(scene).player.spec_update(
            old(scene).grid,
            trig.cos@[old(scene).player.angle as int] as int,
            trig.sin@[old(scene).player.angle as int] as int,
        ),
{
    let cos_a = trig.cos_at(scene.player.angle);
    let sin_a = trig.sin_at(scene.player.angle);
    scene.player.update(&scene.grid, cos_a, sin_a);
}

/// Casts the full ray fan for the player's current pose: one ray per
/// screen column, angles evenly spaced across the field of view centred
/// on the facing angle.
pub fn build_ray_fan(player: &Player, grid: &Grid, trig: &TrigTable) -> (rays: Vec<Ray>)
    requires
        player.wf(),
        trig.wf(),
    ensures
        rays@.len() == SCREEN_COLUMNS,
        forall|i: int|
            0 <= i < SCREEN_COLUMNS ==> rays@[i] == spec_fan_ray(*player, *grid, *trig, i),
        forall|i: int|
            0 <= i < SCREEN_COLUMNS ==> (#[trigger] rays@[i]).angle == spec_normalize_angle(
                spec_fan_angle(player.angle as int, i),
            ),
{
    let mut rays: Vec<Ray> = Vec::new();
    let base = player.angle - FIELD_OF_VIEW / 2;
    let mut col: usize = 0;
    while col < SCREEN_COLUMNS
        invariant
            player.wf(),
            trig.wf(),
            base == player.angle - FIELD_OF_VIEW / 2,
            col <= SCREEN_COLUMNS,
            rays@.len() == col,
            forall|i: int|
                0 <= i < col ==> rays@[i] == spec_fan_ray(*player, *grid, *trig, i),
        decreases SCREEN_COLUMNS - col,
    {
        let angle = base + (col as i64) * ANGLE_STEP;
        let mut ray = Ray::new(angle);
        let cos_a = trig.cos_at(ray.angle);
        let sin_a = trig.sin_at(ray.angle);
        let inv_tan = inv_tan_from(cos_a, sin_a);
        let tan = tan_from(cos_a, sin_a);
        ray.cast(player.x, player.y, grid, inv_tan, tan);
        proof {
            assert(ray == spec_fan_ray(*player, *grid, *trig, col as int));
        }
        rays.push(ray);
        col += 1;
    }
    proof {
        assert forall|i: int|
            0 <= i < SCREEN_COLUMNS implies (#[trigger] rays@[i]).angle == spec_normalize_angle(
            spec_fan_angle(player.angle as int, i),
        ) by {
            assert(rays@[i] == spec_fan_ray(*player, *grid, *trig, i));
        }
    }
    rays
}

/// The fan's edges: its first ray leaves at the facing angle minus half
/// the field of view, and its last one angle step short of the facing
/// angle plus half the field of view.
pub proof fn lemma_fan_edges(facing: int)
    ensures
        spec_fan_angle(facing, 0) == facing - FIELD_OF_VIEW / 2,
        spec_fan_angle(facing, SCREEN_COLUMNS - 1) == facing + FIELD_OF_VIEW / 2 - ANGLE_STEP,
{
}

/// Ops appended by drawing the first `n` rays of the fan, left to
/// right, from the origin `(px, py)`.
pub open spec fn spec_fan_ops(rays: Seq<Ray>, px: int, py: int, n: int) -> Seq<DrawOp>
    decreases n,
{
    if n <= 0 {
        Seq::empty()
    } else {
        spec_fan_ops(rays, px, py, n - 1) + rays[n - 1].spec_render_ops(px, py)
    }
}

/// Runs one animation frame: clears the surface, draws the grid,
/// applies the player's intent, rebuilds the ray fan for the new pose,
/// then draws the player marker and every ray of the fan.
#[verifier::rlimit(60)]
pub fn draw(scene: &mut Scene, canvas: &mut Canvas, trig: &TrigTable)
    requires
        old(scene).wf(),
        trig.wf(),
    ensures
        final(scene).wf(),
        final(scene).grid == old(scene).grid,
        final(scene).player == old(scene).player.spec_update(
            old(scene).grid,
            trig.cos@[old(scene).player.angle as int] as int,
            trig.sin@[old(scene).player.angle as int] as int,
        ),
        final(scene).rays@.len() == SCREEN_COLUMNS,
        forall|i: int|
            0 <= i < SCREEN_COLUMNS ==> final(scene).rays@[i] == spec_fan_ray(
                final(scene).player,
                final(scene).grid,
                *trig,
                i,
            ),
        final(canvas).ops@ == old(canvas).ops@ + seq![DrawOp::Clear] + old(
            scene,
        ).grid.spec_render_ops() + final(scene).player.spec_render_ops(
            trig.cos@[final(scene).player.angle as int] as int,
            trig.sin@[final(scene).player.angle as int] as int,
        ) + spec_fan_ops(
            final(scene).rays@,
            final(scene).player.x as int,
            final(scene).player.y as int,
            SCREEN_COLUMNS as int,
        ),
{
    clear(canvas);
    scene.grid.render(canvas);
    update(scene, trig);
    let fan = build_ray_fan(&scene.player, &scene.grid, trig);
    scene.rays = fan;
    let cos_a = trig.cos_at(scene.player.angle);
    let sin_a = trig.sin_at(scene.player.angle);
    scene.player.render(canvas, cos_a, sin_a);
    let px = scene.player.x;
    let py = scene.player.y;
    let ghost ops_before = canvas.ops@;
    let mut i: usize = 0;
    while i < scene.rays.len()
        invariant
            i <= scene.rays@.len(),
            px == scene.player.x,
            py == scene.player.y,
            canvas.ops@ == ops_before + spec_fan_ops(scene.rays@, px as int, py as int, i as int),
        decreases scene.rays@.len() - i,
    {
        let ray = &scene.rays[i];
        ray.render(canvas, px, py);
        proof {
            assert(canvas.ops@ =~= ops_before + spec_fan_ops(
                scene.rays@,
                px as int,
                py as int,
                i as int + 1,
            ));
        }
        i += 1;
    }
}

} // verus!
