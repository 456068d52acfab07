//! A small top-down raycasting engine over a tile grid.
//!
//! The world is a fixed grid of open and wall cells. A player moves and
//! turns inside it, and every frame a fan of rays is cast from the player
//! across the field of view; each ray marches along grid-line crossings
//! until it meets a wall. Rendering is modelled as a buffer of drawing
//! commands that a host replays onto its own surface.
//!
//! All world coordinates are fixed-point integers ([`FP`] units per pixel),
//! and angles are integers in units of one eighth of a degree, so the whole
//! simulation is exact integer arithmetic. Trigonometric samples (cosine and
//! sine per angle unit) are supplied by the host through a [`trig::TrigTable`].

use vstd::prelude::*;

pub mod angle;
pub mod canvas;
pub mod fixed;
pub mod grid;
pub mod player;
pub mod ray;
pub mod scene;
pub mod trig;

verus! {

/// Fixed-point scale: number of world units per pixel.
pub const FP: i64 = 65536;

/// Edge of one grid cell, in pixels.
pub const CELL_PIXELS: i64 = 32;

/// Edge of one grid cell, in fixed-point world units.
pub const CELL: i64 = CELL_PIXELS * FP;

/// Number of cell rows in the map.
pub const MAP_NUM_ROWS: usize = 11;

/// Number of cell columns in the map.
pub const MAP_NUM_COLS: usize = 15;

/// World-space width of the map, in fixed-point units.
pub const MAP_WIDTH: i64 = 15 * 32 * 65536;

/// World-space height of the map, in fixed-point units.
pub const MAP_HEIGHT: i64 = 11 * 32 * 65536;

/// Angle units in a full turn; one unit is one eighth of a degree.
pub const FULL_TURN: i64 = 2880;

/// Angle units in a half turn (180 degrees).
pub const HALF_TURN: i64 = 1440;

/// Angle units in a quarter turn (90 degrees).
pub const QUARTER_TURN: i64 = 720;

/// Angle units in three quarters of a turn (270 degrees).
pub const THREE_QUARTER_TURN: i64 = 2160;

/// Width of the field of view: 60 degrees in angle units.
pub const FIELD_OF_VIEW: i64 = 480;

/// One ray is cast per screen column.
pub const SCREEN_COLUMNS: usize = 480;

/// Angle difference between neighbouring rays of the fan:
/// the field of view divided by the number of screen columns.
pub const ANGLE_STEP: i64 = 1;

} // verus!
