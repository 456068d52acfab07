//! The drawing surface, modelled as a buffer of drawing commands.
//!
//! The engine never touches a real screen: every frame it appends drawing
//! commands to a [`Canvas`], and the host replays the buffer onto whatever
//! surface it owns. Coordinates in commands are fixed-point world units
//! ([`crate::FP`] per pixel). Shape commands ([`rect`], [`circle`],
//! [`line`]) lay down a path; [`fill`] and [`stroke`] paint the most
//! recently laid path in a colour, as an immediate-mode 2D context does.

use vstd::prelude::*;

verus! {

/// The colours the engine draws with.
#[derive(Clone, Copy, PartialEq, Eq, Structural, Debug)]
pub enum Color {
    Black,
    White,
    Blue,
    Red,
}

/// One drawing command. Coordinates and lengths are fixed-point world
/// units; the host divides by [`crate::FP`] when replaying.
#[derive(Clone, Copy, PartialEq, Eq, Structural, Debug)]
pub enum DrawOp {
    /// Erase the whole surface.
    Clear,
    /// Lay down a rectangle path with top-left corner `(x, y)`.
    Rect { x: i64, y: i64, width: i64, height: i64 },
    /// Lay down a circle path centred on `(x, y)`.
    Circle { x: i64, y: i64, radius: i64 },
    /// Draw a line segment from `(x1, y1)` to `(x2, y2)`.
    Line { x1: i64, y1: i64, x2: i64, y2: i64 },
    /// Paint the interior of the last path.
    Fill { color: Color },
    /// Paint the outline of the last path.
    Stroke { color: Color },
}

/// An ordered buffer of drawing commands for one frame.
pub struct Canvas {
    pub ops: Vec<DrawOp>,
}

impl Canvas {
    /// An empty command buffer.
    pub fn new() -> (c: Canvas)
        ensures
            c.ops@ == Seq::<DrawOp>::empty(),
    {
        Canvas { ops: Vec::new() }
    }
}

/// Records an erase of the whole surface.
pub fn clear(c: &mut Canvas)
    ensures
        final(c).ops@ == old(c).ops@.push(DrawOp::Clear),
{
    c.ops.push(DrawOp::Clear);
}

/// Records a fill of the last path with `color`.
pub fn fill(c: &mut Canvas, color: Color)
    ensures
        final(c).ops@ == old(c).ops@.push(DrawOp::Fill { color }),
{
    c.ops.push(DrawOp::Fill { color });
}

/// Records a stroke of the last path with `color`.
pub fn stroke(c: &mut Canvas, color: Color)
    ensures
        final(c).ops@ == old(c).ops@.push(DrawOp::Stroke { color }),
{
    c.ops.push(DrawOp::Stroke { color });
}

/// Records a rectangle path.
pub fn rect(c: &mut Canvas, x: i64, y: i64, width: i64, height: i64)
    ensures
        final(c).ops@ == old(c).ops@.push(DrawOp::Rect { x, y, width, height }),
{
    c.ops.push(DrawOp::Rect { x, y, width, height });
}

/// Records a circle path.
pub fn circle(c: &mut Canvas, x: i64, y: i64, radius: i64)
    ensures
        final(c).ops@ == old(c).ops@.push(DrawOp::Circle { x, y, radius }),
{
    c.ops.push(DrawOp::Circle { x, y, radius });
}

/// Records a line segment.
pub fn line(c: &mut Canvas, x1: i64, y1: i64, x2: i64, y2: i64)
    ensures
        final(c).ops@ == old(c).ops@.push(DrawOp::Line { x1, y1, x2, y2 }),
{
    c.ops.push(DrawOp::Line { x1, y1, x2, y2 });
}

} // verus!
