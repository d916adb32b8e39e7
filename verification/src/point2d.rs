//! Screen-space points.
//!
//! A `Point2D` is either a normalized projected point (roughly one unit
//! around the origin) or a final pixel-space point; the screen map takes
//! the first to the second by scaling with half the canvas size, keeping
//! the origin at the canvas center.

use crate::color::Rgba;
use crate::constants::{HALF_HEIGHT, HALF_WIDTH};
use crate::render::DrawCmd;
use vstd::prelude::*;

verus! {

/// A point in 2D space, in fixed-point units (`SCALE` per 1.0).
#[derive(Clone, Copy, PartialEq, Eq, Structural, Debug)]
pub struct Point2D {
    pub x: i64,
    pub y: i64,
}

impl View for Point2D {
    type V = (int, int);

    open spec fn view(&self) -> (int, int) {
        (self.x as int, self.y as int)
    }
}

/// The centered-origin screen map: normalized coordinates scaled by half
/// the canvas size into pixel space.
pub open spec fn screened(p: (int, int)) -> (int, int) {
    (p.0 * HALF_WIDTH, p.1 * HALF_HEIGHT)
}

impl Point2D {
    pub fn new(x: i64, y: i64) -> (r: Self)
        ensures
            r.x == x,
            r.y == y,
    {
        Self { x, y }
    }

    /// Map a normalized point into pixel space by scaling each axis with
    /// half the canvas size; the origin stays at the canvas center.
    pub fn screen(&self) -> (r: Point2D)
        requires
            i64::MIN <= self.x * HALF_WIDTH <= i64::MAX,
            i64::MIN <= self.y * HALF_HEIGHT <= i64::MAX,
        ensures
            r@ == screened(self@),
    {
        Point2D { x: self.x * HALF_WIDTH, y: self.y * HALF_HEIGHT }
    }

    /// Queue a filled square of `SQUARE_SIZE` units centered on the
    /// point, for the caller to submit as one batch.
    pub fn draw(&self, color: Rgba, gc: &mut Vec<DrawCmd>)
        requires
            i64::MIN <= self.x - SQUARE_HALF,
            self.x + SQUARE_HALF <= i64::MAX,
            i64::MIN <= self.y - SQUARE_HALF,
            self.y + SQUARE_HALF <= i64::MAX,
        ensures
            final(gc)@ == old(gc)@ + square_cmds(*self, color),
    {
        gc.push(DrawCmd::NewPath);
        gc.push(
            DrawCmd::Rect(
                self.x - SQUARE_HALF,
                self.y - SQUARE_HALF,
                self.x - SQUARE_HALF + SQUARE_SIZE,
                self.y - SQUARE_HALF + SQUARE_SIZE,
            ),
        );
        gc.push(DrawCmd::FillColor(color));
        gc.push(DrawCmd::Fill);
        proof {
            assert(gc@ =~= old(gc)@ + square_cmds(*self, color));
        }
    }
}

/// Side length of a drawn square: 16 pixels in fixed-point units.
pub const SQUARE_SIZE: i64 = 1048576;

/// Half of `SQUARE_SIZE`, the offset from a square's center to its edge.
pub const SQUARE_HALF: i64 = 524288;

/// A drawn point: one filled square centered on the point.
pub open spec fn square_cmds(p: Point2D, color: Rgba) -> Seq<DrawCmd> {
    seq![
        DrawCmd::NewPath,
        DrawCmd::Rect(
            (p.x - SQUARE_HALF) as i64,
            (p.y - SQUARE_HALF) as i64,
            (p.x - SQUARE_HALF + SQUARE_SIZE) as i64,
            (p.y - SQUARE_HALF + SQUARE_SIZE) as i64,
        ),
        DrawCmd::FillColor(color),
        DrawCmd::Fill,
    ]
}

} // verus!
