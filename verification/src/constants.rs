//! Fixed configuration of the renderer: canvas size, frame rate, and the
//! derived per-frame delay.

use vstd::prelude::*;

verus! {

/// Canvas width in pixels.
pub const CANVAS_WIDTH: i64 = 800;

/// Canvas height in pixels.
pub const CANVAS_HEIGHT: i64 = 800;

/// Half the canvas width in pixels; the screen map scales normalized
/// coordinates by this factor.
pub const HALF_WIDTH: i64 = 400;

/// Half the canvas height in pixels.
pub const HALF_HEIGHT: i64 = 400;

/// Target frame rate of the animation loop, in frames per second.
pub const FPS: u64 = 60;

/// Fixed delay between two ticks of the animation loop, in nanoseconds.
pub const FRAME_TIME: u64 = 1_000_000_000 / FPS;

} // verus!
