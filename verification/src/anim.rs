//! Scalar state of the fixed-timestep animation loop.
//!
//! The loop owns an angle that grows by a fixed step every tick and a
//! depth offset that is held constant. The loop itself never terminates
//! on its own: its driver re-runs the pipeline once per tick and then
//! blocks for `FRAME_TIME` nanoseconds until the next tick boundary.

use vstd::prelude::*;

verus! {

/// The per-tick scalar state: the rotation angle (in the caller's angle
/// units, fixed-point) and the depth translation.
#[derive(Clone, Copy, PartialEq, Eq, Structural, Debug)]
pub struct AnimState {
    pub angle: i64,
    pub dz: i64,
}

impl AnimState {
    /// The state at startup: no rotation yet, one unit of depth.
    pub fn start(dz: i64) -> (r: AnimState)
        ensures
            r.angle == 0,
            r.dz == dz,
    {
        AnimState { angle: 0, dz }
    }

    /// Advance one tick: the angle grows by the fixed per-frame step and
    /// the depth offset is held.
    pub fn tick(&mut self, angle_step: i64)
        requires
            i64::MIN <= old(self).angle + angle_step <= i64::MAX,
        ensures
            final(self).angle == old(self).angle + angle_step,
            final(self).dz == old(self).dz,
    {
        self.angle = self.angle + angle_step;
    }
}

} // verus!
