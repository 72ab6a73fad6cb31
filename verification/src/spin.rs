//! The spinning mesh: a rotation angle about the vertical axis that
//! grows at a constant half radian per second.
//!
//! The angle is kept in microradians, so half a radian per second is
//! exactly half a microradian per microsecond and a frame of elapsed
//! time `t` microseconds adds `t / 2` microradians.

use vstd::prelude::*;

verus! {

/// Accumulated rotation about the vertical axis, in microradians.
/// Monotonic and unbounded; the host wraps it through trigonometry when
/// it builds the mesh transform.
#[derive(Clone, Copy, Debug, PartialEq, Eq, Structural)]
pub struct SpinAngle {
    pub angle: i64,
}

impl SpinAngle {
    /// The unrotated mesh.
    pub fn new() -> (s: Self)
        ensures
            s.angle == 0,
    {
        SpinAngle { angle: 0 }
    }

    /// Advances the spin by one frame of `elapsed_us` microseconds: the
    /// angle grows by exactly half the elapsed time, the fixed rate of
    /// half a radian per second. The angle never decreases.
    pub fn advance(&mut self, elapsed_us: u64)
        requires
            old(self).angle + elapsed_us as int / 2 <= i64::MAX,
        ensures
            final(self).angle == old(self).angle + elapsed_us as int / 2,
            final(self).angle >= old(self).angle,
    {
        self.angle = self.angle + (elapsed_us / 2) as i64;
    }
}

} // verus!
