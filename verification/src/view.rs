//! The view context: the visible area's edges as pure functions of the
//! current viewport aspect ratio, threaded explicitly into every layout,
//! measure and draw call.

use vstd::prelude::*;
use crate::COORD_ONE;

verus! {

/// Widest aspect ratio the layout is prepared for (eight times as wide as
/// tall); narrower than a tenth of that is likewise rejected.
pub const ASPECT_MAX: i64 = 8 * COORD_ONE;

pub const ASPECT_MIN: i64 = 1600;

/// The per-frame view parameters: the half-width of the visible area in
/// fixed-point units.  The visible area is `[-aspect, aspect]` across and
/// `[-COORD_ONE, COORD_ONE]` high.
#[derive(Clone, Copy, Debug, PartialEq, Eq, Structural)]
pub struct ViewCtx {
    pub aspect: i64,
}

impl ViewCtx {
    pub open spec fn wf(self) -> bool {
        ASPECT_MIN <= self.aspect <= ASPECT_MAX
    }

    pub fn top_edge(self) -> (r: i64)
        ensures
            r == COORD_ONE,
    {
        COORD_ONE
    }

    pub fn bottom_edge(self) -> (r: i64)
        ensures
            r == -COORD_ONE,
    {
        -COORD_ONE
    }

    pub fn left_edge(self) -> (r: i64)
        requires
            self.wf(),
        ensures
            r == -self.aspect,
    {
        -self.aspect
    }

    pub fn right_edge(self) -> (r: i64)
        requires
            self.wf(),
        ensures
            r == self.aspect,
    {
        self.aspect
    }
}

} // verus!
