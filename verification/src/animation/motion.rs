use vstd::prelude::*;
use crate::animation::brush::Bits32;

verus! {

/// What a motion does to the elements it is attached to.
#[derive(Clone, Copy, Debug, PartialEq, Eq, Hash, Structural)]
pub enum MotionType {
    /// Element does not move
    Stationary,
    /// Reverses the effect of the previous motion
    Reverse,
    /// Element is moved along a path
    Translate,
}

/// A position at a moment: x, y and the time in milliseconds.
#[derive(Clone, Copy, Debug, PartialEq, Eq, Hash, Structural)]
pub struct TimePoint(pub Bits32, pub Bits32, pub Bits32);

/// A point of a time curve with the control points on either side of it.
#[derive(Clone, Copy, Debug, PartialEq, Eq, Hash, Structural)]
pub struct TimeControlPoint {
    /// The point itself
    pub point: TimePoint,
    /// The control point before it
    pub past: TimePoint,
    /// The control point after it
    pub future: TimePoint,
}

/// A piecewise curve from time to position.
#[derive(Clone, Debug, PartialEq, Eq)]
pub struct TimeCurve {
    pub points: Vec<TimeControlPoint>,
}

impl View for TimeCurve {
    type V = Seq<TimeControlPoint>;

    open spec fn view(&self) -> Seq<TimeControlPoint> {
        self.points@
    }
}

} // verus!
