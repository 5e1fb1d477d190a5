use vstd::prelude::*;
use crate::animation::brush::Coord;

verus! {

/// A point of a path.
#[derive(Clone, Copy, Debug, PartialEq, Eq, Hash)]
pub struct PathPoint {
    pub position: Coord,
}

/// One step along a path.
#[derive(Clone, Copy, Debug, PartialEq, Eq, Hash)]
pub enum PathComponent {
    /// Move to a point
    Move(PathPoint),
    /// Line to a point
    Line(PathPoint),
    /// Bezier curve to the first point, with the two control points following it
    Bezier(PathPoint, PathPoint, PathPoint),
    /// Close the path
    Close,
}

impl PathComponent {
    /// The number of stored points that this component occupies.
    pub open spec fn spec_num_points(self) -> nat {
        match self {
            PathComponent::Move(_) => 1,
            PathComponent::Line(_) => 1,
            PathComponent::Bezier(_, _, _) => 3,
            PathComponent::Close => 1,
        }
    }

    /// The number of stored points that this component occupies.
    pub fn num_points(&self) -> (n: usize)
        ensures
            n == self.spec_num_points(),
    {
        match self {
            PathComponent::Move(_) => 1,
            PathComponent::Line(_) => 1,
            PathComponent::Bezier(_, _, _) => 3,
            PathComponent::Close => 1,
        }
    }
}

} // verus!
