use vstd::prelude::*;

verus! {

/// What the path of a motion describes.
#[derive(Copy, Clone, PartialEq, Eq, Hash, Debug, Structural)]
pub enum MotionPathType {
    Position,
}

} // verus!
