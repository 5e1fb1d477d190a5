use vstd::prelude::*;

verus! {

/// The kinds of vector element.
#[derive(Clone, Copy, Debug, PartialEq, Eq, Hash, Structural)]
pub enum VectorType {
    BrushDefinition,
    BrushProperties,
    BrushStroke,
    Path,
    Motion,
}

} // verus!
