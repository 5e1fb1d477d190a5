use vstd::prelude::*;

verus! {

/// An operation that the store knows of and does not carry out.
#[derive(Clone, Copy, Debug, PartialEq, Eq, Hash, Structural)]
pub enum UnsupportedOperation {
    /// Changing the position of a layer among its siblings
    LayerOrdering,
    /// Moving an element to just before another one
    OrderBefore,
}

/// Why the store could not carry out what it was asked.
#[derive(Clone, Copy, Debug, PartialEq, Eq, Hash, Structural)]
pub enum StoreError {
    /// The store has handed out every id it has
    OutOfIds,
    /// The edit log entry that an instruction writes to is not the newest one
    EditNotOpen,
    /// No brush has the id that was given
    MissingBrush,
    /// The brush lacks the values that its type needs
    IncompleteBrush,
    /// The values given are not those of the brush's type
    BrushTypeMismatch,
    /// No colour has the id that was given
    MissingColor,
    /// The colour has no components yet
    IncompleteColor,
    /// The components given are not those of the colour's type
    ColorTypeMismatch,
    /// No brush properties have the id that was given
    MissingBrushProperties,
    /// No path has the id that was given
    MissingPath,
    /// No time point has the id that was given
    MissingTimePoint,
    /// No layer has the id that was given
    MissingLayer,
    /// The layer has no key frame at or before the time that was given
    MissingKeyFrame,
    /// No element has the id that was given
    MissingElement,
    /// The element is not of the type that the instruction works on
    UnexpectedElementType,
    /// A row points outside the table it refers to
    BrokenReference,
    /// The operation is known and not carried out
    Unsupported(UnsupportedOperation),
    /// What keeps the animation outside memory could not be read or written
    StorageFailure,
}

} // verus!
