use vstd::prelude::*;

verus! {

/// Identifies a vector element.
///
/// An `Unassigned` id stands for "allocate a fresh id when the edit is committed";
/// an `Assigned` id is stable for the lifetime of the animation.
#[derive(Clone, Copy, Debug, PartialEq, Eq, Hash, Structural)]
pub enum ElementId {
    Unassigned,
    Assigned(i64),
}

impl ElementId {
    /// True if this id has been assigned.
    pub fn is_assigned(&self) -> (r: bool)
        ensures
            r == (*self is Assigned),
    {
        match self {
            ElementId::Assigned(_) => true,
            ElementId::Unassigned => false,
        }
    }

    /// True if this id is still a placeholder.
    pub fn is_unassigned(&self) -> (r: bool)
        ensures
            r == (*self is Unassigned),
    {
        match self {
            ElementId::Assigned(_) => false,
            ElementId::Unassigned => true,
        }
    }

    /// The assigned value, if there is one.
    pub fn id(&self) -> (r: Option<i64>)
        ensures
            r == self.spec_id(),
    {
        match self {
            ElementId::Assigned(id) => Some(*id),
            ElementId::Unassigned => None,
        }
    }

    /// The assigned value as a mathematical option.
    pub open spec fn spec_id(&self) -> Option<i64> {
        match *self {
            ElementId::Assigned(id) => Some(id),
            ElementId::Unassigned => None,
        }
    }
}

} // verus!
