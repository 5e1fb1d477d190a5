use vstd::prelude::*;
use crate::animation::brush::{Bits32, Bits64, BrushDefinition, BrushDrawingStyle, BrushProperties, Coord, RawPoint, TimeMicros};
use crate::animation::element_id::ElementId;
use crate::animation::motion::{MotionType, TimeControlPoint, TimeCurve};
use crate::animation::path::PathComponent;

verus! {

/// An edit that paints on a layer.
#[derive(Clone, Debug, PartialEq, Eq)]
pub enum PaintEdit {
    /// Selects the brush with the specified definition for painting
    SelectBrush(ElementId, BrushDefinition, BrushDrawingStyle),
    /// Sets the properties for brush strokes
    BrushProperties(ElementId, BrushProperties),
    /// Draws a brush stroke using the current brush and the specified set of input points
    BrushStroke(ElementId, Vec<RawPoint>),
}

/// What a `PaintEdit` is as a mathematical value.
pub ghost enum PaintEditView {
    SelectBrush(ElementId, BrushDefinition, BrushDrawingStyle),
    BrushProperties(ElementId, BrushProperties),
    BrushStroke(ElementId, Seq<RawPoint>),
}

impl View for PaintEdit {
    type V = PaintEditView;

    open spec fn view(&self) -> PaintEditView {
        match *self {
            PaintEdit::SelectBrush(id, defn, style) => PaintEditView::SelectBrush(id, defn, style),
            PaintEdit::BrushProperties(id, props) => PaintEditView::BrushProperties(id, props),
            PaintEdit::BrushStroke(id, points) => PaintEditView::BrushStroke(id, points@),
        }
    }
}

/// An edit that draws a path on a layer.
#[derive(Clone, Debug, PartialEq, Eq)]
pub enum PathEdit {
    /// Creates a new path consisting of the specified components
    CreatePath(ElementId, Vec<PathComponent>),
    /// Selects the brush with the specified definition for the following paths
    SelectBrush(ElementId, BrushDefinition, BrushDrawingStyle),
    /// Sets the properties for the following paths
    BrushProperties(ElementId, BrushProperties),
}

/// What a `PathEdit` is as a mathematical value.
pub ghost enum PathEditView {
    CreatePath(ElementId, Seq<PathComponent>),
    SelectBrush(ElementId, BrushDefinition, BrushDrawingStyle),
    BrushProperties(ElementId, BrushProperties),
}

impl View for PathEdit {
    type V = PathEditView;

    open spec fn view(&self) -> PathEditView {
        match *self {
            PathEdit::CreatePath(id, components) => PathEditView::CreatePath(id, components@),
            PathEdit::SelectBrush(id, defn, style) => PathEditView::SelectBrush(id, defn, style),
            PathEdit::BrushProperties(id, props) => PathEditView::BrushProperties(id, props),
        }
    }
}

/// An edit to a single layer.
#[derive(Clone, Debug, PartialEq, Eq)]
pub enum LayerEdit {
    /// Edit to a paint layer
    Paint(TimeMicros, PaintEdit),
    /// Edit to a path
    Path(TimeMicros, PathEdit),
    /// Adds a key frame at a particular point in time
    AddKeyFrame(TimeMicros),
    /// Removes a key frame previously added at a particular point in time
    RemoveKeyFrame(TimeMicros),
    /// Changes the name of this layer
    SetName(String),
    /// Changes the position of this layer among its siblings
    SetOrdering(u32),
}

/// What a `LayerEdit` is as a mathematical value.
pub ghost enum LayerEditView {
    Paint(TimeMicros, PaintEditView),
    Path(TimeMicros, PathEditView),
    AddKeyFrame(TimeMicros),
    RemoveKeyFrame(TimeMicros),
    SetName(Seq<char>),
    SetOrdering(u32),
}

impl View for LayerEdit {
    type V = LayerEditView;

    open spec fn view(&self) -> LayerEditView {
        match *self {
            LayerEdit::Paint(when, edit) => LayerEditView::Paint(when, edit@),
            LayerEdit::Path(when, edit) => LayerEditView::Path(when, edit@),
            LayerEdit::AddKeyFrame(when) => LayerEditView::AddKeyFrame(when),
            LayerEdit::RemoveKeyFrame(when) => LayerEditView::RemoveKeyFrame(when),
            LayerEdit::SetName(name) => LayerEditView::SetName(name@),
            LayerEdit::SetOrdering(at) => LayerEditView::SetOrdering(at),
        }
    }
}

/// Where an element goes in the drawing order of its key frame.
#[derive(Clone, Copy, Debug, PartialEq, Eq, Hash, Structural)]
pub enum ElementOrdering {
    InFront,
    Behind,
    ToTop,
    ToBottom,
    Before(ElementId),
}

/// An edit to one or more existing elements.
#[derive(Clone, Debug, PartialEq, Eq)]
pub enum ElementEdit {
    /// Attaches the element with the specified id to the edited elements
    AddAttachment(ElementId),
    /// Takes the attachment to the element with the specified id away again
    RemoveAttachment(ElementId),
    /// Updates the control points of the edited elements
    SetControlPoints(Vec<Coord>),
    /// Replaces the path of the edited elements
    SetPath(Vec<PathComponent>),
    /// Moves the edited elements in the drawing order
    Order(ElementOrdering),
    /// Deletes the edited elements
    Delete,
    /// Takes the edited elements out of their key frame without deleting them
    DetachFromFrame,
}

/// What an `ElementEdit` is as a mathematical value.
pub ghost enum ElementEditView {
    AddAttachment(ElementId),
    RemoveAttachment(ElementId),
    SetControlPoints(Seq<Coord>),
    SetPath(Seq<PathComponent>),
    Order(ElementOrdering),
    Delete,
    DetachFromFrame,
}

impl View for ElementEdit {
    type V = ElementEditView;

    open spec fn view(&self) -> ElementEditView {
        match *self {
            ElementEdit::AddAttachment(id) => ElementEditView::AddAttachment(id),
            ElementEdit::RemoveAttachment(id) => ElementEditView::RemoveAttachment(id),
            ElementEdit::SetControlPoints(points) => ElementEditView::SetControlPoints(points@),
            ElementEdit::SetPath(components) => ElementEditView::SetPath(components@),
            ElementEdit::Order(ordering) => ElementEditView::Order(ordering),
            ElementEdit::Delete => ElementEditView::Delete,
            ElementEdit::DetachFromFrame => ElementEditView::DetachFromFrame,
        }
    }
}

/// An edit to a motion.
#[derive(Clone, Debug, PartialEq, Eq)]
pub enum MotionEdit {
    /// Creates a new motion with no type
    Create,
    /// Deletes the motion
    Delete,
    /// Sets the type of the motion
    SetType(MotionType),
    /// Sets the point the motion starts from
    SetOrigin(Bits32, Bits32),
    /// Sets the curve the motion follows
    SetPath(TimeCurve),
}

/// What a `MotionEdit` is as a mathematical value.
pub ghost enum MotionEditView {
    Create,
    Delete,
    SetType(MotionType),
    SetOrigin(Bits32, Bits32),
    SetPath(Seq<TimeControlPoint>),
}

impl View for MotionEdit {
    type V = MotionEditView;

    open spec fn view(&self) -> MotionEditView {
        match *self {
            MotionEdit::Create => MotionEditView::Create,
            MotionEdit::Delete => MotionEditView::Delete,
            MotionEdit::SetType(t) => MotionEditView::SetType(t),
            MotionEdit::SetOrigin(x, y) => MotionEditView::SetOrigin(x, y),
            MotionEdit::SetPath(curve) => MotionEditView::SetPath(curve@),
        }
    }
}

/// One atomic change to an animation.
#[derive(Clone, Debug, PartialEq, Eq)]
pub enum AnimationEdit {
    /// Edits the layer with the specified (user-facing) id
    Layer(u64, LayerEdit),
    /// Edits the elements with the specified ids
    Element(Vec<ElementId>, ElementEdit),
    /// Edits the motion with the specified id
    Motion(ElementId, MotionEdit),
    /// Sets the canvas size for this animation
    SetSize(Bits64, Bits64),
    /// Adds a new layer and assigns it the specified id
    AddNewLayer(u64),
    /// Removes the layer with the specified id
    RemoveLayer(u64),
}

/// What an `AnimationEdit` is as a mathematical value.
pub ghost enum AnimationEditView {
    Layer(u64, LayerEditView),
    Element(Seq<ElementId>, ElementEditView),
    Motion(ElementId, MotionEditView),
    SetSize(Bits64, Bits64),
    AddNewLayer(u64),
    RemoveLayer(u64),
}

impl View for AnimationEdit {
    type V = AnimationEditView;

    open spec fn view(&self) -> AnimationEditView {
        match *self {
            AnimationEdit::Layer(layer, edit) => AnimationEditView::Layer(layer, edit@),
            AnimationEdit::Element(ids, edit) => AnimationEditView::Element(ids@, edit@),
            AnimationEdit::Motion(id, edit) => AnimationEditView::Motion(id, edit@),
            AnimationEdit::SetSize(w, h) => AnimationEditView::SetSize(w, h),
            AnimationEdit::AddNewLayer(layer) => AnimationEditView::AddNewLayer(layer),
            AnimationEdit::RemoveLayer(layer) => AnimationEditView::RemoveLayer(layer),
        }
    }
}

/// The views of a list of edits, one for one.
pub open spec fn edits_view(edits: Seq<AnimationEdit>) -> Seq<AnimationEditView> {
    edits.map_values(|e: AnimationEdit| e@)
}

} // verus!
