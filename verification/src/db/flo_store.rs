//! The instruction set of the store.
//!
//! Instructions work on one implicit stack of integers. A `Push..` instruction
//! leaves the stack at least as deep as it found it, a `Pop..` instruction takes
//! values away; the documentation of each says what it expects on the stack,
//! written bottom first.

use vstd::prelude::*;
use crate::animation::brush::{Bits32, Bits64, BrushPoint, Coord, RawPoint, TimeMicros};
use crate::animation::cache_type::CacheType;
use crate::animation::element_id::ElementId;
use crate::animation::motion::MotionType;
use crate::animation::path::PathComponent;
use crate::db::db_enum::{BrushDefinitionType, ColorType, DrawingStyleType, EditLogType, LayerType, VectorElementType};
use crate::db::motion_path_type::MotionPathType;

verus! {

/// Where an element moves in the drawing order of its key frame.
#[derive(Clone, Copy, Debug, PartialEq, Eq, Hash, Structural)]
pub enum DbElementMove {
    ToTop,
    ToBottom,
    Up,
    Down,
}

/// The three positions of one segment of a brush stroke: first control point,
/// second control point, end point.
pub type Segment = (Coord, Coord, Coord);

/// One instruction for the store.
#[derive(Clone, Debug, PartialEq, Eq)]
pub enum DatabaseUpdate {
    /// `[x]` to `[]`: discards the top of the stack
    Pop,
    /// `[x]` to `[x, x]`
    Duplicate,
    /// Sets the size of the canvas
    UpdateCanvasSize(Bits64, Bits64),
    /// `[]` to `[edit]`: opens a new entry of the edit log
    PushEditType(EditLogType),
    /// `[edit]` to `[]`: records a size
    PopEditLogSetSize(Bits64, Bits64),
    /// `[edit]`: records the layer the edit is for
    PushEditLogLayer(u64),
    /// `[edit]`: records the time the edit is for
    PushEditLogWhen(TimeMicros),
    /// `[edit]`: records how many element ids follow
    PushEditLogElementCount(usize),
    /// `[edit]`: records the element id at a position of the edit's list
    PushEditLogElementId(usize, ElementId),
    /// `[edit, brush]` to `[]`: records the brush with a drawing style
    PopEditLogBrush(DrawingStyleType),
    /// `[edit, properties]` to `[]`: records the brush properties
    PopEditLogBrushProperties,
    /// `[edit]`: records a list of raw points
    PushRawPoints(Vec<RawPoint>),
    /// `[edit]` to `[]`: records a string in a numbered slot
    PopEditLogString(u32, String),
    /// `[edit]`: records an integer in a numbered slot
    PushEditLogInt(u32, i64),
    /// `[edit]`: records a motion type
    PushEditLogMotionType(MotionType),
    /// `[edit]`: records the origin of a motion
    PushEditLogMotionOrigin(Bits32, Bits32),
    /// `[edit, point * n]` to `[edit]`: records the time points as a curve
    PushEditLogMotionPath(usize),
    /// `[edit, path]` to `[edit]`: records the points of the path
    PushEditLogPath,
    /// `[]` to `[path]`: makes a path of plain points
    PushPath(Vec<Coord>),
    /// `[]` to `[path]`: makes a path of components
    PushPathComponents(Vec<PathComponent>),
    /// `[]` to `[point]`: makes a time point
    PushTimePoint(Bits32, Bits32, Bits32),
    /// `[]` to `[brush]`: makes a brush of a type
    PushBrushType(BrushDefinitionType),
    /// `[brush]`: gives an ink brush its widths and its scale-up distance
    PushInkBrush(Bits32, Bits32, Bits32),
    /// `[]` to `[colour]`: makes a colour of a type
    PushColorType(ColorType),
    /// `[colour]`: gives an RGB colour its components
    PushRgb(Bits32, Bits32, Bits32, Bits32),
    /// `[colour]`: gives an HSLUV colour its components
    PushHsluv(Bits32, Bits32, Bits32, Bits32),
    /// `[colour]` to `[properties]`: makes brush properties of a size and an opacity
    PushBrushProperties(Bits32, Bits32),
    /// `[]` to `[layer]`: makes a layer of a type
    PushLayerType(LayerType),
    /// `[layer]`: gives the layer its user-facing id
    PushAssignLayer(u64),
    /// `[]` to `[layer]`: pushes a layer id as it is
    PushLayerId(i64),
    /// `[]` to `[layer]`: pushes the layer with a user-facing id
    PushLayerForAssignedId(u64),
    /// `[layer]` to `[]`: deletes the layer with its key frames and caches
    PopDeleteLayer,
    /// `[layer]` to `[]`: names the layer
    PopLayerName(String),
    /// `[layer]` to `[]`: gives the layer a key frame
    PopAddKeyFrame(TimeMicros),
    /// `[layer]` to `[]`: takes the key frames at a time away from the layer
    PopRemoveKeyFrame(TimeMicros),
    /// `[layer]` to `[]`: caches a value for the layer at a time
    PopStoreLayerCache(TimeMicros, CacheType, String),
    /// `[layer]` to `[]`: forgets what is cached for the layer at a time
    PopDeleteLayerCache(TimeMicros, CacheType),
    /// `[layer]` to `[start, key frame]`: the key frame at or before a time
    PushNearestKeyFrame(TimeMicros),
    /// `[]` to `[element]`: makes an element of a type
    PushVectorElementType(VectorElementType),
    /// `[start, key frame, element]`: puts the element into the key frame at a time
    PushVectorElementTime(TimeMicros),
    /// `[element]`: gives the element its assigned id
    PushElementAssignId(i64),
    /// `[]` to `[element]`: pushes the element with an assigned id
    PushElementIdForAssignedId(i64),
    /// `[element]` to `[element, key frame]`
    PushKeyFrameIdForElementId,
    /// `[element]` to `[element, path]`
    PushPathIdForElementId,
    /// `[element, attached * n]` to `[element]`: attaches the elements
    PushAttachElements(usize),
    /// `[element, attached * n]` to `[element]`: detaches the elements
    PushDetachElements(usize),
    /// `[element, brush]` to `[]`: makes the element a brush definition
    PopVectorBrushElement(DrawingStyleType),
    /// `[element, properties]` to `[]`: makes the element brush properties
    PopVectorBrushPropertiesElement,
    /// `[element]` to `[]`: makes the element a brush stroke
    PopBrushPoints(Vec<BrushPoint>),
    /// `[element, brush element, properties element, path]` to `[]`: makes the
    /// element a path
    PopVectorPathElement,
    /// `[element]` to `[]`: moves the points of a brush stroke
    UpdateBrushPointCoords(Vec<Segment>),
    /// `[path]` to `[]`: moves the points of a path
    UpdatePathPointCoords(Vec<Coord>),
    /// `[path]` to `[]`: removes the points from the first to before the second position
    PopRemovePathPoints(usize, usize),
    /// `[path]` to `[]`: inserts components at a position
    PopInsertPathComponents(usize, Vec<PathComponent>),
    /// `[element, key frame]` to `[]`: moves the element in the drawing order
    PopVectorElementMove(DbElementMove),
    /// `[element]` to `[]`: deletes the element and its attachments
    PopDeleteVectorElement,
    /// `[element]` to `[]`: takes the element out of its key frame
    PopDetachVectorElementFromFrame,
    /// Makes a motion with an assigned id
    CreateMotion(i64),
    /// Deletes a motion
    DeleteMotion(i64),
    /// Sets the type of a motion
    SetMotionType(i64, MotionType),
    /// Sets the origin of a motion
    SetMotionOrigin(i64, Bits32, Bits32),
    /// `[point * n]` to `[]`: sets the path of a motion
    SetMotionPath(i64, MotionPathType, usize),
}

/// What an instruction is as a mathematical value.
pub ghost enum UpdateView {
    Pop,
    Duplicate,
    UpdateCanvasSize(Bits64, Bits64),
    PushEditType(EditLogType),
    PopEditLogSetSize(Bits64, Bits64),
    PushEditLogLayer(u64),
    PushEditLogWhen(TimeMicros),
    PushEditLogElementCount(usize),
    PushEditLogElementId(usize, ElementId),
    PopEditLogBrush(DrawingStyleType),
    PopEditLogBrushProperties,
    PushRawPoints(Seq<RawPoint>),
    PopEditLogString(u32, Seq<char>),
    PushEditLogInt(u32, i64),
    PushEditLogMotionType(MotionType),
    PushEditLogMotionOrigin(Bits32, Bits32),
    PushEditLogMotionPath(usize),
    PushEditLogPath,
    PushPath(Seq<Coord>),
    PushPathComponents(Seq<PathComponent>),
    PushTimePoint(Bits32, Bits32, Bits32),
    PushBrushType(BrushDefinitionType),
    PushInkBrush(Bits32, Bits32, Bits32),
    PushColorType(ColorType),
    PushRgb(Bits32, Bits32, Bits32, Bits32),
    PushHsluv(Bits32, Bits32, Bits32, Bits32),
    PushBrushProperties(Bits32, Bits32),
    PushLayerType(LayerType),
    PushAssignLayer(u64),
    PushLayerId(i64),
    PushLayerForAssignedId(u64),
    PopDeleteLayer,
    PopLayerName(Seq<char>),
    PopAddKeyFrame(TimeMicros),
    PopRemoveKeyFrame(TimeMicros),
    PopStoreLayerCache(TimeMicros, CacheType, Seq<char>),
    PopDeleteLayerCache(TimeMicros, CacheType),
    PushNearestKeyFrame(TimeMicros),
    PushVectorElementType(VectorElementType),
    PushVectorElementTime(TimeMicros),
    PushElementAssignId(i64),
    PushElementIdForAssignedId(i64),
    PushKeyFrameIdForElementId,
    PushPathIdForElementId,
    PushAttachElements(usize),
    PushDetachElements(usize),
    PopVectorBrushElement(DrawingStyleType),
    PopVectorBrushPropertiesElement,
    PopBrushPoints(Seq<BrushPoint>),
    PopVectorPathElement,
    UpdateBrushPointCoords(Seq<Segment>),
    UpdatePathPointCoords(Seq<Coord>),
    PopRemovePathPoints(usize, usize),
    PopInsertPathComponents(usize, Seq<PathComponent>),
    PopVectorElementMove(DbElementMove),
    PopDeleteVectorElement,
    PopDetachVectorElementFromFrame,
    CreateMotion(i64),
    DeleteMotion(i64),
    SetMotionType(i64, MotionType),
    SetMotionOrigin(i64, Bits32, Bits32),
    SetMotionPath(i64, MotionPathType, usize),
}

impl View for DatabaseUpdate {
    type V = UpdateView;

    open spec fn view(&self) -> UpdateView {
        match *self {
            DatabaseUpdate::Pop => UpdateView::Pop,
            DatabaseUpdate::Duplicate => UpdateView::Duplicate,
            DatabaseUpdate::UpdateCanvasSize(w, h) => UpdateView::UpdateCanvasSize(w, h),
            DatabaseUpdate::PushEditType(t) => UpdateView::PushEditType(t),
            DatabaseUpdate::PopEditLogSetSize(w, h) => UpdateView::PopEditLogSetSize(w, h),
            DatabaseUpdate::PushEditLogLayer(l) => UpdateView::PushEditLogLayer(l),
            DatabaseUpdate::PushEditLogWhen(w) => UpdateView::PushEditLogWhen(w),
            DatabaseUpdate::PushEditLogElementCount(n) => UpdateView::PushEditLogElementCount(n),
            DatabaseUpdate::PushEditLogElementId(i, id) => UpdateView::PushEditLogElementId(i, id),
            DatabaseUpdate::PopEditLogBrush(s) => UpdateView::PopEditLogBrush(s),
            DatabaseUpdate::PopEditLogBrushProperties => UpdateView::PopEditLogBrushProperties,
            DatabaseUpdate::PushRawPoints(points) => UpdateView::PushRawPoints(points@),
            DatabaseUpdate::PopEditLogString(i, s) => UpdateView::PopEditLogString(i, s@),
            DatabaseUpdate::PushEditLogInt(i, v) => UpdateView::PushEditLogInt(i, v),
            DatabaseUpdate::PushEditLogMotionType(t) => UpdateView::PushEditLogMotionType(t),
            DatabaseUpdate::PushEditLogMotionOrigin(x, y) => UpdateView::PushEditLogMotionOrigin(x, y),
            DatabaseUpdate::PushEditLogMotionPath(n) => UpdateView::PushEditLogMotionPath(n),
            DatabaseUpdate::PushEditLogPath => UpdateView::PushEditLogPath,
            DatabaseUpdate::PushPath(points) => UpdateView::PushPath(points@),
            DatabaseUpdate::PushPathComponents(c) => UpdateView::PushPathComponents(c@),
            DatabaseUpdate::PushTimePoint(x, y, t) => UpdateView::PushTimePoint(x, y, t),
            DatabaseUpdate::PushBrushType(t) => UpdateView::PushBrushType(t),
            DatabaseUpdate::PushInkBrush(a, b, c) => UpdateView::PushInkBrush(a, b, c),
            DatabaseUpdate::PushColorType(t) => UpdateView::PushColorType(t),
            DatabaseUpdate::PushRgb(r, g, b, a) => UpdateView::PushRgb(r, g, b, a),
            DatabaseUpdate::PushHsluv(h, s, l, a) => UpdateView::PushHsluv(h, s, l, a),
            DatabaseUpdate::PushBrushProperties(s, o) => UpdateView::PushBrushProperties(s, o),
            DatabaseUpdate::PushLayerType(t) => UpdateView::PushLayerType(t),
            DatabaseUpdate::PushAssignLayer(a) => UpdateView::PushAssignLayer(a),
            DatabaseUpdate::PushLayerId(id) => UpdateView::PushLayerId(id),
            DatabaseUpdate::PushLayerForAssignedId(a) => UpdateView::PushLayerForAssignedId(a),
            DatabaseUpdate::PopDeleteLayer => UpdateView::PopDeleteLayer,
            DatabaseUpdate::PopLayerName(s) => UpdateView::PopLayerName(s@),
            DatabaseUpdate::PopAddKeyFrame(w) => UpdateView::PopAddKeyFrame(w),
            DatabaseUpdate::PopRemoveKeyFrame(w) => UpdateView::PopRemoveKeyFrame(w),
            DatabaseUpdate::PopStoreLayerCache(w, t, s) => UpdateView::PopStoreLayerCache(w, t, s@),
            DatabaseUpdate::PopDeleteLayerCache(w, t) => UpdateView::PopDeleteLayerCache(w, t),
            DatabaseUpdate::PushNearestKeyFrame(w) => UpdateView::PushNearestKeyFrame(w),
            DatabaseUpdate::PushVectorElementType(t) => UpdateView::PushVectorElementType(t),
            DatabaseUpdate::PushVectorElementTime(w) => UpdateView::PushVectorElementTime(w),
            DatabaseUpdate::PushElementAssignId(a) => UpdateView::PushElementAssignId(a),
            DatabaseUpdate::PushElementIdForAssignedId(a) => UpdateView::PushElementIdForAssignedId(a),
            DatabaseUpdate::PushKeyFrameIdForElementId => UpdateView::PushKeyFrameIdForElementId,
            DatabaseUpdate::PushPathIdForElementId => UpdateView::PushPathIdForElementId,
            DatabaseUpdate::PushAttachElements(n) => UpdateView::PushAttachElements(n),
            DatabaseUpdate::PushDetachElements(n) => UpdateView::PushDetachElements(n),
            DatabaseUpdate::PopVectorBrushElement(s) => UpdateView::PopVectorBrushElement(s),
            DatabaseUpdate::PopVectorBrushPropertiesElement => UpdateView::PopVectorBrushPropertiesElement,
            DatabaseUpdate::PopBrushPoints(points) => UpdateView::PopBrushPoints(points@),
            DatabaseUpdate::PopVectorPathElement => UpdateView::PopVectorPathElement,
            DatabaseUpdate::UpdateBrushPointCoords(s) => UpdateView::UpdateBrushPointCoords(s@),
            DatabaseUpdate::UpdatePathPointCoords(c) => UpdateView::UpdatePathPointCoords(c@),
            DatabaseUpdate::PopRemovePathPoints(a, b) => UpdateView::PopRemovePathPoints(a, b),
            DatabaseUpdate::PopInsertPathComponents(at, c) => UpdateView::PopInsertPathComponents(at, c@),
            DatabaseUpdate::PopVectorElementMove(m) => UpdateView::PopVectorElementMove(m),
            DatabaseUpdate::PopDeleteVectorElement => UpdateView::PopDeleteVectorElement,
            DatabaseUpdate::PopDetachVectorElementFromFrame => UpdateView::PopDetachVectorElementFromFrame,
            DatabaseUpdate::CreateMotion(id) => UpdateView::CreateMotion(id),
            DatabaseUpdate::DeleteMotion(id) => UpdateView::DeleteMotion(id),
            DatabaseUpdate::SetMotionType(id, t) => UpdateView::SetMotionType(id, t),
            DatabaseUpdate::SetMotionOrigin(id, x, y) => UpdateView::SetMotionOrigin(id, x, y),
            DatabaseUpdate::SetMotionPath(id, t, n) => UpdateView::SetMotionPath(id, t, n),
        }
    }
}

/// The views of a batch of instructions, one for one.
pub open spec fn updates_view(updates: Seq<DatabaseUpdate>) -> Seq<UpdateView> {
    updates.map_values(|u: DatabaseUpdate| u@)
}

} // verus!
