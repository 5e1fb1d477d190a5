//! What the instructions of the store mean.
//!
//! `step` says what one instruction does to the tables and the stack, `run` what
//! a batch does. Both are total: an instruction that cannot be carried out gives
//! an error, and nothing else stops a batch.

use vstd::prelude::*;
use crate::animation::brush::{BrushDefinition, BrushPoint, BrushProperties, Color, InkDefinition, TimeMicros, RawPoint};
use crate::animation::motion::{MotionType, TimePoint};
use crate::db::db_enum::{BrushDefinitionType, ColorType};
use crate::db::error::StoreError;
use crate::db::flo_store::{DbElementMove, UpdateView};
use crate::db::matchers::{AttachTo, PathPointParam, RawPointParam, TimePointParam, Attachment, CacheAt, CacheOfLayer, ElementAssigned, FrameAt, FrameOfLayer, InKeyFrame, LayerAssigned, TouchesElement};
use crate::db::points::{flatten_components, lookup_time_points, moved_brush_points, moved_path_points, plain_points, points_inserted, points_removed, run_of};
use crate::db::relation::{find_key, find_match, mapped, without_key, without_match, Matcher};
use crate::db::rows::{AttachRow, BrushPropertiesRow, BrushRow, CacheRow, ColorRow, EditLogParam, EditLogRow, ElementDetail, ElementRow, FrameRef, KeyFrameRow, LayerRow, MotionPathRef, MotionRow, PathPointRow, PathRow, TablesView, TimePointRow};

verus! {

/// The tables of the store together with its stack.
pub ghost struct Machine {
    pub tables: TablesView,
    pub stack: Seq<i64>,
}

/// Where an instruction leaves the machine, or why it could not be carried out.
pub type Outcome = Result<Machine, StoreError>;

impl Machine {
    /// A store that holds nothing, with an empty stack.
    pub open spec fn empty() -> Machine {
        Machine { tables: TablesView::empty(), stack: Seq::empty() }
    }

    /// The value `depth` places below the top of the stack; the top itself at 0.
    pub open spec fn peek(self, depth: int) -> i64 {
        self.stack[self.stack.len() - 1 - depth]
    }

    /// The stack without its top `n` values.
    pub open spec fn popped(self, n: int) -> Seq<i64> {
        self.stack.take(self.stack.len() - n)
    }

    /// The top `n` values of the stack, the deepest first.
    pub open spec fn top(self, n: int) -> Seq<i64> {
        self.stack.skip(self.stack.len() - n)
    }

    /// True if `edit` is the newest entry of the edit log: the one that can
    /// still be given parameters.
    pub open spec fn is_open(self, edit: i64) -> bool {
        self.tables.edit_log.len() > 0 && edit == self.tables.edit_log.len() - 1
    }

    /// The machine after `params` were recorded for the entry `edit`, with
    /// `stack` for its stack; an error if that entry is not the newest.
    pub open spec fn record(self, edit: i64, params: Seq<EditLogParam>, stack: Seq<i64>) -> Outcome {
        if !self.is_open(edit) {
            Err(StoreError::EditNotOpen)
        } else {
            Ok(
                Machine {
                    tables: TablesView { edit_params: self.tables.edit_params + params, ..self.tables },
                    stack,
                },
            )
        }
    }
}

/// How many values an instruction needs on the stack.
pub open spec fn needs(u: UpdateView) -> nat {
    match u {
        UpdateView::Pop => 1,
        UpdateView::Duplicate => 1,
        UpdateView::UpdateCanvasSize(_, _) => 0,
        UpdateView::PushEditType(_) => 0,
        UpdateView::PopEditLogSetSize(_, _) => 1,
        UpdateView::PushEditLogLayer(_) => 1,
        UpdateView::PushEditLogWhen(_) => 1,
        UpdateView::PushEditLogElementCount(_) => 1,
        UpdateView::PushEditLogElementId(_, _) => 1,
        UpdateView::PopEditLogBrush(_) => 2,
        UpdateView::PopEditLogBrushProperties => 2,
        UpdateView::PushRawPoints(_) => 1,
        UpdateView::PopEditLogString(_, _) => 1,
        UpdateView::PushEditLogInt(_, _) => 1,
        UpdateView::PushEditLogMotionType(_) => 1,
        UpdateView::PushEditLogMotionOrigin(_, _) => 1,
        UpdateView::PushEditLogMotionPath(n) => (n + 1) as nat,
        UpdateView::PushEditLogPath => 2,
        UpdateView::PushPath(_) => 0,
        UpdateView::PushPathComponents(_) => 0,
        UpdateView::PushTimePoint(_, _, _) => 0,
        UpdateView::PushBrushType(_) => 0,
        UpdateView::PushInkBrush(_, _, _) => 1,
        UpdateView::PushColorType(_) => 0,
        UpdateView::PushRgb(_, _, _, _) => 1,
        UpdateView::PushHsluv(_, _, _, _) => 1,
        UpdateView::PushBrushProperties(_, _) => 1,
        UpdateView::PushLayerType(_) => 0,
        UpdateView::PushAssignLayer(_) => 1,
        UpdateView::PushLayerId(_) => 0,
        UpdateView::PushLayerForAssignedId(_) => 0,
        UpdateView::PopDeleteLayer => 1,
        UpdateView::PopLayerName(_) => 1,
        UpdateView::PopAddKeyFrame(_) => 1,
        UpdateView::PopRemoveKeyFrame(_) => 1,
        UpdateView::PopStoreLayerCache(_, _, _) => 1,
        UpdateView::PopDeleteLayerCache(_, _) => 1,
        UpdateView::PushNearestKeyFrame(_) => 1,
        UpdateView::PushVectorElementType(_) => 0,
        UpdateView::PushVectorElementTime(_) => 3,
        UpdateView::PushElementAssignId(_) => 1,
        UpdateView::PushElementIdForAssignedId(_) => 0,
        UpdateView::PushKeyFrameIdForElementId => 1,
        UpdateView::PushPathIdForElementId => 1,
        UpdateView::PushAttachElements(n) => (n + 1) as nat,
        UpdateView::PushDetachElements(n) => (n + 1) as nat,
        UpdateView::PopVectorBrushElement(_) => 2,
        UpdateView::PopVectorBrushPropertiesElement => 2,
        UpdateView::PopBrushPoints(_) => 1,
        UpdateView::PopVectorPathElement => 4,
        UpdateView::UpdateBrushPointCoords(_) => 1,
        UpdateView::UpdatePathPointCoords(_) => 1,
        UpdateView::PopRemovePathPoints(_, _) => 1,
        UpdateView::PopInsertPathComponents(_, _) => 1,
        UpdateView::PopVectorElementMove(_) => 2,
        UpdateView::PopDeleteVectorElement => 1,
        UpdateView::PopDetachVectorElementFromFrame => 1,
        UpdateView::CreateMotion(_) => 0,
        UpdateView::DeleteMotion(_) => 0,
        UpdateView::SetMotionType(_, _) => 0,
        UpdateView::SetMotionOrigin(_, _, _) => 0,
        UpdateView::SetMotionPath(_, _, n) => n as nat,
    }
}

/// By how much an instruction that succeeds changes the depth of the stack.
pub open spec fn effect(u: UpdateView) -> int {
    match u {
        UpdateView::Pop => -1,
        UpdateView::Duplicate => 1,
        UpdateView::PushEditType(_) => 1,
        UpdateView::PopEditLogSetSize(_, _) => -1,
        UpdateView::PopEditLogBrush(_) => -2,
        UpdateView::PopEditLogBrushProperties => -2,
        UpdateView::PopEditLogString(_, _) => -1,
        UpdateView::PushEditLogMotionPath(n) => -n,
        UpdateView::PushEditLogPath => -1,
        UpdateView::PushPath(_) => 1,
        UpdateView::PushPathComponents(_) => 1,
        UpdateView::PushTimePoint(_, _, _) => 1,
        UpdateView::PushBrushType(_) => 1,
        UpdateView::PushColorType(_) => 1,
        UpdateView::PushLayerType(_) => 1,
        UpdateView::PushLayerId(_) => 1,
        UpdateView::PushLayerForAssignedId(_) => 1,
        UpdateView::PopDeleteLayer => -1,
        UpdateView::PopLayerName(_) => -1,
        UpdateView::PopAddKeyFrame(_) => -1,
        UpdateView::PopRemoveKeyFrame(_) => -1,
        UpdateView::PopStoreLayerCache(_, _, _) => -1,
        UpdateView::PopDeleteLayerCache(_, _) => -1,
        UpdateView::PushNearestKeyFrame(_) => 1,
        UpdateView::PushVectorElementType(_) => 1,
        UpdateView::PushElementIdForAssignedId(_) => 1,
        UpdateView::PushKeyFrameIdForElementId => 1,
        UpdateView::PushPathIdForElementId => 1,
        UpdateView::PushAttachElements(n) => -n,
        UpdateView::PushDetachElements(n) => -n,
        UpdateView::PopVectorBrushElement(_) => -2,
        UpdateView::PopVectorBrushPropertiesElement => -2,
        UpdateView::PopBrushPoints(_) => -1,
        UpdateView::PopVectorPathElement => -4,
        UpdateView::UpdateBrushPointCoords(_) => -1,
        UpdateView::UpdatePathPointCoords(_) => -1,
        UpdateView::PopRemovePathPoints(_, _) => -1,
        UpdateView::PopInsertPathComponents(_, _) => -1,
        UpdateView::PopVectorElementMove(_) => -2,
        UpdateView::PopDeleteVectorElement => -1,
        UpdateView::PopDetachVectorElementFromFrame => -1,
        UpdateView::SetMotionPath(_, _, n) => -n,
        _ => 0,
    }
}

/// The key frame of a layer that is the nearest at or before a time; of two at the
/// same time, the newer.
pub open spec fn nearest_key_frame(rows: Seq<KeyFrameRow>, layer: i64, when: TimeMicros) -> Option<int>
    decreases rows.len(),
{
    if rows.len() == 0 {
        None
    } else {
        let rest = nearest_key_frame(rows.drop_last(), layer, when);
        let last = rows.last();
        if last.layer == layer && last.when <= when && (match rest {
            Some(i) => rows[i].when <= last.when,
            None => true,
        }) {
            Some(rows.len() - 1)
        } else {
            rest
        }
    }
}

/// What `nearest_key_frame` finds is a key frame of the layer that starts at or
/// before the time; no key frame of the layer starts after it and at or before
/// the time, and of those that start when it starts it is the newest. It finds
/// none only if no key frame of the layer starts at or before the time.
pub proof fn lemma_nearest_key_frame(rows: Seq<KeyFrameRow>, layer: i64, when: TimeMicros)
    ensures
        match nearest_key_frame(rows, layer, when) {
            Some(i) => {
                &&& 0 <= i < rows.len()
                &&& rows[i].layer == layer
                &&& rows[i].when <= when
                &&& forall|j: int|
                    0 <= j < rows.len() && rows[j].layer == layer && rows[j].when <= when ==> rows[j].when
                        < rows[i].when || (rows[j].when == rows[i].when && j <= i)
            },
            None => forall|j: int| 0 <= j < rows.len() ==> !(rows[j].layer == layer && rows[j].when <= when),
        },
    decreases rows.len(),
{
    if rows.len() > 0 {
        let rest = rows.drop_last();
        lemma_nearest_key_frame(rest, layer, when);
        assert forall|j: int| 0 <= j < rest.len() implies rest[j] == rows[j] by {}
        match nearest_key_frame(rows, layer, when) {
            Some(i) => {
                assert forall|j: int|
                    0 <= j < rows.len() && rows[j].layer == layer && rows[j].when <= when implies rows[j].when
                    < rows[i].when || (rows[j].when == rows[i].when && j <= i) by {
                    if j < rest.len() {
                        assert(rest[j] == rows[j]);
                    }
                }
            },
            None => {
                assert forall|j: int| 0 <= j < rows.len() implies !(rows[j].layer == layer && rows[j].when
                    <= when) by {
                    if j < rest.len() {
                        assert(rest[j] == rows[j]);
                    }
                }
            },
        }
    }
}

/// The first element from position `from` on that is in the key frame.
pub open spec fn first_in_frame_from(rows: Seq<ElementRow>, from: int, key_frame: i64) -> Option<int>
    decreases rows.len() - from,
{
    if from < 0 || from >= rows.len() {
        None
    } else if InKeyFrame(key_frame).matches(rows[from]) {
        Some(from)
    } else {
        first_in_frame_from(rows, from + 1, key_frame)
    }
}

/// The last element before position `before` that is in the key frame.
pub open spec fn last_in_frame_before(rows: Seq<ElementRow>, before: int, key_frame: i64) -> Option<int>
    decreases before,
{
    if before <= 0 || before > rows.len() {
        None
    } else if InKeyFrame(key_frame).matches(rows[before - 1]) {
        Some(before - 1)
    } else {
        last_in_frame_before(rows, before - 1, key_frame)
    }
}

/// The elements after the one at position `i` was moved in the drawing order of
/// the key frame.
pub open spec fn moved_element(rows: Seq<ElementRow>, i: int, key_frame: i64, how: DbElementMove) -> Seq<ElementRow> {
    match how {
        DbElementMove::ToTop => rows.remove(i).push(rows[i]),
        DbElementMove::ToBottom => rows.remove(i).insert(0, rows[i]),
        DbElementMove::Up => match first_in_frame_from(rows, i + 1, key_frame) {
            Some(j) => rows.update(i, rows[j]).update(j, rows[i]),
            None => rows,
        },
        DbElementMove::Down => match last_in_frame_before(rows, i, key_frame) {
            Some(j) => rows.update(i, rows[j]).update(j, rows[i]),
            None => rows,
        },
    }
}

/// The attachments of each of `ids` to `target`.
pub open spec fn attach_rows(target: i64, ids: Seq<i64>) -> Seq<AttachRow> {
    mapped(ids, AttachTo(target))
}

/// The attachments without those of each of `ids` to `target`.
pub open spec fn detach_all(rows: Seq<AttachRow>, target: i64, ids: Seq<i64>) -> Seq<AttachRow>
    decreases ids.len(),
{
    if ids.len() == 0 {
        rows
    } else {
        without_match(
            detach_all(rows, target, ids.drop_last()),
            Attachment { element: target, attached: ids.last() },
        )
    }
}

/// Raw points as parameters of the edit log.
pub open spec fn raw_point_params(points: Seq<RawPoint>) -> Seq<EditLogParam> {
    mapped(points, RawPointParam)
}

/// Time points as parameters of the edit log.
pub open spec fn time_point_params(points: Seq<TimePoint>) -> Seq<EditLogParam> {
    mapped(points, TimePointParam)
}

/// Stored path points as parameters of the edit log.
pub open spec fn path_point_params(points: Seq<PathPointRow>) -> Seq<EditLogParam> {
    mapped(points, PathPointParam)
}

/// What the instructions that write the edit log do.
pub open spec fn step_log(m: Machine, u: UpdateView) -> Outcome
    recommends
        m.stack.len() >= needs(u),
{
    let t = m.tables;
    match u {
        UpdateView::PushEditType(edit_type) => {
            if t.edit_log.len() >= i64::MAX {
                Err(StoreError::OutOfIds)
            } else {
                Ok(
                    Machine {
                        tables: TablesView {
                            edit_log: t.edit_log.push(
                                EditLogRow { edit_type, first_param: t.edit_params.len() as usize },
                            ),
                            ..t
                        },
                        stack: m.stack.push(t.edit_log.len() as i64),
                    },
                )
            }
        },
        UpdateView::PopEditLogSetSize(w, h) => m.record(m.peek(0), seq![EditLogParam::Size(w, h)], m.popped(1)),
        UpdateView::PushEditLogLayer(layer) => m.record(m.peek(0), seq![EditLogParam::Layer(layer)], m.stack),
        UpdateView::PushEditLogWhen(when) => m.record(m.peek(0), seq![EditLogParam::When(when)], m.stack),
        UpdateView::PushEditLogElementCount(n) => m.record(
            m.peek(0),
            seq![EditLogParam::ElementCount(n)],
            m.stack,
        ),
        UpdateView::PushEditLogElementId(i, id) => m.record(
            m.peek(0),
            seq![EditLogParam::ElementId(i, id)],
            m.stack,
        ),
        UpdateView::PopEditLogBrush(style) => match find_key(t.brushes, m.peek(0)) {
            None => Err(StoreError::MissingBrush),
            Some(i) => match t.brushes[i].definition {
                None => Err(StoreError::IncompleteBrush),
                Some(definition) => m.record(
                    m.peek(1),
                    seq![EditLogParam::Brush(definition, style)],
                    m.popped(2),
                ),
            },
        },
        UpdateView::PopEditLogBrushProperties => match find_key(t.brush_properties, m.peek(0)) {
            None => Err(StoreError::MissingBrushProperties),
            Some(i) => m.record(
                m.peek(1),
                seq![EditLogParam::BrushProperties(t.brush_properties[i].properties)],
                m.popped(2),
            ),
        },
        UpdateView::PushRawPoints(points) => m.record(m.peek(0), raw_point_params(points), m.stack),
        UpdateView::PopEditLogString(slot, text) => {
            if !m.is_open(m.peek(0)) {
                Err(StoreError::EditNotOpen)
            } else {
                Ok(
                    Machine {
                        tables: TablesView {
                            strings: t.strings.push(text),
                            edit_params: t.edit_params.push(
                                EditLogParam::Text(slot, t.strings.len() as usize),
                            ),
                            ..t
                        },
                        stack: m.popped(1),
                    },
                )
            }
        },
        UpdateView::PushEditLogInt(slot, value) => m.record(
            m.peek(0),
            seq![EditLogParam::Int(slot, value)],
            m.stack,
        ),
        UpdateView::PushEditLogMotionType(motion_type) => m.record(
            m.peek(0),
            seq![EditLogParam::MotionType(motion_type)],
            m.stack,
        ),
        UpdateView::PushEditLogMotionOrigin(x, y) => m.record(
            m.peek(0),
            seq![EditLogParam::MotionOrigin(x, y)],
            m.stack,
        ),
        UpdateView::PushEditLogMotionPath(n) => match lookup_time_points(t.time_points, m.top(n as int)) {
            None => Err(StoreError::MissingTimePoint),
            Some(points) => m.record(m.peek(n as int), time_point_params(points), m.popped(n as int)),
        },
        UpdateView::PushEditLogPath => match find_key(t.paths, m.peek(0)) {
            None => Err(StoreError::MissingPath),
            Some(i) => match run_of(t.path_points, t.paths[i].first, t.paths[i].count) {
                None => Err(StoreError::BrokenReference),
                Some(points) => m.record(m.peek(1), path_point_params(points), m.popped(1)),
            },
        },
        _ => Ok(m),
    }
}

/// What the instructions do that put brushes, colours, paths and time points
/// together before an element or the edit log takes them.
pub open spec fn step_staging(m: Machine, u: UpdateView) -> Outcome
    recommends
        m.stack.len() >= needs(u),
{
    let t = m.tables;
    match u {
        UpdateView::PushPath(coords) => {
            if t.next_id >= i64::MAX {
                Err(StoreError::OutOfIds)
            } else {
                Ok(
                    Machine {
                        tables: TablesView {
                            next_id: (t.next_id + 1) as i64,
                            paths: t.paths.push(
                                PathRow {
                                    id: t.next_id,
                                    first: t.path_points.len() as usize,
                                    count: coords.len() as usize,
                                },
                            ),
                            path_points: t.path_points + plain_points(coords),
                            ..t
                        },
                        stack: m.stack.push(t.next_id),
                    },
                )
            }
        },
        UpdateView::PushPathComponents(components) => {
            if t.next_id >= i64::MAX {
                Err(StoreError::OutOfIds)
            } else {
                Ok(
                    Machine {
                        tables: TablesView {
                            next_id: (t.next_id + 1) as i64,
                            paths: t.paths.push(
                                PathRow {
                                    id: t.next_id,
                                    first: t.path_points.len() as usize,
                                    count: flatten_components(components).len() as usize,
                                },
                            ),
                            path_points: t.path_points + flatten_components(components),
                            ..t
                        },
                        stack: m.stack.push(t.next_id),
                    },
                )
            }
        },
        UpdateView::PushTimePoint(x, y, millis) => {
            if t.next_id >= i64::MAX {
                Err(StoreError::OutOfIds)
            } else {
                Ok(
                    Machine {
                        tables: TablesView {
                            next_id: (t.next_id + 1) as i64,
                            time_points: t.time_points.push(
                                TimePointRow { id: t.next_id, point: TimePoint(x, y, millis) },
                            ),
                            ..t
                        },
                        stack: m.stack.push(t.next_id),
                    },
                )
            }
        },
        UpdateView::PushBrushType(brush_type) => {
            if t.next_id >= i64::MAX {
                Err(StoreError::OutOfIds)
            } else {
                Ok(
                    Machine {
                        tables: TablesView {
                            next_id: (t.next_id + 1) as i64,
                            brushes: t.brushes.push(
                                BrushRow {
                                    id: t.next_id,
                                    brush_type,
                                    definition: match brush_type {
                                        BrushDefinitionType::Simple => Some(BrushDefinition::Simple),
                                        BrushDefinitionType::Ink => None,
                                    },
                                },
                            ),
                            ..t
                        },
                        stack: m.stack.push(t.next_id),
                    },
                )
            }
        },
        UpdateView::PushInkBrush(min_width, max_width, scale_up_distance) => match find_key(
            t.brushes,
            m.peek(0),
        ) {
            None => Err(StoreError::MissingBrush),
            Some(i) => {
                if t.brushes[i].brush_type != BrushDefinitionType::Ink {
                    Err(StoreError::BrushTypeMismatch)
                } else {
                    Ok(
                        Machine {
                            tables: TablesView {
                                brushes: t.brushes.update(
                                    i,
                                    BrushRow {
                                        definition: Some(
                                            BrushDefinition::Ink(
                                                InkDefinition { min_width, max_width, scale_up_distance },
                                            ),
                                        ),
                                        ..t.brushes[i]
                                    },
                                ),
                                ..t
                            },
                            stack: m.stack,
                        },
                    )
                }
            },
        },
        UpdateView::PushColorType(color_type) => {
            if t.next_id >= i64::MAX {
                Err(StoreError::OutOfIds)
            } else {
                Ok(
                    Machine {
                        tables: TablesView {
                            next_id: (t.next_id + 1) as i64,
                            colors: t.colors.push(ColorRow { id: t.next_id, color_type, color: None }),
                            ..t
                        },
                        stack: m.stack.push(t.next_id),
                    },
                )
            }
        },
        UpdateView::PushRgb(r, g, b, a) => match find_key(t.colors, m.peek(0)) {
            None => Err(StoreError::MissingColor),
            Some(i) => {
                if t.colors[i].color_type != ColorType::Rgb {
                    Err(StoreError::ColorTypeMismatch)
                } else {
                    Ok(
                        Machine {
                            tables: TablesView {
                                colors: t.colors.update(
                                    i,
                                    ColorRow { color: Some(Color::Rgba(r, g, b, a)), ..t.colors[i] },
                                ),
                                ..t
                            },
                            stack: m.stack,
                        },
                    )
                }
            },
        },
        UpdateView::PushHsluv(h, s, l, a) => match find_key(t.colors, m.peek(0)) {
            None => Err(StoreError::MissingColor),
            Some(i) => {
                if t.colors[i].color_type != ColorType::Hsluv {
                    Err(StoreError::ColorTypeMismatch)
                } else {
                    Ok(
                        Machine {
                            tables: TablesView {
                                colors: t.colors.update(
                                    i,
                                    ColorRow { color: Some(Color::Hsluv(h, s, l, a)), ..t.colors[i] },
                                ),
                                ..t
                            },
                            stack: m.stack,
                        },
                    )
                }
            },
        },
        UpdateView::PushBrushProperties(size, opacity) => match find_key(t.colors, m.peek(0)) {
            None => Err(StoreError::MissingColor),
            Some(i) => match t.colors[i].color {
                None => Err(StoreError::IncompleteColor),
                Some(color) => {
                    if t.next_id >= i64::MAX {
                        Err(StoreError::OutOfIds)
                    } else {
                        Ok(
                            Machine {
                                tables: TablesView {
                                    next_id: (t.next_id + 1) as i64,
                                    brush_properties: t.brush_properties.push(
                                        BrushPropertiesRow {
                                            id: t.next_id,
                                            properties: BrushProperties { size, opacity, color },
                                        },
                                    ),
                                    ..t
                                },
                                stack: m.popped(1).push(t.next_id),
                            },
                        )
                    }
                },
            },
        },
        _ => Ok(m),
    }
}

/// What the instructions on layers, key frames and caches do.
pub open spec fn step_layer(m: Machine, u: UpdateView) -> Outcome
    recommends
        m.stack.len() >= needs(u),
{
    let t = m.tables;
    match u {
        UpdateView::UpdateCanvasSize(w, h) => Ok(
            Machine { tables: TablesView { size: Some((w, h)), ..t }, stack: m.stack },
        ),
        UpdateView::PushLayerType(layer_type) => {
            if t.next_id >= i64::MAX {
                Err(StoreError::OutOfIds)
            } else {
                Ok(
                    Machine {
                        tables: TablesView {
                            next_id: (t.next_id + 1) as i64,
                            layers: t.layers.push(
                                LayerRow { id: t.next_id, layer_type, assigned: None, name: None },
                            ),
                            ..t
                        },
                        stack: m.stack.push(t.next_id),
                    },
                )
            }
        },
        UpdateView::PushAssignLayer(assigned) => match find_key(t.layers, m.peek(0)) {
            None => Err(StoreError::MissingLayer),
            Some(i) => Ok(
                Machine {
                    tables: TablesView {
                        layers: t.layers.update(i, LayerRow { assigned: Some(assigned), ..t.layers[i] }),
                        ..t
                    },
                    stack: m.stack,
                },
            ),
        },
        UpdateView::PushLayerId(id) => Ok(Machine { tables: t, stack: m.stack.push(id) }),
        UpdateView::PushLayerForAssignedId(assigned) => match find_match(t.layers, LayerAssigned(assigned)) {
            None => Err(StoreError::MissingLayer),
            Some(i) => Ok(Machine { tables: t, stack: m.stack.push(t.layers[i].id) }),
        },
        UpdateView::PopDeleteLayer => Ok(
            Machine {
                tables: TablesView {
                    layers: without_key(t.layers, m.peek(0)),
                    key_frames: without_match(t.key_frames, FrameOfLayer(m.peek(0))),
                    caches: without_match(t.caches, CacheOfLayer(m.peek(0))),
                    ..t
                },
                stack: m.popped(1),
            },
        ),
        UpdateView::PopLayerName(name) => match find_key(t.layers, m.peek(0)) {
            None => Err(StoreError::MissingLayer),
            Some(i) => Ok(
                Machine {
                    tables: TablesView {
                        strings: t.strings.push(name),
                        layers: t.layers.update(
                            i,
                            LayerRow { name: Some(t.strings.len() as usize), ..t.layers[i] },
                        ),
                        ..t
                    },
                    stack: m.popped(1),
                },
            ),
        },
        UpdateView::PopAddKeyFrame(when) => match find_key(t.layers, m.peek(0)) {
            None => Err(StoreError::MissingLayer),
            Some(_) => {
                if t.next_id >= i64::MAX {
                    Err(StoreError::OutOfIds)
                } else {
                    Ok(
                        Machine {
                            tables: TablesView {
                                next_id: (t.next_id + 1) as i64,
                                key_frames: t.key_frames.push(
                                    KeyFrameRow { id: t.next_id, layer: m.peek(0), when },
                                ),
                                ..t
                            },
                            stack: m.popped(1),
                        },
                    )
                }
            },
        },
        UpdateView::PopRemoveKeyFrame(when) => Ok(
            Machine {
                tables: TablesView {
                    key_frames: without_match(t.key_frames, FrameAt { layer: m.peek(0), when }),
                    ..t
                },
                stack: m.popped(1),
            },
        ),
        UpdateView::PopStoreLayerCache(when, cache_type, value) => Ok(
            Machine {
                tables: TablesView {
                    strings: t.strings.push(value),
                    caches: without_match(t.caches, CacheAt { layer: m.peek(0), when, cache_type }).push(
                        CacheRow { layer: m.peek(0), when, cache_type, value: t.strings.len() as usize },
                    ),
                    ..t
                },
                stack: m.popped(1),
            },
        ),
        UpdateView::PopDeleteLayerCache(when, cache_type) => Ok(
            Machine {
                tables: TablesView {
                    caches: without_match(t.caches, CacheAt { layer: m.peek(0), when, cache_type }),
                    ..t
                },
                stack: m.popped(1),
            },
        ),
        UpdateView::PushNearestKeyFrame(when) => match nearest_key_frame(t.key_frames, m.peek(0), when) {
            None => Err(StoreError::MissingKeyFrame),
            Some(i) => Ok(
                Machine {
                    tables: t,
                    stack: m.popped(1).push(t.key_frames[i].when).push(t.key_frames[i].id),
                },
            ),
        },
        _ => Ok(m),
    }
}

/// The machine after the element at position `i` was replaced by `row` and the
/// top `n` values were taken from the stack.
pub open spec fn with_element(m: Machine, i: int, row: ElementRow, n: int) -> Outcome {
    Ok(
        Machine {
            tables: TablesView { elements: m.tables.elements.update(i, row), ..m.tables },
            stack: m.popped(n),
        },
    )
}

/// The machine after the path at position `i` was given `points` and the top of
/// the stack was taken.
pub open spec fn with_path_points(m: Machine, i: int, points: Seq<PathPointRow>) -> Outcome {
    let t = m.tables;
    Ok(
        Machine {
            tables: TablesView {
                paths: t.paths.update(
                    i,
                    PathRow {
                        id: t.paths[i].id,
                        first: t.path_points.len() as usize,
                        count: points.len() as usize,
                    },
                ),
                path_points: t.path_points + points,
                ..t
            },
            stack: m.popped(1),
        },
    )
}

/// What the instructions on elements and their paths do.
pub open spec fn step_element(m: Machine, u: UpdateView) -> Outcome
    recommends
        m.stack.len() >= needs(u),
{
    let t = m.tables;
    match u {
        UpdateView::PushVectorElementType(element_type) => {
            if t.next_id >= i64::MAX {
                Err(StoreError::OutOfIds)
            } else {
                Ok(
                    Machine {
                        tables: TablesView {
                            next_id: (t.next_id + 1) as i64,
                            elements: t.elements.push(
                                ElementRow {
                                    id: t.next_id,
                                    element_type,
                                    assigned: None,
                                    frame: None,
                                    detail: ElementDetail::Empty,
                                },
                            ),
                            ..t
                        },
                        stack: m.stack.push(t.next_id),
                    },
                )
            }
        },
        UpdateView::PushVectorElementTime(when) => match find_key(t.elements, m.peek(0)) {
            None => Err(StoreError::MissingElement),
            Some(i) => with_element(
                m,
                i,
                ElementRow { frame: Some(FrameRef { key_frame: m.peek(1), when }), ..t.elements[i] },
                0,
            ),
        },
        UpdateView::PushElementAssignId(assigned) => match find_key(t.elements, m.peek(0)) {
            None => Err(StoreError::MissingElement),
            Some(i) => with_element(m, i, ElementRow { assigned: Some(assigned), ..t.elements[i] }, 0),
        },
        UpdateView::PushElementIdForAssignedId(assigned) => match find_match(
            t.elements,
            ElementAssigned(assigned),
        ) {
            None => Err(StoreError::MissingElement),
            Some(i) => Ok(Machine { tables: t, stack: m.stack.push(t.elements[i].id) }),
        },
        UpdateView::PushKeyFrameIdForElementId => match find_key(t.elements, m.peek(0)) {
            None => Err(StoreError::MissingElement),
            Some(i) => match t.elements[i].frame {
                None => Err(StoreError::MissingKeyFrame),
                Some(frame) => Ok(Machine { tables: t, stack: m.stack.push(frame.key_frame) }),
            },
        },
        UpdateView::PushPathIdForElementId => match find_key(t.elements, m.peek(0)) {
            None => Err(StoreError::MissingElement),
            Some(i) => match t.elements[i].detail {
                ElementDetail::Path(path, _, _) => Ok(Machine { tables: t, stack: m.stack.push(path) }),
                _ => Err(StoreError::UnexpectedElementType),
            },
        },
        UpdateView::PushAttachElements(n) => Ok(
            Machine {
                tables: TablesView {
                    attachments: t.attachments + attach_rows(m.peek(n as int), m.top(n as int)),
                    ..t
                },
                stack: m.popped(n as int),
            },
        ),
        UpdateView::PushDetachElements(n) => Ok(
            Machine {
                tables: TablesView {
                    attachments: detach_all(t.attachments, m.peek(n as int), m.top(n as int)),
                    ..t
                },
                stack: m.popped(n as int),
            },
        ),
        UpdateView::PopVectorBrushElement(style) => match find_key(t.brushes, m.peek(0)) {
            None => Err(StoreError::MissingBrush),
            Some(b) => match t.brushes[b].definition {
                None => Err(StoreError::IncompleteBrush),
                Some(definition) => match find_key(t.elements, m.peek(1)) {
                    None => Err(StoreError::MissingElement),
                    Some(i) => with_element(
                        m,
                        i,
                        ElementRow {
                            detail: ElementDetail::BrushDefinition(definition, style),
                            ..t.elements[i]
                        },
                        2,
                    ),
                },
            },
        },
        UpdateView::PopVectorBrushPropertiesElement => match find_key(t.brush_properties, m.peek(0)) {
            None => Err(StoreError::MissingBrushProperties),
            Some(p) => match find_key(t.elements, m.peek(1)) {
                None => Err(StoreError::MissingElement),
                Some(i) => with_element(
                    m,
                    i,
                    ElementRow {
                        detail: ElementDetail::BrushProperties(t.brush_properties[p].properties),
                        ..t.elements[i]
                    },
                    2,
                ),
            },
        },
        UpdateView::PopBrushPoints(points) => match find_key(t.elements, m.peek(0)) {
            None => Err(StoreError::MissingElement),
            Some(i) => Ok(
                Machine {
                    tables: TablesView {
                        elements: t.elements.update(
                            i,
                            ElementRow {
                                detail: ElementDetail::BrushStroke(
                                    t.brush_points.len() as usize,
                                    points.len() as usize,
                                ),
                                ..t.elements[i]
                            },
                        ),
                        brush_points: t.brush_points + points,
                        ..t
                    },
                    stack: m.popped(1),
                },
            ),
        },
        UpdateView::PopVectorPathElement => match find_key(t.elements, m.peek(3)) {
            None => Err(StoreError::MissingElement),
            Some(i) => with_element(
                m,
                i,
                ElementRow { detail: ElementDetail::Path(m.peek(0), m.peek(2), m.peek(1)), ..t.elements[i] },
                4,
            ),
        },
        UpdateView::UpdateBrushPointCoords(segments) => match find_key(t.elements, m.peek(0)) {
            None => Err(StoreError::MissingElement),
            Some(i) => match t.elements[i].detail {
                ElementDetail::BrushStroke(first, count) => match run_of(t.brush_points, first, count) {
                    None => Err(StoreError::BrokenReference),
                    Some(old) => Ok(
                        Machine {
                            tables: TablesView {
                                elements: t.elements.update(
                                    i,
                                    ElementRow {
                                        detail: ElementDetail::BrushStroke(
                                            t.brush_points.len() as usize,
                                            count,
                                        ),
                                        ..t.elements[i]
                                    },
                                ),
                                brush_points: t.brush_points + moved_brush_points(old, segments),
                                ..t
                            },
                            stack: m.popped(1),
                        },
                    ),
                },
                _ => Err(StoreError::UnexpectedElementType),
            },
        },
        UpdateView::UpdatePathPointCoords(coords) => match find_key(t.paths, m.peek(0)) {
            None => Err(StoreError::MissingPath),
            Some(i) => match run_of(t.path_points, t.paths[i].first, t.paths[i].count) {
                None => Err(StoreError::BrokenReference),
                Some(old) => with_path_points(m, i, moved_path_points(old, coords)),
            },
        },
        UpdateView::PopRemovePathPoints(from, to) => match find_key(t.paths, m.peek(0)) {
            None => Err(StoreError::MissingPath),
            Some(i) => match run_of(t.path_points, t.paths[i].first, t.paths[i].count) {
                None => Err(StoreError::BrokenReference),
                Some(old) => with_path_points(m, i, points_removed(old, from, to)),
            },
        },
        UpdateView::PopInsertPathComponents(at, components) => match find_key(t.paths, m.peek(0)) {
            None => Err(StoreError::MissingPath),
            Some(i) => match run_of(t.path_points, t.paths[i].first, t.paths[i].count) {
                None => Err(StoreError::BrokenReference),
                Some(old) => with_path_points(m, i, points_inserted(old, at, flatten_components(components))),
            },
        },
        UpdateView::PopVectorElementMove(how) => match find_key(t.elements, m.peek(1)) {
            None => Err(StoreError::MissingElement),
            Some(i) => Ok(
                Machine {
                    tables: TablesView { elements: moved_element(t.elements, i, m.peek(0), how), ..t },
                    stack: m.popped(2),
                },
            ),
        },
        UpdateView::PopDeleteVectorElement => Ok(
            Machine {
                tables: TablesView {
                    elements: without_key(t.elements, m.peek(0)),
                    attachments: without_match(t.attachments, TouchesElement(m.peek(0))),
                    ..t
                },
                stack: m.popped(1),
            },
        ),
        UpdateView::PopDetachVectorElementFromFrame => match find_key(t.elements, m.peek(0)) {
            None => Err(StoreError::MissingElement),
            Some(i) => with_element(m, i, ElementRow { frame: None, ..t.elements[i] }, 1),
        },
        _ => Ok(m),
    }
}

/// What the instructions on motions do. One that names a motion that is not
/// there changes no motion.
pub open spec fn step_motion(m: Machine, u: UpdateView) -> Outcome
    recommends
        m.stack.len() >= needs(u),
{
    let t = m.tables;
    match u {
        UpdateView::CreateMotion(id) => Ok(
            Machine {
                tables: TablesView {
                    motions: t.motions.push(
                        MotionRow { id, motion_type: MotionType::Stationary, origin: None, path: None },
                    ),
                    ..t
                },
                stack: m.stack,
            },
        ),
        UpdateView::DeleteMotion(id) => Ok(
            Machine { tables: TablesView { motions: without_key(t.motions, id), ..t }, stack: m.stack },
        ),
        UpdateView::SetMotionType(id, motion_type) => match find_key(t.motions, id) {
            None => Ok(m),
            Some(i) => Ok(
                Machine {
                    tables: TablesView {
                        motions: t.motions.update(i, MotionRow { motion_type, ..t.motions[i] }),
                        ..t
                    },
                    stack: m.stack,
                },
            ),
        },
        UpdateView::SetMotionOrigin(id, x, y) => match find_key(t.motions, id) {
            None => Ok(m),
            Some(i) => Ok(
                Machine {
                    tables: TablesView {
                        motions: t.motions.update(i, MotionRow { origin: Some((x, y)), ..t.motions[i] }),
                        ..t
                    },
                    stack: m.stack,
                },
            ),
        },
        UpdateView::SetMotionPath(id, path_type, n) => match lookup_time_points(
            t.time_points,
            m.top(n as int),
        ) {
            None => Err(StoreError::MissingTimePoint),
            Some(points) => match find_key(t.motions, id) {
                None => Ok(Machine { tables: t, stack: m.popped(n as int) }),
                Some(i) => Ok(
                    Machine {
                        tables: TablesView {
                            motions: t.motions.update(
                                i,
                                MotionRow {
                                    path: Some(
                                        MotionPathRef {
                                            path_type,
                                            first: t.motion_points.len() as usize,
                                            count: points.len() as usize,
                                        },
                                    ),
                                    ..t.motions[i]
                                },
                            ),
                            motion_points: t.motion_points + points,
                            ..t
                        },
                        stack: m.popped(n as int),
                    },
                ),
            },
        },
        _ => Ok(m),
    }
}

/// The part of the instruction set that an instruction belongs to.
pub enum Group {
    Stack,
    Log,
    Staging,
    Layer,
    Element,
    Motion,
}

/// The part of the instruction set that an instruction belongs to.
pub open spec fn group_of(u: UpdateView) -> Group {
    match u {
        UpdateView::Pop | UpdateView::Duplicate => Group::Stack,
        UpdateView::PushEditType(_)
        | UpdateView::PopEditLogSetSize(_, _)
        | UpdateView::PushEditLogLayer(_)
        | UpdateView::PushEditLogWhen(_)
        | UpdateView::PushEditLogElementCount(_)
        | UpdateView::PushEditLogElementId(_, _)
        | UpdateView::PopEditLogBrush(_)
        | UpdateView::PopEditLogBrushProperties
        | UpdateView::PushRawPoints(_)
        | UpdateView::PopEditLogString(_, _)
        | UpdateView::PushEditLogInt(_, _)
        | UpdateView::PushEditLogMotionType(_)
        | UpdateView::PushEditLogMotionOrigin(_, _)
        | UpdateView::PushEditLogMotionPath(_)
        | UpdateView::PushEditLogPath => Group::Log,
        UpdateView::PushPath(_)
        | UpdateView::PushPathComponents(_)
        | UpdateView::PushTimePoint(_, _, _)
        | UpdateView::PushBrushType(_)
        | UpdateView::PushInkBrush(_, _, _)
        | UpdateView::PushColorType(_)
        | UpdateView::PushRgb(_, _, _, _)
        | UpdateView::PushHsluv(_, _, _, _)
        | UpdateView::PushBrushProperties(_, _) => Group::Staging,
        UpdateView::UpdateCanvasSize(_, _)
        | UpdateView::PushLayerType(_)
        | UpdateView::PushAssignLayer(_)
        | UpdateView::PushLayerId(_)
        | UpdateView::PushLayerForAssignedId(_)
        | UpdateView::PopDeleteLayer
        | UpdateView::PopLayerName(_)
        | UpdateView::PopAddKeyFrame(_)
        | UpdateView::PopRemoveKeyFrame(_)
        | UpdateView::PopStoreLayerCache(_, _, _)
        | UpdateView::PopDeleteLayerCache(_, _)
        | UpdateView::PushNearestKeyFrame(_) => Group::Layer,
        UpdateView::CreateMotion(_)
        | UpdateView::DeleteMotion(_)
        | UpdateView::SetMotionType(_, _)
        | UpdateView::SetMotionOrigin(_, _, _)
        | UpdateView::SetMotionPath(_, _, _) => Group::Motion,
        _ => Group::Element,
    }
}

/// What one instruction does to the machine.
#[verifier::opaque]
pub open spec fn step(m: Machine, u: UpdateView) -> Outcome
    recommends
        m.stack.len() >= needs(u),
{
    match group_of(u) {
        Group::Stack => match u {
            UpdateView::Pop => Ok(Machine { tables: m.tables, stack: m.popped(1) }),
            _ => Ok(Machine { tables: m.tables, stack: m.stack.push(m.peek(0)) }),
        },
        Group::Log => step_log(m, u),
        Group::Staging => step_staging(m, u),
        Group::Layer => step_layer(m, u),
        Group::Element => step_element(m, u),
        Group::Motion => step_motion(m, u),
    }
}

/// By how much a batch that succeeds changes the depth of the stack.
pub open spec fn batch_effect(updates: Seq<UpdateView>) -> int
    decreases updates.len(),
{
    if updates.len() == 0 {
        0
    } else {
        batch_effect(updates.drop_last()) + effect(updates.last())
    }
}

/// How deep the stack has to be at the start of a batch so that it stays deep
/// enough for every instruction as long as the instructions succeed.
pub open spec fn batch_needs(updates: Seq<UpdateView>) -> int
    decreases updates.len(),
{
    if updates.len() == 0 {
        0
    } else {
        let before = batch_needs(updates.drop_last());
        let last = needs(updates.last()) - batch_effect(updates.drop_last());
        if before >= last {
            before
        } else {
            last
        }
    }
}

/// The greater of `n` and `need - effect`: how deep the stack has to be at the
/// start of a batch that needed `n` so far and has changed the depth by
/// `effect`, if what follows needs `need`.
pub open spec fn deeper(n: int, need: int, effect: int) -> int {
    if n >= need - effect {
        n
    } else {
        need - effect
    }
}

/// True if a stack that is `depth` deep at the start of the batch stays deep
/// enough for every instruction as long as the instructions succeed.
pub open spec fn batch_safe(depth: int, updates: Seq<UpdateView>) -> bool {
    depth >= batch_needs(updates)
}

/// What a batch of instructions does to the machine: each instruction in turn,
/// up to the first that fails.
pub open spec fn run(m: Machine, updates: Seq<UpdateView>) -> Outcome
    decreases updates.len(),
{
    if updates.len() == 0 {
        Ok(m)
    } else {
        match run(m, updates.drop_last()) {
            Ok(next) => step(next, updates.last()),
            Err(e) => Err(e),
        }
    }
}

} // verus!
