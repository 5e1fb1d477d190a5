//! The edit log reader: how an entry of the log is read back as the edit that
//! was written.
//!
//! An entry holds the parameters of its edit in a fixed order; what does not
//! follow that order is no edit.

use vstd::prelude::*;
use crate::animation::brush::{Coord, RawPoint};
use crate::animation::brushes::Brush;
use crate::animation::edit::{AnimationEdit, AnimationEditView, ElementEdit, ElementEditView, ElementOrdering, LayerEdit, LayerEditView, MotionEdit, MotionEditView, PaintEdit, PaintEditView, PathEdit, PathEditView};
use crate::animation::element_id::ElementId;
use crate::animation::motion::{TimeControlPoint, TimeCurve, TimePoint};
use crate::animation::path::PathComponent;
use crate::db::animation_core::AnimationDbCore;
use crate::db::db_enum::{drawing_style_of, EditLogType};
use crate::db::flo_file::{FloFile, FloQuery};
use crate::db::flo_memory::read_components;
use crate::db::points::{parse_components, parse_curve, point_positions};
use crate::db::rows::{EditLogParam, PathPointRow, TablesView};
use crate::animation::brush::BrushDrawingStyle;

verus! {

/// A way to read one kind of value out of a parameter of the edit log.
pub trait Pick<T>: Copy {
    /// The value that the parameter `p` at position `at` of its list holds.
    spec fn picked(&self, p: EditLogParam, at: int) -> Option<T>;

    /// Reads the value that the parameter `p` at position `at` of its list holds.
    fn pick(&self, p: &EditLogParam, at: usize) -> (r: Option<T>)
        ensures
            r == self.picked(*p, at as int),
    ;
}

/// The values that parameters hold, if each of them holds one.
pub open spec fn collected<T, P: Pick<T>>(params: Seq<EditLogParam>, pick: P) -> Option<Seq<T>>
    decreases params.len(),
{
    if params.len() == 0 {
        Some(Seq::empty())
    } else {
        match (collected(params.drop_last(), pick), pick.picked(params.last(), params.len() - 1)) {
            (Some(rest), Some(value)) => Some(rest.push(value)),
            _ => None,
        }
    }
}

/// Parameters of which one holds no value hold no values.
pub proof fn lemma_collected_fails<T, P: Pick<T>>(params: Seq<EditLogParam>, pick: P, k: int)
    requires
        0 <= k < params.len(),
        pick.picked(params[k], k) is None,
    ensures
        collected(params, pick) is None,
    decreases params.len(),
{
    if k < params.len() - 1 {
        lemma_collected_fails(params.drop_last(), pick, k);
    }
}

/// Reads the values that the parameters from position `from` to before
/// position `to` hold.
pub fn collect<T, P: Pick<T>>(params: &Vec<EditLogParam>, from: usize, to: usize, pick: P) -> (r: Option<Vec<T>>)
    requires
        from <= to <= params@.len(),
    ensures
        match r {
            Some(values) => collected(params@.subrange(from as int, to as int), pick) == Some(values@),
            None => collected(params@.subrange(from as int, to as int), pick) is None,
        },
{
    let ghost part = params@.subrange(from as int, to as int);
    let mut out: Vec<T> = Vec::new();
    let mut i: usize = from;
    proof {
        assert(part.take(0) =~= Seq::empty());
    }
    while i < to
        invariant
            from <= i <= to <= params@.len(),
            part == params@.subrange(from as int, to as int),
            collected(part.take(i - from), pick) == Some(out@),
        decreases to - i,
    {
        proof {
            assert(part.take(i - from + 1).drop_last() =~= part.take(i - from));
            assert(part.take(i - from + 1).last() == params@[i as int]);
        }
        match pick.pick(&params[i], i - from) {
            Some(value) => {
                out.push(value);
            },
            None => {
                proof {
                    lemma_collected_fails(part, pick, i - from);
                }
                return None;
            },
        }
        i += 1;
    }
    proof {
        assert(part.take(i - from) =~= part);
    }
    Some(out)
}

/// Reads a raw point.
#[derive(Clone, Copy)]
pub struct PickRawPoint;

impl Pick<RawPoint> for PickRawPoint {
    open spec fn picked(&self, p: EditLogParam, at: int) -> Option<RawPoint> {
        match p {
            EditLogParam::RawPoint(point) => Some(point),
            _ => None,
        }
    }

    fn pick(&self, p: &EditLogParam, at: usize) -> (r: Option<RawPoint>) {
        match p {
            EditLogParam::RawPoint(point) => Some(*point),
            _ => None,
        }
    }
}

/// Reads a stored path point.
#[derive(Clone, Copy)]
pub struct PickPathPoint;

impl Pick<PathPointRow> for PickPathPoint {
    open spec fn picked(&self, p: EditLogParam, at: int) -> Option<PathPointRow> {
        match p {
            EditLogParam::PathPoint(point) => Some(point),
            _ => None,
        }
    }

    fn pick(&self, p: &EditLogParam, at: usize) -> (r: Option<PathPointRow>) {
        match p {
            EditLogParam::PathPoint(point) => Some(*point),
            _ => None,
        }
    }
}

/// Reads a time point.
#[derive(Clone, Copy)]
pub struct PickTimePoint;

impl Pick<TimePoint> for PickTimePoint {
    open spec fn picked(&self, p: EditLogParam, at: int) -> Option<TimePoint> {
        match p {
            EditLogParam::TimePoint(point) => Some(point),
            _ => None,
        }
    }

    fn pick(&self, p: &EditLogParam, at: usize) -> (r: Option<TimePoint>) {
        match p {
            EditLogParam::TimePoint(point) => Some(*point),
            _ => None,
        }
    }
}

/// Reads an element id that is recorded at its position.
#[derive(Clone, Copy)]
pub struct PickElementId;

impl Pick<ElementId> for PickElementId {
    open spec fn picked(&self, p: EditLogParam, at: int) -> Option<ElementId> {
        match p {
            EditLogParam::ElementId(position, id) => if position == at {
                Some(id)
            } else {
                None
            },
            _ => None,
        }
    }

    fn pick(&self, p: &EditLogParam, at: usize) -> (r: Option<ElementId>) {
        match p {
            EditLogParam::ElementId(position, id) => if *position == at {
                Some(*id)
            } else {
                None
            },
            _ => None,
        }
    }
}

/// The raw points that parameters hold, if they hold nothing else.
pub open spec fn raw_points_in(params: Seq<EditLogParam>) -> Option<Seq<RawPoint>> {
    collected(params, PickRawPoint)
}

/// The path points that parameters hold, if they hold nothing else.
pub open spec fn path_points_in(params: Seq<EditLogParam>) -> Option<Seq<PathPointRow>> {
    collected(params, PickPathPoint)
}

/// The time points that parameters hold, if they hold nothing else.
pub open spec fn time_points_in(params: Seq<EditLogParam>) -> Option<Seq<TimePoint>> {
    collected(params, PickTimePoint)
}

/// The element ids that parameters hold, if they hold each at its position and
/// nothing else.
pub open spec fn element_ids_in(params: Seq<EditLogParam>) -> Option<Seq<ElementId>> {
    collected(params, PickElementId)
}

/// The paint edit that the parameters after the layer and the time spell.
pub open spec fn decode_paint(edit_type: EditLogType, params: Seq<EditLogParam>) -> Option<PaintEditView> {
    if params.len() < 1 {
        None
    } else {
        match params[0] {
            EditLogParam::ElementId(0, id) => match edit_type {
                EditLogType::LayerPaintSelectBrush => if params.len() == 2 {
                    match params[1] {
                        EditLogParam::Brush(definition, style) => Some(
                            PaintEditView::SelectBrush(id, definition, drawing_style_of(style)),
                        ),
                        _ => None,
                    }
                } else {
                    None
                },
                EditLogType::LayerPaintBrushProperties => if params.len() == 2 {
                    match params[1] {
                        EditLogParam::BrushProperties(properties) => Some(
                            PaintEditView::BrushProperties(id, properties),
                        ),
                        _ => None,
                    }
                } else {
                    None
                },
                EditLogType::LayerPaintBrushStroke => match raw_points_in(params.skip(1)) {
                    Some(points) => Some(PaintEditView::BrushStroke(id, points)),
                    None => None,
                },
                _ => None,
            },
            _ => None,
        }
    }
}

/// The edit of a path that the parameters after the layer and the time spell.
pub open spec fn decode_path(edit_type: EditLogType, params: Seq<EditLogParam>) -> Option<PathEditView> {
    if params.len() < 1 {
        None
    } else {
        match params[0] {
            EditLogParam::ElementId(0, id) => match edit_type {
                EditLogType::LayerPathSelectBrush => if params.len() == 2 {
                    match params[1] {
                        EditLogParam::Brush(definition, style) => Some(
                            PathEditView::SelectBrush(id, definition, drawing_style_of(style)),
                        ),
                        _ => None,
                    }
                } else {
                    None
                },
                EditLogType::LayerPathBrushProperties => if params.len() == 2 {
                    match params[1] {
                        EditLogParam::BrushProperties(properties) => Some(
                            PathEditView::BrushProperties(id, properties),
                        ),
                        _ => None,
                    }
                } else {
                    None
                },
                EditLogType::LayerPathCreatePath => match path_points_in(params.skip(1)) {
                    Some(points) => match parse_components(points) {
                        Some(components) => Some(PathEditView::CreatePath(id, components)),
                        None => None,
                    },
                    None => None,
                },
                _ => None,
            },
            _ => None,
        }
    }
}

/// The edit to a layer that the parameters after the layer spell.
pub open spec fn decode_layer(edit_type: EditLogType, params: Seq<EditLogParam>, strings: Seq<Seq<char>>) -> Option<
    LayerEditView,
> {
    match edit_type {
        EditLogType::LayerSetName => if params.len() == 1 {
            match params[0] {
                EditLogParam::Text(0, at) => if at < strings.len() {
                    Some(LayerEditView::SetName(strings[at as int]))
                } else {
                    None
                },
                _ => None,
            }
        } else {
            None
        },
        EditLogType::LayerSetOrdering => if params.len() == 1 {
            match params[0] {
                EditLogParam::Int(0, at) => if 0 <= at <= u32::MAX {
                    Some(LayerEditView::SetOrdering(at as u32))
                } else {
                    None
                },
                _ => None,
            }
        } else {
            None
        },
        _ => if params.len() < 1 {
            None
        } else {
            match params[0] {
                EditLogParam::When(when) => match edit_type {
                    EditLogType::LayerAddKeyFrame => if params.len() == 1 {
                        Some(LayerEditView::AddKeyFrame(when))
                    } else {
                        None
                    },
                    EditLogType::LayerRemoveKeyFrame => if params.len() == 1 {
                        Some(LayerEditView::RemoveKeyFrame(when))
                    } else {
                        None
                    },
                    EditLogType::LayerPaintSelectBrush
                    | EditLogType::LayerPaintBrushProperties
                    | EditLogType::LayerPaintBrushStroke => match decode_paint(edit_type, params.skip(1)) {
                        Some(paint) => Some(LayerEditView::Paint(when, paint)),
                        None => None,
                    },
                    EditLogType::LayerPathCreatePath
                    | EditLogType::LayerPathSelectBrush
                    | EditLogType::LayerPathBrushProperties => match decode_path(edit_type, params.skip(1)) {
                        Some(path) => Some(LayerEditView::Path(when, path)),
                        None => None,
                    },
                    _ => None,
                },
                _ => None,
            }
        },
    }
}

/// The edit to a motion that the parameters after the id of the motion spell.
pub open spec fn decode_motion(edit_type: EditLogType, params: Seq<EditLogParam>) -> Option<MotionEditView> {
    match edit_type {
        EditLogType::MotionCreate => if params.len() == 0 {
            Some(MotionEditView::Create)
        } else {
            None
        },
        EditLogType::MotionDelete => if params.len() == 0 {
            Some(MotionEditView::Delete)
        } else {
            None
        },
        EditLogType::MotionSetType => if params.len() == 1 {
            match params[0] {
                EditLogParam::MotionType(motion_type) => Some(MotionEditView::SetType(motion_type)),
                _ => None,
            }
        } else {
            None
        },
        EditLogType::MotionSetOrigin => if params.len() == 1 {
            match params[0] {
                EditLogParam::MotionOrigin(x, y) => Some(MotionEditView::SetOrigin(x, y)),
                _ => None,
            }
        } else {
            None
        },
        EditLogType::MotionSetPath => match time_points_in(params) {
            Some(points) => match parse_curve(points) {
                Some(curve) => Some(MotionEditView::SetPath(curve)),
                None => None,
            },
            None => None,
        },
        _ => None,
    }
}

/// The edit to elements that the parameters after the ids of the elements spell.
pub open spec fn decode_element(edit_type: EditLogType, params: Seq<EditLogParam>) -> Option<ElementEditView> {
    match edit_type {
        EditLogType::ElementSetControlPoints => match path_points_in(params) {
            Some(points) => Some(ElementEditView::SetControlPoints(point_positions(points))),
            None => None,
        },
        EditLogType::ElementSetPath => match path_points_in(params) {
            Some(points) => match parse_components(points) {
                Some(components) => Some(ElementEditView::SetPath(components)),
                None => None,
            },
            None => None,
        },
        EditLogType::ElementOrderBefore => if params.len() == 0 {
            Some(ElementEditView::Order(ElementOrdering::Before(ElementId::Unassigned)))
        } else if params.len() == 1 {
            match params[0] {
                EditLogParam::Int(0, id) => Some(
                    ElementEditView::Order(ElementOrdering::Before(ElementId::Assigned(id))),
                ),
                _ => None,
            }
        } else {
            None
        },
        _ => if params.len() != 0 {
            None
        } else {
            match edit_type {
                EditLogType::ElementOrderInFront => Some(ElementEditView::Order(ElementOrdering::InFront)),
                EditLogType::ElementOrderBehind => Some(ElementEditView::Order(ElementOrdering::Behind)),
                EditLogType::ElementOrderToTop => Some(ElementEditView::Order(ElementOrdering::ToTop)),
                EditLogType::ElementOrderToBottom => Some(ElementEditView::Order(ElementOrdering::ToBottom)),
                EditLogType::ElementDelete => Some(ElementEditView::Delete),
                EditLogType::ElementDetachFromFrame => Some(ElementEditView::DetachFromFrame),
                _ => None,
            }
        },
    }
}

/// The edit to elements that parameters spell: the number of ids, the ids, and
/// then what the edit does. An attachment edit holds the element that it
/// attaches as the first of its ids.
pub open spec fn decode_elements(edit_type: EditLogType, params: Seq<EditLogParam>) -> Option<AnimationEditView> {
    if params.len() < 1 {
        None
    } else {
        match params[0] {
            EditLogParam::ElementCount(n) => if params.len() < 1 + n {
                None
            } else {
                match element_ids_in(params.subrange(1, 1 + n)) {
                    None => None,
                    Some(ids) => match edit_type {
                        EditLogType::ElementAddAttachment => if n >= 1 && params.len() == 1 + n {
                            Some(AnimationEditView::Element(ids.skip(1), ElementEditView::AddAttachment(ids[0])))
                        } else {
                            None
                        },
                        EditLogType::ElementRemoveAttachment => if n >= 1 && params.len() == 1 + n {
                            Some(
                                AnimationEditView::Element(
                                    ids.skip(1),
                                    ElementEditView::RemoveAttachment(ids[0]),
                                ),
                            )
                        } else {
                            None
                        },
                        _ => match decode_element(edit_type, params.skip(1 + n)) {
                            Some(edit) => Some(AnimationEditView::Element(ids, edit)),
                            None => None,
                        },
                    },
                }
            },
            _ => None,
        }
    }
}

/// The edit that an entry of the edit log spells, if it spells one.
pub open spec fn decode_edit(edit_type: EditLogType, params: Seq<EditLogParam>, strings: Seq<Seq<char>>) -> Option<
    AnimationEditView,
> {
    match edit_type {
        EditLogType::SetSize => if params.len() == 1 {
            match params[0] {
                EditLogParam::Size(width, height) => Some(AnimationEditView::SetSize(width, height)),
                _ => None,
            }
        } else {
            None
        },
        EditLogType::AddNewLayer => if params.len() == 1 {
            match params[0] {
                EditLogParam::Layer(layer) => Some(AnimationEditView::AddNewLayer(layer)),
                _ => None,
            }
        } else {
            None
        },
        EditLogType::RemoveLayer => if params.len() == 1 {
            match params[0] {
                EditLogParam::Layer(layer) => Some(AnimationEditView::RemoveLayer(layer)),
                _ => None,
            }
        } else {
            None
        },
        EditLogType::LayerAddKeyFrame
        | EditLogType::LayerRemoveKeyFrame
        | EditLogType::LayerSetName
        | EditLogType::LayerSetOrdering
        | EditLogType::LayerPaintSelectBrush
        | EditLogType::LayerPaintBrushProperties
        | EditLogType::LayerPaintBrushStroke
        | EditLogType::LayerPathCreatePath
        | EditLogType::LayerPathSelectBrush
        | EditLogType::LayerPathBrushProperties => if params.len() < 1 {
            None
        } else {
            match params[0] {
                EditLogParam::Layer(layer) => match decode_layer(edit_type, params.skip(1), strings) {
                    Some(edit) => Some(AnimationEditView::Layer(layer, edit)),
                    None => None,
                },
                _ => None,
            }
        },
        EditLogType::MotionCreate
        | EditLogType::MotionDelete
        | EditLogType::MotionSetType
        | EditLogType::MotionSetOrigin
        | EditLogType::MotionSetPath => if params.len() < 1 {
            None
        } else {
            match params[0] {
                EditLogParam::ElementId(0, id) => match decode_motion(edit_type, params.skip(1)) {
                    Some(edit) => Some(AnimationEditView::Motion(id, edit)),
                    None => None,
                },
                _ => None,
            }
        },
        _ => decode_elements(edit_type, params),
    }
}

impl TablesView {
    /// The edit that the entry at position `i` of the edit log spells.
    pub open spec fn edit_at(self, i: int) -> Option<AnimationEditView> {
        match self.edit_log_params(i) {
            Some(params) => decode_edit(self.edit_log[i].edit_type, params, self.strings),
            None => None,
        }
    }

    /// The edits that the entries from `start` to before `end` spell, if each of
    /// them spells one.
    pub open spec fn edits_between(self, start: int, end: int) -> Option<Seq<AnimationEditView>>
        decreases end - start,
    {
        if end <= start {
            Some(Seq::empty())
        } else {
            match (self.edits_between(start, end - 1), self.edit_at(end - 1)) {
                (Some(rest), Some(edit)) => Some(rest.push(edit)),
                _ => None,
            }
        }
    }
}

/// Reads the curve that a list of points spells.
pub fn read_curve(points: &Vec<TimePoint>) -> (r: Option<TimeCurve>)
    ensures
        match r {
            Some(curve) => parse_curve(points@) == Some(curve@),
            None => parse_curve(points@) is None,
        },
{
    let mut out: Vec<TimeControlPoint> = Vec::new();
    let mut k: usize = points.len();
    proof {
        assert(points@.take(k as int) =~= points@);
        match parse_curve(points@) {
            Some(head) => {
                assert(head + out@ =~= head);
            },
            None => {},
        }
    }
    while k > 0
        invariant
            k <= points@.len(),
            parse_curve(points@) == (match parse_curve(points@.take(k as int)) {
                Some(head) => Some(head + out@),
                None => None,
            }),
        decreases k,
    {
        if k < 3 {
            return None;
        }
        let ghost prefix = points@.take(k as int);
        proof {
            assert(prefix.take(prefix.len() - 3) =~= points@.take(k - 3));
        }
        out.insert(
            0,
            TimeControlPoint { point: points[k - 3], past: points[k - 2], future: points[k - 1] },
        );
        k -= 3;
        proof {
            match parse_curve(points@.take(k as int)) {
                Some(head) => {
                    assert(head.push(out@[0]) + out@.skip(1) =~= head + out@);
                },
                None => {},
            }
        }
    }
    proof {
        assert(points@.take(0) =~= Seq::empty());
        assert(Seq::<TimeControlPoint>::empty() + out@ =~= out@);
    }
    Some(TimeCurve { points: out })
}

/// Reads the positions of stored points.
pub fn read_positions(points: &Vec<PathPointRow>) -> (r: Vec<Coord>)
    ensures
        r@ == point_positions(points@),
{
    let mut out: Vec<Coord> = Vec::new();
    let mut i: usize = 0;
    while i < points.len()
        invariant
            i <= points@.len(),
            out@ == point_positions(points@.take(i as int)),
        decreases points.len() - i,
    {
        out.push(points[i].position);
        proof {
            assert(out@ =~= point_positions(points@.take(i + 1)));
        }
        i += 1;
    }
    proof {
        assert(points@.take(i as int) =~= points@);
    }
    out
}

/// Reads the paint edit that the parameters from position `from` on spell.
pub fn read_paint(edit_type: EditLogType, params: &Vec<EditLogParam>, from: usize) -> (r: Option<PaintEdit>)
    requires
        from <= params@.len(),
    ensures
        match r {
            Some(edit) => decode_paint(edit_type, params@.skip(from as int)) == Some(edit@),
            None => decode_paint(edit_type, params@.skip(from as int)) is None,
        },
{
    let ghost rest = params@.skip(from as int);
    if params.len() - from < 1 {
        return None;
    }
    proof {
        assert(rest[0] == params@[from as int]);
        assert(rest.skip(1) =~= params@.subrange(from + 1, params@.len() as int));
    }
    let id = match params[from] {
        EditLogParam::ElementId(0, id) => id,
        _ => {
            return None;
        },
    };
    match edit_type {
        EditLogType::LayerPaintSelectBrush => {
            if params.len() - from != 2 {
                return None;
            }
            proof {
                assert(rest[1] == params@[from + 1]);
            }
            match params[from + 1] {
                EditLogParam::Brush(definition, style) => Some(
                    PaintEdit::SelectBrush(id, definition, BrushDrawingStyle::from(style)),
                ),
                _ => None,
            }
        },
        EditLogType::LayerPaintBrushProperties => {
            if params.len() - from != 2 {
                return None;
            }
            proof {
                assert(rest[1] == params@[from + 1]);
            }
            match params[from + 1] {
                EditLogParam::BrushProperties(properties) => Some(PaintEdit::BrushProperties(id, properties)),
                _ => None,
            }
        },
        EditLogType::LayerPaintBrushStroke => match collect(params, from + 1, params.len(), PickRawPoint) {
            Some(points) => Some(PaintEdit::BrushStroke(id, points)),
            None => None,
        },
        _ => None,
    }
}

/// Reads the edit of a path that the parameters from position `from` on spell.
pub fn read_path(edit_type: EditLogType, params: &Vec<EditLogParam>, from: usize) -> (r: Option<PathEdit>)
    requires
        from <= params@.len(),
    ensures
        match r {
            Some(edit) => decode_path(edit_type, params@.skip(from as int)) == Some(edit@),
            None => decode_path(edit_type, params@.skip(from as int)) is None,
        },
{
    let ghost rest = params@.skip(from as int);
    if params.len() - from < 1 {
        return None;
    }
    proof {
        assert(rest[0] == params@[from as int]);
        assert(rest.skip(1) =~= params@.subrange(from + 1, params@.len() as int));
    }
    let id = match params[from] {
        EditLogParam::ElementId(0, id) => id,
        _ => {
            return None;
        },
    };
    match edit_type {
        EditLogType::LayerPathSelectBrush => {
            if params.len() - from != 2 {
                return None;
            }
            proof {
                assert(rest[1] == params@[from + 1]);
            }
            match params[from + 1] {
                EditLogParam::Brush(definition, style) => Some(
                    PathEdit::SelectBrush(id, definition, BrushDrawingStyle::from(style)),
                ),
                _ => None,
            }
        },
        EditLogType::LayerPathBrushProperties => {
            if params.len() - from != 2 {
                return None;
            }
            proof {
                assert(rest[1] == params@[from + 1]);
            }
            match params[from + 1] {
                EditLogParam::BrushProperties(properties) => Some(PathEdit::BrushProperties(id, properties)),
                _ => None,
            }
        },
        EditLogType::LayerPathCreatePath => match collect(params, from + 1, params.len(), PickPathPoint) {
            Some(points) => match read_components(&points) {
                Some(components) => Some(PathEdit::CreatePath(id, components)),
                None => None,
            },
            None => None,
        },
        _ => None,
    }
}

/// Reads the edit to a motion that the parameters from position `from` on spell.
pub fn read_motion(edit_type: EditLogType, params: &Vec<EditLogParam>, from: usize) -> (r: Option<MotionEdit>)
    requires
        from <= params@.len(),
    ensures
        match r {
            Some(edit) => decode_motion(edit_type, params@.skip(from as int)) == Some(edit@),
            None => decode_motion(edit_type, params@.skip(from as int)) is None,
        },
{
    let ghost rest = params@.skip(from as int);
    let n = params.len() - from;
    proof {
        assert(rest =~= params@.subrange(from as int, params@.len() as int));
        if n > 0 {
            assert(rest[0] == params@[from as int]);
        }
    }
    match edit_type {
        EditLogType::MotionCreate => if n == 0 {
            Some(MotionEdit::Create)
        } else {
            None
        },
        EditLogType::MotionDelete => if n == 0 {
            Some(MotionEdit::Delete)
        } else {
            None
        },
        EditLogType::MotionSetType => if n == 1 {
            match params[from] {
                EditLogParam::MotionType(motion_type) => Some(MotionEdit::SetType(motion_type)),
                _ => None,
            }
        } else {
            None
        },
        EditLogType::MotionSetOrigin => if n == 1 {
            match params[from] {
                EditLogParam::MotionOrigin(x, y) => Some(MotionEdit::SetOrigin(x, y)),
                _ => None,
            }
        } else {
            None
        },
        EditLogType::MotionSetPath => match collect(params, from, params.len(), PickTimePoint) {
            Some(points) => match read_curve(&points) {
                Some(curve) => Some(MotionEdit::SetPath(curve)),
                None => None,
            },
            None => None,
        },
        _ => None,
    }
}

/// Reads the edit to elements that the parameters from position `from` on spell.
pub fn read_element(edit_type: EditLogType, params: &Vec<EditLogParam>, from: usize) -> (r: Option<ElementEdit>)
    requires
        from <= params@.len(),
    ensures
        match r {
            Some(edit) => decode_element(edit_type, params@.skip(from as int)) == Some(edit@),
            None => decode_element(edit_type, params@.skip(from as int)) is None,
        },
{
    let ghost rest = params@.skip(from as int);
    let n = params.len() - from;
    proof {
        assert(rest =~= params@.subrange(from as int, params@.len() as int));
        if n > 0 {
            assert(rest[0] == params@[from as int]);
        }
    }
    match edit_type {
        EditLogType::ElementSetControlPoints => match collect(params, from, params.len(), PickPathPoint) {
            Some(points) => Some(ElementEdit::SetControlPoints(read_positions(&points))),
            None => None,
        },
        EditLogType::ElementSetPath => match collect(params, from, params.len(), PickPathPoint) {
            Some(points) => match read_components(&points) {
                Some(components) => Some(ElementEdit::SetPath(components)),
                None => None,
            },
            None => None,
        },
        EditLogType::ElementOrderBefore => if n == 0 {
            Some(ElementEdit::Order(ElementOrdering::Before(ElementId::Unassigned)))
        } else if n == 1 {
            match params[from] {
                EditLogParam::Int(0, id) => Some(
                    ElementEdit::Order(ElementOrdering::Before(ElementId::Assigned(id))),
                ),
                _ => None,
            }
        } else {
            None
        },
        _ => if n != 0 {
            None
        } else {
            match edit_type {
                EditLogType::ElementOrderInFront => Some(ElementEdit::Order(ElementOrdering::InFront)),
                EditLogType::ElementOrderBehind => Some(ElementEdit::Order(ElementOrdering::Behind)),
                EditLogType::ElementOrderToTop => Some(ElementEdit::Order(ElementOrdering::ToTop)),
                EditLogType::ElementOrderToBottom => Some(ElementEdit::Order(ElementOrdering::ToBottom)),
                EditLogType::ElementDelete => Some(ElementEdit::Delete),
                EditLogType::ElementDetachFromFrame => Some(ElementEdit::DetachFromFrame),
                _ => None,
            }
        },
    }
}

/// Reads the edit to elements that parameters spell.
pub fn read_elements(edit_type: EditLogType, params: &Vec<EditLogParam>) -> (r: Option<AnimationEdit>)
    ensures
        match r {
            Some(edit) => decode_elements(edit_type, params@) == Some(edit@),
            None => decode_elements(edit_type, params@) is None,
        },
{
    if params.len() < 1 {
        return None;
    }
    let n = match params[0] {
        EditLogParam::ElementCount(n) => n,
        _ => {
            return None;
        },
    };
    if params.len() - 1 < n {
        return None;
    }
    let mut ids = match collect(params, 1, 1 + n, PickElementId) {
        Some(ids) => ids,
        None => {
            return None;
        },
    };
    match edit_type {
        EditLogType::ElementAddAttachment => {
            if n >= 1 && params.len() == 1 + n {
                let ghost all = ids@;
                let attached = ids.remove(0);
                proof {
                    assert(ids@ =~= all.skip(1));
                }
                Some(AnimationEdit::Element(ids, ElementEdit::AddAttachment(attached)))
            } else {
                None
            }
        },
        EditLogType::ElementRemoveAttachment => {
            if n >= 1 && params.len() == 1 + n {
                let ghost all = ids@;
                let attached = ids.remove(0);
                proof {
                    assert(ids@ =~= all.skip(1));
                }
                Some(AnimationEdit::Element(ids, ElementEdit::RemoveAttachment(attached)))
            } else {
                None
            }
        },
        _ => match read_element(edit_type, params, 1 + n) {
            Some(edit) => Some(AnimationEdit::Element(ids, edit)),
            None => None,
        },
    }
}

impl<TFile: FloFile, TBrush: Brush> AnimationDbCore<TFile, TBrush> {
    /// Reads the edit to a layer that the parameters from the second on spell.
    fn read_layer(&self, edit_type: EditLogType, params: &Vec<EditLogParam>) -> (r: Option<LayerEdit>)
        requires
            1 <= params@.len(),
        ensures
            match r {
                Some(edit) => decode_layer(edit_type, params@.skip(1), self@.store.tables().strings) == Some(
                    edit@,
                ),
                None => decode_layer(edit_type, params@.skip(1), self@.store.tables().strings) is None,
            },
    {
        let ghost rest = params@.skip(1);
        let n = params.len() - 1;
        proof {
            if n > 0 {
                assert(rest[0] == params@[1]);
                assert(rest.skip(1) =~= params@.skip(2));
            }
        }
        match edit_type {
            EditLogType::LayerSetName => {
                if n != 1 {
                    return None;
                }
                match params[1] {
                    EditLogParam::Text(0, at) => match self.db.query_string(at) {
                        Some(name) => Some(LayerEdit::SetName(name)),
                        None => None,
                    },
                    _ => None,
                }
            },
            EditLogType::LayerSetOrdering => {
                if n != 1 {
                    return None;
                }
                match params[1] {
                    EditLogParam::Int(0, at) => if 0 <= at && at <= u32::MAX as i64 {
                        Some(LayerEdit::SetOrdering(at as u32))
                    } else {
                        None
                    },
                    _ => None,
                }
            },
            _ => {
                if n < 1 {
                    return None;
                }
                let when = match params[1] {
                    EditLogParam::When(when) => when,
                    _ => {
                        return None;
                    },
                };
                match edit_type {
                    EditLogType::LayerAddKeyFrame => if n == 1 {
                        Some(LayerEdit::AddKeyFrame(when))
                    } else {
                        None
                    },
                    EditLogType::LayerRemoveKeyFrame => if n == 1 {
                        Some(LayerEdit::RemoveKeyFrame(when))
                    } else {
                        None
                    },
                    EditLogType::LayerPaintSelectBrush
                    | EditLogType::LayerPaintBrushProperties
                    | EditLogType::LayerPaintBrushStroke => match read_paint(edit_type, params, 2) {
                        Some(paint) => Some(LayerEdit::Paint(when, paint)),
                        None => None,
                    },
                    EditLogType::LayerPathCreatePath
                    | EditLogType::LayerPathSelectBrush
                    | EditLogType::LayerPathBrushProperties => match read_path(edit_type, params, 2) {
                        Some(path) => Some(LayerEdit::Path(when, path)),
                        None => None,
                    },
                    _ => None,
                }
            },
        }
    }

    /// Reads the edit that an entry of the edit log spells.
    pub fn read_edit(&self, edit_type: EditLogType, params: &Vec<EditLogParam>) -> (r: Option<AnimationEdit>)
        ensures
            match r {
                Some(edit) => decode_edit(edit_type, params@, self@.store.tables().strings) == Some(edit@),
                None => decode_edit(edit_type, params@, self@.store.tables().strings) is None,
            },
    {
        match edit_type {
            EditLogType::SetSize => {
                if params.len() != 1 {
                    return None;
                }
                match params[0] {
                    EditLogParam::Size(width, height) => Some(AnimationEdit::SetSize(width, height)),
                    _ => None,
                }
            },
            EditLogType::AddNewLayer => {
                if params.len() != 1 {
                    return None;
                }
                match params[0] {
                    EditLogParam::Layer(layer) => Some(AnimationEdit::AddNewLayer(layer)),
                    _ => None,
                }
            },
            EditLogType::RemoveLayer => {
                if params.len() != 1 {
                    return None;
                }
                match params[0] {
                    EditLogParam::Layer(layer) => Some(AnimationEdit::RemoveLayer(layer)),
                    _ => None,
                }
            },
            EditLogType::LayerAddKeyFrame
            | EditLogType::LayerRemoveKeyFrame
            | EditLogType::LayerSetName
            | EditLogType::LayerSetOrdering
            | EditLogType::LayerPaintSelectBrush
            | EditLogType::LayerPaintBrushProperties
            | EditLogType::LayerPaintBrushStroke
            | EditLogType::LayerPathCreatePath
            | EditLogType::LayerPathSelectBrush
            | EditLogType::LayerPathBrushProperties => {
                if params.len() < 1 {
                    return None;
                }
                match params[0] {
                    EditLogParam::Layer(layer) => match self.read_layer(edit_type, params) {
                        Some(edit) => Some(AnimationEdit::Layer(layer, edit)),
                        None => None,
                    },
                    _ => None,
                }
            },
            EditLogType::MotionCreate
            | EditLogType::MotionDelete
            | EditLogType::MotionSetType
            | EditLogType::MotionSetOrigin
            | EditLogType::MotionSetPath => {
                if params.len() < 1 {
                    return None;
                }
                match params[0] {
                    EditLogParam::ElementId(0, id) => match read_motion(edit_type, params, 1) {
                        Some(edit) => Some(AnimationEdit::Motion(id, edit)),
                        None => None,
                    },
                    _ => None,
                }
            },
            _ => read_elements(edit_type, params),
        }
    }

    /// Reads the edits from position `start` to before position `end` of the
    /// edit log, in the order in which they were written; nothing if one of the
    /// entries spells no edit. The log ends where it ends: a range that goes on
    /// beyond it is read up to its end.
    pub fn read_edit_log(&self, start: usize, end: usize) -> (r: Option<Vec<AnimationEdit>>)
        ensures
            match r {
                Some(edits) => self@.store.tables().edits_between(
                    start as int,
                    if end <= self@.store.tables().edit_log_length() {
                        end as int
                    } else {
                        self@.store.tables().edit_log_length() as int
                    },
                ) == Some(crate::animation::edit::edits_view(edits@)),
                None => self@.store.tables().edits_between(
                    start as int,
                    if end <= self@.store.tables().edit_log_length() {
                        end as int
                    } else {
                        self@.store.tables().edit_log_length() as int
                    },
                ) is None,
            },
    {
        let length = self.db.query_edit_log_length();
        let stop = if end <= length {
            end
        } else {
            length
        };
        let ghost t = self@.store.tables();
        let mut out: Vec<AnimationEdit> = Vec::new();
        proof {
            assert(crate::animation::edit::edits_view(out@) =~= Seq::empty());
        }
        if stop <= start {
            return Some(out);
        }
        let mut i: usize = start;
        while i < stop
            invariant
                start <= i <= stop,
                stop <= length,
                length == t.edit_log_length(),
                stop == (if end <= length {
                    end
                } else {
                    length
                }),
                t == self@.store.tables(),
                t.edits_between(start as int, i as int) == Some(crate::animation::edit::edits_view(out@)),
            decreases stop - i,
        {
            let edit = match self.db.query_edit_log_entry(i) {
                Some((edit_type, params)) => self.read_edit(edit_type, &params),
                None => None,
            };
            match edit {
                Some(edit) => {
                    out.push(edit);
                    proof {
                        assert(crate::animation::edit::edits_view(out@) =~= t.edits_between(
                            start as int,
                            i as int,
                        ).unwrap().push(edit@));
                    }
                },
                None => {
                    proof {
                        lemma_edits_between_fails(t, start as int, stop as int, i as int);
                    }
                    return None;
                },
            }
            i += 1;
        }
        Some(out)
    }
}

/// A range of the edit log of which one entry spells no edit spells no edits.
pub proof fn lemma_edits_between_fails(t: TablesView, start: int, end: int, k: int)
    requires
        start <= k < end,
        t.edit_at(k) is None,
    ensures
        t.edits_between(start, end) is None,
    decreases end - start,
{
    if k < end - 1 {
        lemma_edits_between_fails(t, start, end - 1, k);
    }
}

} // verus!
