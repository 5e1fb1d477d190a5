//! The parameters that the edit log holds for an edit, and that they spell the
//! edit.

use vstd::prelude::*;
use crate::animation::brush::{Coord, RawPoint};
use crate::animation::edit::{AnimationEditView, ElementEditView, ElementOrdering, LayerEditView, MotionEditView, PaintEditView, PathEditView};
use crate::animation::element_id::ElementId;
use crate::animation::motion::{TimeControlPoint, TimePoint};
use crate::animation::path::PathComponent;
use crate::db::db_enum::{drawing_style_type, edit_log_type, lemma_drawing_style_round_trip};
use crate::db::edit_stream::{collected, decode_edit, decode_element, decode_elements, decode_layer, decode_motion, decode_paint, decode_path, element_ids_in, path_points_in, raw_points_in, time_points_in, PickElementId, PickPathPoint, PickRawPoint, PickTimePoint};
use crate::db::matchers::{PathPointParam, RawPointParam, TimePointParam};
use crate::db::points::{curve_points, flatten_components, lemma_parse_curve, lemma_parse_flatten, plain_points, point_positions};
use crate::db::relation::mapped;
use crate::db::rows::{EditLogParam, PathPointRow};

verus! {

/// The parameter that holds an element id.
pub open spec fn id_tokens(id: ElementId) -> Seq<EditLogParam> {
    seq![EditLogParam::ElementId(0, id)]
}

/// The parameters that hold each id of a list at its position.
pub open spec fn id_entries(ids: Seq<ElementId>) -> Seq<EditLogParam> {
    Seq::new(ids.len(), |i: int| EditLogParam::ElementId(i as usize, ids[i]))
}

/// The parameters that hold a list of element ids.
pub open spec fn id_list_tokens(ids: Seq<ElementId>) -> Seq<EditLogParam> {
    seq![EditLogParam::ElementCount(ids.len() as usize)] + id_entries(ids)
}

/// The parameters of a paint edit.
pub open spec fn paint_tokens(edit: PaintEditView) -> Seq<EditLogParam> {
    match edit {
        PaintEditView::SelectBrush(id, definition, style) => id_tokens(id) + seq![
            EditLogParam::Brush(definition, drawing_style_type(style)),
        ],
        PaintEditView::BrushProperties(id, properties) => id_tokens(id) + seq![
            EditLogParam::BrushProperties(properties),
        ],
        PaintEditView::BrushStroke(id, points) => id_tokens(id) + mapped(points, RawPointParam),
    }
}

/// The parameters of an edit of a path.
pub open spec fn path_tokens(edit: PathEditView) -> Seq<EditLogParam> {
    match edit {
        PathEditView::SelectBrush(id, definition, style) => id_tokens(id) + seq![
            EditLogParam::Brush(definition, drawing_style_type(style)),
        ],
        PathEditView::BrushProperties(id, properties) => id_tokens(id) + seq![
            EditLogParam::BrushProperties(properties),
        ],
        PathEditView::CreatePath(id, components) => id_tokens(id) + mapped(
            flatten_components(components),
            PathPointParam,
        ),
    }
}

/// The parameters of an edit to a layer, after the layer; `at` is where the
/// name of the layer is among the strings.
pub open spec fn layer_tokens(edit: LayerEditView, at: usize) -> Seq<EditLogParam> {
    match edit {
        LayerEditView::Paint(when, paint) => seq![EditLogParam::When(when)] + paint_tokens(paint),
        LayerEditView::Path(when, path) => seq![EditLogParam::When(when)] + path_tokens(path),
        LayerEditView::AddKeyFrame(when) => seq![EditLogParam::When(when)],
        LayerEditView::RemoveKeyFrame(when) => seq![EditLogParam::When(when)],
        LayerEditView::SetName(_) => seq![EditLogParam::Text(0, at)],
        LayerEditView::SetOrdering(position) => seq![EditLogParam::Int(0, position as i64)],
    }
}

/// The parameters of an edit to elements, after their ids.
pub open spec fn element_tokens(edit: ElementEditView) -> Seq<EditLogParam> {
    match edit {
        ElementEditView::SetControlPoints(points) => mapped(plain_points(points), PathPointParam),
        ElementEditView::SetPath(components) => mapped(flatten_components(components), PathPointParam),
        ElementEditView::Order(ElementOrdering::Before(ElementId::Assigned(id))) => seq![
            EditLogParam::Int(0, id),
        ],
        _ => Seq::empty(),
    }
}

/// The parameters of an edit to a motion, after its id.
pub open spec fn motion_tokens(edit: MotionEditView) -> Seq<EditLogParam> {
    match edit {
        MotionEditView::Create => Seq::empty(),
        MotionEditView::Delete => Seq::empty(),
        MotionEditView::SetType(motion_type) => seq![EditLogParam::MotionType(motion_type)],
        MotionEditView::SetOrigin(x, y) => seq![EditLogParam::MotionOrigin(x, y)],
        MotionEditView::SetPath(curve) => mapped(curve_points(curve), TimePointParam),
    }
}

/// The parameters that the edit log holds for an edit; `at` is where a string
/// of the edit is among the strings.
pub open spec fn edit_tokens(edit: AnimationEditView, at: usize) -> Seq<EditLogParam> {
    match edit {
        AnimationEditView::Layer(layer, layer_edit) => seq![EditLogParam::Layer(layer)] + layer_tokens(
            layer_edit,
            at,
        ),
        AnimationEditView::SetSize(width, height) => seq![EditLogParam::Size(width, height)],
        AnimationEditView::AddNewLayer(layer) => seq![EditLogParam::Layer(layer)],
        AnimationEditView::RemoveLayer(layer) => seq![EditLogParam::Layer(layer)],
        AnimationEditView::Element(ids, ElementEditView::AddAttachment(attached)) => id_list_tokens(
            seq![attached] + ids,
        ),
        AnimationEditView::Element(ids, ElementEditView::RemoveAttachment(attached)) => id_list_tokens(
            seq![attached] + ids,
        ),
        AnimationEditView::Element(ids, element_edit) => id_list_tokens(ids) + element_tokens(element_edit),
        AnimationEditView::Motion(id, motion_edit) => id_tokens(id) + motion_tokens(motion_edit),
    }
}

/// Raw points come back from the parameters that hold them.
pub proof fn lemma_raw_points_back(points: Seq<RawPoint>)
    ensures
        raw_points_in(mapped(points, RawPointParam)) == Some(points),
    decreases points.len(),
{
    let params = mapped(points, RawPointParam);
    if points.len() > 0 {
        lemma_raw_points_back(points.drop_last());
        assert(params.drop_last() =~= mapped(points.drop_last(), RawPointParam));
        assert(points.drop_last().push(points.last()) =~= points);
    } else {
        assert(points =~= Seq::empty());
    }
}

/// Path points come back from the parameters that hold them.
pub proof fn lemma_path_points_back(points: Seq<PathPointRow>)
    ensures
        path_points_in(mapped(points, PathPointParam)) == Some(points),
    decreases points.len(),
{
    let params = mapped(points, PathPointParam);
    if points.len() > 0 {
        lemma_path_points_back(points.drop_last());
        assert(params.drop_last() =~= mapped(points.drop_last(), PathPointParam));
        assert(points.drop_last().push(points.last()) =~= points);
    } else {
        assert(points =~= Seq::empty());
    }
}

/// Time points come back from the parameters that hold them.
pub proof fn lemma_time_points_back(points: Seq<TimePoint>)
    ensures
        time_points_in(mapped(points, TimePointParam)) == Some(points),
    decreases points.len(),
{
    let params = mapped(points, TimePointParam);
    if points.len() > 0 {
        lemma_time_points_back(points.drop_last());
        assert(params.drop_last() =~= mapped(points.drop_last(), TimePointParam));
        assert(points.drop_last().push(points.last()) =~= points);
    } else {
        assert(points =~= Seq::empty());
    }
}

/// Element ids come back from the parameters that hold them.
pub proof fn lemma_ids_back(ids: Seq<ElementId>)
    requires
        ids.len() <= usize::MAX,
    ensures
        element_ids_in(id_entries(ids)) == Some(ids),
    decreases ids.len(),
{
    let params = id_entries(ids);
    if ids.len() > 0 {
        lemma_ids_back(ids.drop_last());
        assert(params.drop_last() =~= id_entries(ids.drop_last()));
        assert(ids.drop_last().push(ids.last()) =~= ids);
    } else {
        assert(ids =~= Seq::empty());
    }
}

/// The positions of plain points are the positions they were made of.
pub proof fn lemma_plain_positions(points: Seq<Coord>)
    ensures
        point_positions(plain_points(points)) == points,
{
    assert(point_positions(plain_points(points)) =~= points);
}

/// The parameters of a paint edit spell the edit.
pub proof fn lemma_paint_tokens(edit: PaintEditView)
    ensures
        decode_paint(
            edit_log_type(AnimationEditView::Layer(0, LayerEditView::Paint(0, edit))),
            paint_tokens(edit),
        ) == Some(edit),
{
    match edit {
        PaintEditView::SelectBrush(id, definition, style) => {
            lemma_drawing_style_round_trip(style, drawing_style_type(style));
        },
        PaintEditView::BrushProperties(id, properties) => {},
        PaintEditView::BrushStroke(id, points) => {
            lemma_raw_points_back(points);
            assert(paint_tokens(edit).skip(1) =~= mapped(points, RawPointParam));
        },
    }
}

/// The parameters of an edit of a path spell the edit.
pub proof fn lemma_path_tokens(edit: PathEditView)
    ensures
        decode_path(
            edit_log_type(AnimationEditView::Layer(0, LayerEditView::Path(0, edit))),
            path_tokens(edit),
        ) == Some(edit),
{
    match edit {
        PathEditView::SelectBrush(id, definition, style) => {
            lemma_drawing_style_round_trip(style, drawing_style_type(style));
        },
        PathEditView::BrushProperties(id, properties) => {},
        PathEditView::CreatePath(id, components) => {
            lemma_path_points_back(flatten_components(components));
            lemma_parse_flatten(components);
            assert(path_tokens(edit).skip(1) =~= mapped(flatten_components(components), PathPointParam));
        },
    }
}

/// The parameters of an edit to a layer spell the edit.
pub proof fn lemma_layer_tokens(edit: LayerEditView, at: usize, strings: Seq<Seq<char>>)
    requires
        edit matches LayerEditView::SetName(name) ==> at < strings.len() && strings[at as int] == name,
    ensures
        decode_layer(edit_log_type(AnimationEditView::Layer(0, edit)), layer_tokens(edit, at), strings) == Some(
            edit,
        ),
{
    match edit {
        LayerEditView::Paint(when, paint) => {
            lemma_paint_tokens(paint);
            assert(layer_tokens(edit, at).skip(1) =~= paint_tokens(paint));
        },
        LayerEditView::Path(when, path) => {
            lemma_path_tokens(path);
            assert(layer_tokens(edit, at).skip(1) =~= path_tokens(path));
        },
        _ => {},
    }
}

/// The parameters of an edit to a motion spell the edit.
pub proof fn lemma_motion_tokens(edit: MotionEditView)
    ensures
        decode_motion(edit_log_type(AnimationEditView::Motion(ElementId::Unassigned, edit)), motion_tokens(edit))
            == Some(edit),
{
    match edit {
        MotionEditView::SetPath(curve) => {
            lemma_time_points_back(curve_points(curve));
            lemma_parse_curve(curve);
        },
        _ => {},
    }
}

/// The parameters of an edit to elements, after their ids, spell the edit.
pub proof fn lemma_element_tokens(edit: ElementEditView)
    requires
        !(edit is AddAttachment),
        !(edit is RemoveAttachment),
    ensures
        decode_element(edit_log_type(AnimationEditView::Element(Seq::empty(), edit)), element_tokens(edit))
            == Some(edit),
{
    match edit {
        ElementEditView::SetControlPoints(points) => {
            lemma_path_points_back(plain_points(points));
            lemma_plain_positions(points);
        },
        ElementEditView::SetPath(components) => {
            lemma_path_points_back(flatten_components(components));
            lemma_parse_flatten(components);
        },
        _ => {},
    }
}

/// The parameters that the edit log holds for an edit spell the edit.
pub proof fn lemma_tokens_spell_edit(edit: AnimationEditView, at: usize, strings: Seq<Seq<char>>)
    requires
        edit matches AnimationEditView::Layer(_, LayerEditView::SetName(name)) ==> at < strings.len()
            && strings[at as int] == name,
        edit_tokens(edit, at).len() <= usize::MAX,
    ensures
        decode_edit(edit_log_type(edit), edit_tokens(edit, at), strings) == Some(edit),
{
    let tokens = edit_tokens(edit, at);
    match edit {
        AnimationEditView::Layer(layer, layer_edit) => {
            lemma_layer_tokens(layer_edit, at, strings);
            assert(tokens.skip(1) =~= layer_tokens(layer_edit, at));
            assert(edit_log_type(edit) == edit_log_type(AnimationEditView::Layer(0, layer_edit)));
        },
        AnimationEditView::Motion(id, motion_edit) => {
            lemma_motion_tokens(motion_edit);
            assert(tokens.skip(1) =~= motion_tokens(motion_edit));
            assert(edit_log_type(edit) == edit_log_type(
                AnimationEditView::Motion(ElementId::Unassigned, motion_edit),
            ));
        },
        AnimationEditView::Element(ids, ElementEditView::AddAttachment(attached)) => {
            let all = seq![attached] + ids;
            lemma_ids_back(all);
            assert(tokens.subrange(1, 1 + all.len() as int) =~= id_entries(all));
            assert(all.skip(1) =~= ids);
        },
        AnimationEditView::Element(ids, ElementEditView::RemoveAttachment(attached)) => {
            let all = seq![attached] + ids;
            lemma_ids_back(all);
            assert(tokens.subrange(1, 1 + all.len() as int) =~= id_entries(all));
            assert(all.skip(1) =~= ids);
        },
        AnimationEditView::Element(ids, element_edit) => {
            lemma_ids_back(ids);
            lemma_element_tokens(element_edit);
            assert(tokens.subrange(1, 1 + ids.len() as int) =~= id_entries(ids));
            assert(tokens.skip(1 + ids.len() as int) =~= element_tokens(element_edit));
            assert(edit_log_type(edit) == edit_log_type(
                AnimationEditView::Element(Seq::empty(), element_edit),
            ));
        },
        _ => {},
    }
}

} // verus!
