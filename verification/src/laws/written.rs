//! What the edit log writer leaves in the edit log for an edit.

use vstd::prelude::*;
use crate::animation::edit::{AnimationEditView, ElementEditView, ElementOrdering, LayerEditView, MotionEditView, PaintEditView, PathEditView};
use crate::animation::element_id::ElementId;
use crate::db::brush::{brush_properties_updates, brush_updates};
use crate::db::db_enum::{drawing_style_type, edit_log_type, EditLogType};
use crate::db::flo_store::UpdateView;
use crate::db::insert_editlog::{animation_edit_log_updates, edit_log_updates, element_id_list_updates, element_id_log_updates, element_log_updates, layer_log_updates, motion_log_updates, paint_log_updates, path_log_updates};
use crate::db::matchers::{PathPointParam, RawPointParam, TimePointParam};
use crate::db::perform_edit::time_point_updates;
use crate::db::points::{curve_points, flatten_components, plain_points};
use crate::db::relation::mapped;
use crate::db::rows::EditLogParam;
use crate::db::step::{run, step, Machine};
use crate::laws::frame::{fits, lemma_run_grows};
use crate::laws::symbolic::{lemma_run_1, lemma_run_2, lemma_run_concat};
use crate::laws::tokens::{edit_tokens, element_tokens, id_list_tokens, id_tokens, layer_tokens, motion_tokens, paint_tokens, path_tokens};
use crate::laws::writer::{lemma_close, lemma_open, lemma_record, lemma_record_brush, lemma_record_brush_properties, lemma_record_components, lemma_record_curve, lemma_record_id_list, lemma_record_plain_points, lemma_record_raw_points, lemma_record_size, lemma_record_string, recorded, writing, written};

verus! {

/// The strings after an edit was written: those before it, and the name that
/// the edit gives a layer.
pub open spec fn strings_with(strings: Seq<Seq<char>>, edit: AnimationEditView) -> Seq<Seq<char>> {
    match edit {
        AnimationEditView::Layer(_, LayerEditView::SetName(name)) => strings.push(name),
        _ => strings,
    }
}

/// Recording one parameter and taking the entry from the stack closes it.
proof fn lemma_record_and_close(
    base: Machine,
    edit_type: EditLogType,
    x: Machine,
    tokens: Seq<EditLogParam>,
    strings: Seq<Seq<char>>,
    u: UpdateView,
)
    requires
        writing(base, edit_type, x, tokens, strings),
        recorded(u) is Some,
    ensures
        run(x, seq![u, UpdateView::Pop]) is Ok,
        written(
            base,
            edit_type,
            run(x, seq![u, UpdateView::Pop]).unwrap(),
            tokens.push(recorded(u).unwrap()),
            strings,
        ),
{
    lemma_run_2(x, u, UpdateView::Pop);
    lemma_record(base, edit_type, x, tokens, strings, u);
    lemma_close(base, edit_type, step(x, u).unwrap(), tokens.push(recorded(u).unwrap()), strings);
}

/// What the writer leaves for the id of an element and what comes after it.
proof fn lemma_after_id(
    base: Machine,
    edit_type: EditLogType,
    x: Machine,
    tokens: Seq<EditLogParam>,
    strings: Seq<Seq<char>>,
    id: ElementId,
    rest: Seq<UpdateView>,
)
    requires
        writing(base, edit_type, x, tokens, strings),
        run(x, element_id_log_updates(id) + rest) is Ok,
    ensures
        step(x, UpdateView::PushEditLogElementId(0, id)) is Ok,
        writing(
            base,
            edit_type,
            step(x, UpdateView::PushEditLogElementId(0, id)).unwrap(),
            tokens + id_tokens(id),
            strings,
        ),
        run(x, element_id_log_updates(id) + rest) == run(
            step(x, UpdateView::PushEditLogElementId(0, id)).unwrap(),
            rest,
        ),
{
    let u = UpdateView::PushEditLogElementId(0, id);
    lemma_run_concat(x, element_id_log_updates(id), rest);
    lemma_run_1(x, u);
    lemma_record(base, edit_type, x, tokens, strings, u);
    assert(tokens.push(recorded(u).unwrap()) =~= tokens + id_tokens(id));
}

/// What the writer leaves for a paint edit.
pub proof fn lemma_write_paint(
    base: Machine,
    edit_type: EditLogType,
    x: Machine,
    tokens: Seq<EditLogParam>,
    strings: Seq<Seq<char>>,
    edit: PaintEditView,
)
    requires
        writing(base, edit_type, x, tokens, strings),
        run(x, paint_log_updates(edit)) is Ok,
    ensures
        written(base, edit_type, run(x, paint_log_updates(edit)).unwrap(), tokens + paint_tokens(edit), strings),
{
    match edit {
        PaintEditView::SelectBrush(id, definition, style) => {
            let rest = brush_updates(definition) + seq![UpdateView::PopEditLogBrush(drawing_style_type(style))];
            assert(paint_log_updates(edit) =~= element_id_log_updates(id) + rest);
            lemma_after_id(base, edit_type, x, tokens, strings, id, rest);
            let x1 = step(x, UpdateView::PushEditLogElementId(0, id)).unwrap();
            lemma_record_brush(
                base,
                edit_type,
                x1,
                tokens + id_tokens(id),
                strings,
                definition,
                drawing_style_type(style),
            );
            assert((tokens + id_tokens(id)).push(
                EditLogParam::Brush(definition, drawing_style_type(style)),
            ) =~= tokens + paint_tokens(edit));
        },
        PaintEditView::BrushProperties(id, properties) => {
            let rest = brush_properties_updates(properties) + seq![UpdateView::PopEditLogBrushProperties];
            assert(paint_log_updates(edit) =~= element_id_log_updates(id) + rest);
            lemma_after_id(base, edit_type, x, tokens, strings, id, rest);
            let x1 = step(x, UpdateView::PushEditLogElementId(0, id)).unwrap();
            lemma_record_brush_properties(base, edit_type, x1, tokens + id_tokens(id), strings, properties);
            assert((tokens + id_tokens(id)).push(EditLogParam::BrushProperties(properties)) =~= tokens
                + paint_tokens(edit));
        },
        PaintEditView::BrushStroke(id, points) => {
            let rest = seq![UpdateView::PushRawPoints(points), UpdateView::Pop];
            lemma_after_id(base, edit_type, x, tokens, strings, id, rest);
            let x1 = step(x, UpdateView::PushEditLogElementId(0, id)).unwrap();
            lemma_record_raw_points(base, edit_type, x1, tokens + id_tokens(id), strings, points);
            assert(tokens + id_tokens(id) + mapped(points, RawPointParam) =~= tokens + paint_tokens(edit));
        },
    }
}

/// What the writer leaves for an edit of a path.
pub proof fn lemma_write_path(
    base: Machine,
    edit_type: EditLogType,
    x: Machine,
    tokens: Seq<EditLogParam>,
    strings: Seq<Seq<char>>,
    edit: PathEditView,
)
    requires
        writing(base, edit_type, x, tokens, strings),
        run(x, path_log_updates(edit)) is Ok,
        fits(run(x, path_log_updates(edit)).unwrap().tables),
    ensures
        written(base, edit_type, run(x, path_log_updates(edit)).unwrap(), tokens + path_tokens(edit), strings),
{
    match edit {
        PathEditView::SelectBrush(id, definition, style) => {
            let rest = brush_updates(definition) + seq![UpdateView::PopEditLogBrush(drawing_style_type(style))];
            assert(path_log_updates(edit) =~= element_id_log_updates(id) + rest);
            lemma_after_id(base, edit_type, x, tokens, strings, id, rest);
            let x1 = step(x, UpdateView::PushEditLogElementId(0, id)).unwrap();
            lemma_record_brush(
                base,
                edit_type,
                x1,
                tokens + id_tokens(id),
                strings,
                definition,
                drawing_style_type(style),
            );
            assert((tokens + id_tokens(id)).push(
                EditLogParam::Brush(definition, drawing_style_type(style)),
            ) =~= tokens + path_tokens(edit));
        },
        PathEditView::BrushProperties(id, properties) => {
            let rest = brush_properties_updates(properties) + seq![UpdateView::PopEditLogBrushProperties];
            assert(path_log_updates(edit) =~= element_id_log_updates(id) + rest);
            lemma_after_id(base, edit_type, x, tokens, strings, id, rest);
            let x1 = step(x, UpdateView::PushEditLogElementId(0, id)).unwrap();
            lemma_record_brush_properties(base, edit_type, x1, tokens + id_tokens(id), strings, properties);
            assert((tokens + id_tokens(id)).push(EditLogParam::BrushProperties(properties)) =~= tokens
                + path_tokens(edit));
        },
        PathEditView::CreatePath(id, components) => {
            let rest = seq![
                UpdateView::PushPathComponents(components),
                UpdateView::PushEditLogPath,
                UpdateView::Pop,
            ];
            lemma_after_id(base, edit_type, x, tokens, strings, id, rest);
            let x1 = step(x, UpdateView::PushEditLogElementId(0, id)).unwrap();
            lemma_record_components(base, edit_type, x1, tokens + id_tokens(id), strings, components);
            assert(tokens + id_tokens(id) + mapped(flatten_components(components), PathPointParam) =~= tokens
                + path_tokens(edit));
        },
    }
}

/// What the writer leaves for an edit to a layer, after the layer.
pub proof fn lemma_write_layer(
    base: Machine,
    edit_type: EditLogType,
    x: Machine,
    tokens: Seq<EditLogParam>,
    strings: Seq<Seq<char>>,
    edit: LayerEditView,
)
    requires
        writing(base, edit_type, x, tokens, strings),
        run(x, layer_log_updates(edit)) is Ok,
        fits(run(x, layer_log_updates(edit)).unwrap().tables),
    ensures
        written(
            base,
            edit_type,
            run(x, layer_log_updates(edit)).unwrap(),
            tokens + layer_tokens(edit, strings.len() as usize),
            strings_with(strings, AnimationEditView::Layer(0, edit)),
        ),
{
    let at = strings.len() as usize;
    match edit {
        LayerEditView::Paint(when, paint) => {
            let u = UpdateView::PushEditLogWhen(when);
            lemma_run_concat(x, seq![u], paint_log_updates(paint));
            lemma_run_1(x, u);
            lemma_record(base, edit_type, x, tokens, strings, u);
            lemma_write_paint(base, edit_type, step(x, u).unwrap(), tokens.push(recorded(u).unwrap()), strings, paint);
            assert(tokens.push(recorded(u).unwrap()) + paint_tokens(paint) =~= tokens + layer_tokens(edit, at));
        },
        LayerEditView::Path(when, path) => {
            let u = UpdateView::PushEditLogWhen(when);
            lemma_run_concat(x, seq![u], path_log_updates(path));
            lemma_run_1(x, u);
            lemma_record(base, edit_type, x, tokens, strings, u);
            lemma_write_path(base, edit_type, step(x, u).unwrap(), tokens.push(recorded(u).unwrap()), strings, path);
            assert(tokens.push(recorded(u).unwrap()) + path_tokens(path) =~= tokens + layer_tokens(edit, at));
        },
        LayerEditView::AddKeyFrame(when) => {
            let u = UpdateView::PushEditLogWhen(when);
            lemma_record_and_close(base, edit_type, x, tokens, strings, u);
            assert(tokens.push(recorded(u).unwrap()) =~= tokens + layer_tokens(edit, at));
        },
        LayerEditView::RemoveKeyFrame(when) => {
            let u = UpdateView::PushEditLogWhen(when);
            lemma_record_and_close(base, edit_type, x, tokens, strings, u);
            assert(tokens.push(recorded(u).unwrap()) =~= tokens + layer_tokens(edit, at));
        },
        LayerEditView::SetName(name) => {
            lemma_run_1(x, UpdateView::PopEditLogString(0, name));
            lemma_record_string(base, edit_type, x, tokens, strings, 0, name);
            assert(tokens.push(EditLogParam::Text(0, at)) =~= tokens + layer_tokens(edit, at));
        },
        LayerEditView::SetOrdering(position) => {
            let u = UpdateView::PushEditLogInt(0, position as i64);
            lemma_record_and_close(base, edit_type, x, tokens, strings, u);
            assert(tokens.push(recorded(u).unwrap()) =~= tokens + layer_tokens(edit, at));
        },
    }
}

/// What the writer leaves for an edit to elements, after their ids.
pub proof fn lemma_write_element(
    base: Machine,
    edit_type: EditLogType,
    x: Machine,
    tokens: Seq<EditLogParam>,
    strings: Seq<Seq<char>>,
    edit: ElementEditView,
)
    requires
        writing(base, edit_type, x, tokens, strings),
        run(x, element_log_updates(edit)) is Ok,
        fits(run(x, element_log_updates(edit)).unwrap().tables),
    ensures
        written(
            base,
            edit_type,
            run(x, element_log_updates(edit)).unwrap(),
            tokens + element_tokens(edit),
            strings,
        ),
{
    match edit {
        ElementEditView::SetControlPoints(points) => {
            lemma_record_plain_points(base, edit_type, x, tokens, strings, points);
        },
        ElementEditView::SetPath(components) => {
            lemma_record_components(base, edit_type, x, tokens, strings, components);
        },
        ElementEditView::Order(ElementOrdering::Before(ElementId::Assigned(id))) => {
            let u = UpdateView::PushEditLogInt(0, id);
            lemma_record_and_close(base, edit_type, x, tokens, strings, u);
            assert(tokens.push(recorded(u).unwrap()) =~= tokens + element_tokens(edit));
        },
        _ => {
            lemma_run_1(x, UpdateView::Pop);
            lemma_close(base, edit_type, x, tokens, strings);
            assert(element_log_updates(edit) =~= seq![UpdateView::Pop]);
            assert(tokens + element_tokens(edit) =~= tokens);
        },
    }
}

/// What the writer leaves for an edit to a motion, after its id.
pub proof fn lemma_write_motion(
    base: Machine,
    edit_type: EditLogType,
    x: Machine,
    tokens: Seq<EditLogParam>,
    strings: Seq<Seq<char>>,
    edit: MotionEditView,
)
    requires
        writing(base, edit_type, x, tokens, strings),
        run(x, motion_log_updates(edit)) is Ok,
        fits(run(x, motion_log_updates(edit)).unwrap().tables),
    ensures
        written(
            base,
            edit_type,
            run(x, motion_log_updates(edit)).unwrap(),
            tokens + motion_tokens(edit),
            strings,
        ),
{
    match edit {
        MotionEditView::SetType(motion_type) => {
            let u = UpdateView::PushEditLogMotionType(motion_type);
            lemma_record_and_close(base, edit_type, x, tokens, strings, u);
            assert(tokens.push(recorded(u).unwrap()) =~= tokens + motion_tokens(edit));
        },
        MotionEditView::SetOrigin(px, py) => {
            let u = UpdateView::PushEditLogMotionOrigin(px, py);
            lemma_record_and_close(base, edit_type, x, tokens, strings, u);
            assert(tokens.push(recorded(u).unwrap()) =~= tokens + motion_tokens(edit));
        },
        MotionEditView::SetPath(curve) => {
            lemma_record_curve(base, edit_type, x, tokens, strings, curve);
        },
        _ => {
            lemma_run_1(x, UpdateView::Pop);
            lemma_close(base, edit_type, x, tokens, strings);
            assert(tokens + motion_tokens(edit) =~= tokens);
        },
    }
}

/// What the writer leaves for an edit in the entry that it has opened.
pub proof fn lemma_write_body(
    base: Machine,
    edit_type: EditLogType,
    x: Machine,
    strings: Seq<Seq<char>>,
    edit: AnimationEditView,
)
    requires
        writing(base, edit_type, x, Seq::empty(), strings),
        run(x, animation_edit_log_updates(edit)) is Ok,
        fits(run(x, animation_edit_log_updates(edit)).unwrap().tables),
    ensures
        written(
            base,
            edit_type,
            run(x, animation_edit_log_updates(edit)).unwrap(),
            edit_tokens(edit, strings.len() as usize),
            strings_with(strings, edit),
        ),
{
    let none = Seq::<EditLogParam>::empty();
    let at = strings.len() as usize;
    match edit {
        AnimationEditView::Layer(layer, layer_edit) => {
            let u = UpdateView::PushEditLogLayer(layer);
            lemma_run_concat(x, seq![u], layer_log_updates(layer_edit));
            lemma_run_1(x, u);
            lemma_record(base, edit_type, x, none, strings, u);
            lemma_write_layer(base, edit_type, step(x, u).unwrap(), none.push(recorded(u).unwrap()), strings, layer_edit);
            assert(none.push(recorded(u).unwrap()) + layer_tokens(layer_edit, at) =~= edit_tokens(edit, at));
        },
        AnimationEditView::SetSize(width, height) => {
            lemma_run_1(x, UpdateView::PopEditLogSetSize(width, height));
            lemma_record_size(base, edit_type, x, none, strings, width, height);
            assert(none.push(EditLogParam::Size(width, height)) =~= edit_tokens(edit, at));
        },
        AnimationEditView::AddNewLayer(layer) => {
            let u = UpdateView::PushEditLogLayer(layer);
            lemma_record_and_close(base, edit_type, x, none, strings, u);
            assert(none.push(recorded(u).unwrap()) =~= edit_tokens(edit, at));
        },
        AnimationEditView::RemoveLayer(layer) => {
            let u = UpdateView::PushEditLogLayer(layer);
            lemma_record_and_close(base, edit_type, x, none, strings, u);
            assert(none.push(recorded(u).unwrap()) =~= edit_tokens(edit, at));
        },
        AnimationEditView::Element(ids, ElementEditView::AddAttachment(attached)) => {
            let all = seq![attached] + ids;
            lemma_run_concat(x, element_id_list_updates(all), seq![UpdateView::Pop]);
            lemma_record_id_list(base, edit_type, x, none, strings, all);
            let listed = run(x, element_id_list_updates(all)).unwrap();
            lemma_run_1(listed, UpdateView::Pop);
            lemma_close(base, edit_type, listed, none + id_list_tokens(all), strings);
            assert(none + id_list_tokens(all) =~= edit_tokens(edit, at));
        },
        AnimationEditView::Element(ids, ElementEditView::RemoveAttachment(attached)) => {
            let all = seq![attached] + ids;
            lemma_run_concat(x, element_id_list_updates(all), seq![UpdateView::Pop]);
            lemma_record_id_list(base, edit_type, x, none, strings, all);
            let listed = run(x, element_id_list_updates(all)).unwrap();
            lemma_run_1(listed, UpdateView::Pop);
            lemma_close(base, edit_type, listed, none + id_list_tokens(all), strings);
            assert(none + id_list_tokens(all) =~= edit_tokens(edit, at));
        },
        AnimationEditView::Element(ids, element_edit) => {
            lemma_run_concat(x, element_id_list_updates(ids), element_log_updates(element_edit));
            lemma_record_id_list(base, edit_type, x, none, strings, ids);
            let listed = run(x, element_id_list_updates(ids)).unwrap();
            lemma_write_element(base, edit_type, listed, none + id_list_tokens(ids), strings, element_edit);
            assert(none + id_list_tokens(ids) + element_tokens(element_edit) =~= edit_tokens(edit, at));
        },
        AnimationEditView::Motion(id, motion_edit) => {
            lemma_after_id(base, edit_type, x, none, strings, id, motion_log_updates(motion_edit));
            let x1 = step(x, UpdateView::PushEditLogElementId(0, id)).unwrap();
            lemma_write_motion(base, edit_type, x1, none + id_tokens(id), strings, motion_edit);
            assert(none + id_tokens(id) + motion_tokens(motion_edit) =~= edit_tokens(edit, at));
        },
    }
}

/// What the writer leaves in the edit log for an edit: one more entry, with the
/// tag of the edit and its parameters, and the stack as it was.
pub proof fn lemma_write_edit(base: Machine, edit: AnimationEditView)
    requires
        run(base, edit_log_updates(edit)) is Ok,
        fits(run(base, edit_log_updates(edit)).unwrap().tables),
    ensures
        written(
            base,
            edit_log_type(edit),
            run(base, edit_log_updates(edit)).unwrap(),
            edit_tokens(edit, base.tables.strings.len() as usize),
            strings_with(base.tables.strings, edit),
        ),
{
    let open = UpdateView::PushEditType(edit_log_type(edit));
    lemma_run_concat(base, seq![open], animation_edit_log_updates(edit));
    lemma_run_1(base, open);
    lemma_open(base, edit_log_type(edit));
    lemma_write_body(base, edit_log_type(edit), step(base, open).unwrap(), base.tables.strings, edit);
}

} // verus!
