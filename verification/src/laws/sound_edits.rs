//! The ids of the elements stay in order, whatever edit is performed.

use vstd::prelude::*;
use crate::animation::brush::{BrushDefinition, BrushProperties, TimeMicros};
use crate::animation::brushes::Brush;
use crate::animation::cache_type::CacheType;
use crate::animation::edit::{AnimationEditView, ElementEditView, LayerEditView, MotionEditView, PaintEditView, PathEditView};
use crate::animation::element_id::ElementId;
use crate::db::animation_core::{
    active_brush, attach_updates, brush_definition_element_updates, brush_properties_element_updates,
    count_wanted, new_element_updates, paint_updates, paint_vector_layer_spec, stroke_updates, submit,
    unattached_element_updates, with_element_ids, AttachProperties, CoreView, EditOutcome,
};
use crate::db::brush::{brush_properties_updates, brush_updates};
use crate::db::db_enum::VectorElementType;
use crate::db::edit_sink::{perform_all_spec, perform_edits_spec, replay_edits_spec};
use crate::db::engine_run::lemma_run_push;
use crate::db::error::StoreError;
use crate::db::flo_file::StoreView;
use crate::db::flo_store::UpdateView;
use crate::db::insert_editlog::{
    animation_edit_log_updates, edit_log_updates, edits_log_updates, element_id_list_updates,
    element_id_log_updates, element_log_updates, insert_edits_spec, layer_log_updates, motion_log_updates,
    paint_log_updates, path_log_updates,
};
use crate::db::layer_cache::{delete_cache_updates, store_cache_updates};
use crate::db::matchers::ElementAssigned;
use crate::db::perform_edit::{
    apply_edit_spec, apply_layer_edit_spec, carry_out, edit_many_elements_spec, element_plan, invalidate_updates,
    motion_plan, path_plan, path_vector_layer_spec, perform_edit_spec, planned, then_invalidate, Plan,
    edit_vector_layer_spec,
};
use crate::db::relation::lemma_find_match;
use crate::db::step::{run, step, Machine};
use crate::laws::sound::lemma_step_sound;
use crate::laws::strokes::{element_ids_sound, lemma_new_element};
use crate::laws::symbolic::{lemma_run_2, lemma_run_3, lemma_run_concat};

verus! {

/// True if no instruction of the batch attaches anything.
pub open spec fn attaches_nothing(updates: Seq<UpdateView>) -> bool {
    forall|i: int| 0 <= i < updates.len() ==> !(#[trigger] updates[i] is PushAttachElements)
}

/// Two batches that attach nothing make a batch that attaches nothing.
proof fn lemma_nothing_concat(a: Seq<UpdateView>, b: Seq<UpdateView>)
    requires
        attaches_nothing(a),
        attaches_nothing(b),
    ensures
        attaches_nothing(a + b),
{
    assert forall|i: int| 0 <= i < (a + b).len() implies !(#[trigger] (a + b)[i] is PushAttachElements) by {
        if i < a.len() {
            assert((a + b)[i] == a[i]);
        } else {
            assert((a + b)[i] == b[i - a.len()]);
        }
    }
}

/// A batch that attaches nothing keeps the ids of the elements in order, and
/// does not lower the id that the next element gets.
pub proof fn lemma_run_sound(m: Machine, updates: Seq<UpdateView>)
    requires
        element_ids_sound(m.tables),
        attaches_nothing(updates),
        run(m, updates) is Ok,
    ensures
        element_ids_sound(run(m, updates).unwrap().tables),
        m.tables.next_id <= run(m, updates).unwrap().tables.next_id,
    decreases updates.len(),
{
    if updates.len() > 0 {
        let rest = updates.drop_last();
        assert forall|i: int| 0 <= i < rest.len() implies !(#[trigger] rest[i] is PushAttachElements) by {
            assert(rest[i] == updates[i]);
        }
        lemma_run_sound(m, rest);
        assert(!(updates[updates.len() - 1] is PushAttachElements));
        lemma_step_sound(run(m, rest).unwrap(), updates.last());
    }
}

/// The instructions that make an element leave it on the stack, and its id is
/// older than the id that the next element gets.
proof fn lemma_new_element_on_top(
    x: Machine,
    layer_id: i64,
    when: TimeMicros,
    id: ElementId,
    element_type: VectorElementType,
)
    requires
        run(x, new_element_updates(layer_id, when, id, element_type)) is Ok,
    ensures
        ({
            let y = run(x, new_element_updates(layer_id, when, id, element_type)).unwrap();
            &&& y.stack.len() >= 1
            &&& y.stack.last() < y.tables.next_id
        }),
{
    match id {
        ElementId::Assigned(assigned) => {
            lemma_new_element(x, layer_id, when, element_type, assigned);
        },
        ElementId::Unassigned => {
            reveal(step);
            let u0 = UpdateView::PushLayerId(layer_id);
            let u1 = UpdateView::PushNearestKeyFrame(when);
            let u2 = UpdateView::PushVectorElementType(element_type);
            let u3 = UpdateView::PushVectorElementTime(when);
            assert(new_element_updates(layer_id, when, id, element_type) =~= seq![u0, u1, u2].push(u3));
            lemma_run_3(x, u0, u1, u2);
            lemma_run_push(x, seq![u0, u1, u2], u3);
            let m1 = step(x, u0).unwrap();
            let m2 = step(m1, u1).unwrap();
            let m3 = step(m2, u2).unwrap();
            assert(m3.peek(0) == x.tables.next_id);
            assert(m3.popped(0) =~= m3.stack);
            let m4 = step(m3, u3).unwrap();
            assert(m4.stack.last() == x.tables.next_id);
        },
    }
}

/// The instructions that attach what a layer has selected to the element on
/// the stack keep the ids of the elements in order, if the id of that element
/// is older than the id that the next element gets.
proof fn lemma_attach_selected_sound(m: Machine, attach: Option<AttachProperties>)
    requires
        element_ids_sound(m.tables),
        m.stack.len() >= 1,
        m.stack.last() < m.tables.next_id,
        run(m, attach_updates(attach)) is Ok,
    ensures
        element_ids_sound(run(m, attach_updates(attach)).unwrap().tables),
        m.tables.next_id <= run(m, attach_updates(attach)).unwrap().tables.next_id,
{
    let updates = attach_updates(attach);
    if updates.len() == 2 {
        assert(updates =~= seq![updates[0], updates[1]]);
        lemma_run_2(m, updates[0], updates[1]);
        lemma_step_sound(m, updates[0]);
        let m1 = step(m, updates[0]).unwrap();
        assert(m1.peek(1) == m.stack.last() && m1.tables == m.tables) by {
            reveal(step);
        }
        lemma_step_sound(m1, updates[1]);
    } else if updates.len() == 3 {
        assert(updates =~= seq![updates[0], updates[1], updates[2]]);
        lemma_run_3(m, updates[0], updates[1], updates[2]);
        lemma_step_sound(m, updates[0]);
        let m1 = step(m, updates[0]).unwrap();
        lemma_step_sound(m1, updates[1]);
        let m2 = step(m1, updates[1]).unwrap();
        assert(m2.peek(2) == m.stack.last() && m2.tables == m.tables) by {
            reveal(step);
        }
        lemma_step_sound(m2, updates[2]);
    } else {
        assert(updates =~= Seq::<UpdateView>::empty());
    }
}

/// The instructions of a brush stroke keep the ids of the elements in order.
proof fn lemma_stroke_sound<B: Brush>(
    brushes: B,
    c: CoreView,
    x: Machine,
    layer_id: i64,
    when: TimeMicros,
    edit: PaintEditView,
)
    requires
        edit is BrushStroke,
        element_ids_sound(x.tables),
        run(x, paint_updates(brushes, c, layer_id, when, edit)) is Ok,
    ensures
        element_ids_sound(run(x, paint_updates(brushes, c, layer_id, when, edit)).unwrap().tables),
{
    let id = edit->BrushStroke_0;
    let raw = edit->BrushStroke_1;
    let attach = if c.book.brush_properties.contains_key(layer_id) {
        Some(c.book.brush_properties[layer_id])
    } else {
        None
    };
    let made = new_element_updates(layer_id, when, id, VectorElementType::BrushStroke);
    let attached = attach_updates(attach);
    let end = stroke_updates(brushes, active_brush(c, layer_id, when), raw) + seq![
        UpdateView::Pop,
        UpdateView::Pop,
    ];
    assert(paint_updates(brushes, c, layer_id, when, edit) =~= (made + attached) + end);
    lemma_run_concat(x, made + attached, end);
    lemma_run_concat(x, made, attached);
    lemma_run_sound(x, made);
    lemma_new_element_on_top(x, layer_id, when, id, VectorElementType::BrushStroke);
    let m1 = run(x, made).unwrap();
    lemma_attach_selected_sound(m1, attach);
    let m2 = run(m1, attached).unwrap();
    lemma_run_sound(m2, end);
}

/// The instructions that attach an element to another keep the ids of the
/// elements in order.
proof fn lemma_add_attachment_sound(x: Machine, assigned: i64, attached: i64)
    requires
        element_ids_sound(x.tables),
        run(
            x,
            seq![
                UpdateView::PushElementIdForAssignedId(assigned),
                UpdateView::PushElementIdForAssignedId(attached),
                UpdateView::PushAttachElements(1),
                UpdateView::Pop,
            ],
        ) is Ok,
    ensures
        element_ids_sound(
            run(
                x,
                seq![
                    UpdateView::PushElementIdForAssignedId(assigned),
                    UpdateView::PushElementIdForAssignedId(attached),
                    UpdateView::PushAttachElements(1),
                    UpdateView::Pop,
                ],
            ).unwrap().tables,
        ),
{
    let u0 = UpdateView::PushElementIdForAssignedId(assigned);
    let u1 = UpdateView::PushElementIdForAssignedId(attached);
    let u2 = UpdateView::PushAttachElements(1);
    let u3 = UpdateView::Pop;
    assert(seq![u0, u1, u2, u3] =~= seq![u0, u1, u2].push(u3));
    lemma_run_3(x, u0, u1, u2);
    lemma_run_push(x, seq![u0, u1, u2], u3);
    lemma_find_match(x.tables.elements, ElementAssigned(assigned));
    let m1 = step(x, u0).unwrap();
    let m2 = step(m1, u1).unwrap();
    assert(m2.peek(1) < x.tables.next_id && m2.tables == x.tables) by {
        reveal(step);
    }
    lemma_step_sound(m2, u2);
    lemma_step_sound(step(m2, u2).unwrap(), u3);
}

/// True if the ids of the elements are in order, in the tables of the store
/// and in the tables that a failure takes it back to.
pub open spec fn store_sound(s: StoreView) -> bool {
    &&& element_ids_sound(s.tables())
    &&& s.saved matches Some(saved) ==> element_ids_sound(saved)
}

/// A batch that attaches nothing keeps the ids of the elements in order,
/// whether it fails or not.
proof fn lemma_submit_sound(c: CoreView, updates: Seq<UpdateView>)
    requires
        store_sound(c.store),
        attaches_nothing(updates),
    ensures
        store_sound(submit(c, updates).0.store),
{
    reveal(StoreView::updated);
    if run(c.store.machine, updates) is Ok {
        lemma_run_sound(c.store.machine, updates);
    }
}

/// A plan that attaches nothing keeps the ids of the elements in order.
proof fn lemma_carry_out_sound(c: CoreView, plan: Plan)
    requires
        store_sound(c.store),
        attaches_nothing(planned(plan)),
    ensures
        store_sound(carry_out(c, plan).0.store),
{
    match plan {
        Plan::Run(updates) => {
            lemma_submit_sound(c, updates);
        },
        _ => {},
    }
}

/// Forgetting what is cached keeps the ids of the elements in order.
proof fn lemma_invalidate_sound(before: (CoreView, Result<EditOutcome, StoreError>), layer_id: i64, when: TimeMicros)
    requires
        store_sound(before.0.store),
    ensures
        store_sound(then_invalidate(before, layer_id, when).0.store),
{
    if before.1 is Ok {
        lemma_submit_sound(before.0, invalidate_updates(layer_id, when));
    }
}

/// A paint edit keeps the ids of the elements in order.
proof fn lemma_paint_sound<B: Brush>(brushes: B, c: CoreView, layer_id: i64, when: TimeMicros, edit: PaintEditView)
    requires
        store_sound(c.store),
    ensures
        store_sound(paint_vector_layer_spec(brushes, c, layer_id, when, edit).0.store),
{
    match edit {
        PaintEditView::SelectBrush(id, definition, style) => {
            lemma_nothing_concat(
                unattached_element_updates(VectorElementType::BrushDefinition, id),
                brush_definition_element_updates(definition, style),
            );
            lemma_submit_sound(c, paint_updates(brushes, c, layer_id, when, edit));
        },
        PaintEditView::BrushProperties(id, properties) => {
            lemma_nothing_concat(
                unattached_element_updates(VectorElementType::BrushProperties, id),
                brush_properties_element_updates(properties),
            );
            lemma_submit_sound(c, paint_updates(brushes, c, layer_id, when, edit));
        },
        PaintEditView::BrushStroke(_, _) => {
            reveal(StoreView::updated);
            if run(c.store.machine, paint_updates(brushes, c, layer_id, when, edit)) is Ok {
                lemma_stroke_sound(brushes, c, c.store.machine, layer_id, when, edit);
            }
        },
    }
}

/// An edit of a path keeps the ids of the elements in order.
proof fn lemma_path_sound(c: CoreView, layer_id: i64, when: TimeMicros, edit: PathEditView)
    requires
        store_sound(c.store),
    ensures
        store_sound(path_vector_layer_spec(c, layer_id, when, edit).0.store),
{
    match edit {
        PathEditView::CreatePath(id, components) => {
            match path_plan(c, layer_id, when, edit) {
                Plan::Run(updates) => {
                    let made = new_element_updates(layer_id, when, id, VectorElementType::Path);
                    let rest = updates.skip(made.len() as int);
                    assert(updates =~= made + rest);
                    assert(attaches_nothing(rest));
                    lemma_nothing_concat(made, rest);
                },
                _ => {},
            }
        },
        PathEditView::SelectBrush(id, definition, style) => {
            lemma_nothing_concat(
                unattached_element_updates(VectorElementType::BrushDefinition, id),
                brush_definition_element_updates(definition, style),
            );
        },
        PathEditView::BrushProperties(id, properties) => {
            lemma_nothing_concat(
                unattached_element_updates(VectorElementType::BrushProperties, id),
                brush_properties_element_updates(properties),
            );
        },
    }
    lemma_carry_out_sound(c, path_plan(c, layer_id, when, edit));
}

/// An edit to a layer keeps the ids of the elements in order.
proof fn lemma_layer_sound<B: Brush>(brushes: B, c: CoreView, layer_id: i64, edit: LayerEditView)
    requires
        store_sound(c.store),
    ensures
        store_sound(apply_layer_edit_spec(brushes, c, layer_id, edit).0.store),
{
    match edit {
        LayerEditView::AddKeyFrame(when) => {
            let plan = Plan::Run(seq![UpdateView::PushLayerId(layer_id), UpdateView::PopAddKeyFrame(when)]);
            lemma_carry_out_sound(c, plan);
            lemma_invalidate_sound(carry_out(c, plan), layer_id, when);
        },
        LayerEditView::RemoveKeyFrame(when) => {
            let plan = Plan::Run(seq![UpdateView::PushLayerId(layer_id), UpdateView::PopRemoveKeyFrame(when)]);
            lemma_carry_out_sound(c, plan);
            lemma_invalidate_sound(carry_out(c, plan), layer_id, when);
        },
        LayerEditView::Paint(when, paint) => {
            lemma_paint_sound(brushes, c, layer_id, when, paint);
            lemma_invalidate_sound(paint_vector_layer_spec(brushes, c, layer_id, when, paint), layer_id, when);
        },
        LayerEditView::Path(when, path) => {
            lemma_path_sound(c, layer_id, when, path);
            lemma_invalidate_sound(path_vector_layer_spec(c, layer_id, when, path), layer_id, when);
        },
        LayerEditView::SetName(name) => {
            lemma_carry_out_sound(
                c,
                Plan::Run(seq![UpdateView::PushLayerId(layer_id), UpdateView::PopLayerName(name)]),
            );
        },
        LayerEditView::SetOrdering(_) => {},
    }
}

/// An edit to one element keeps the ids of the elements in order.
proof fn lemma_element_sound(c: CoreView, id: ElementId, edit: ElementEditView)
    requires
        store_sound(c.store),
    ensures
        store_sound(carry_out(c, element_plan(c.store.tables(), id, edit)).0.store),
{
    let plan = element_plan(c.store.tables(), id, edit);
    match (plan, edit) {
        (Plan::Run(updates), ElementEditView::AddAttachment(ElementId::Assigned(attached))) => {
            reveal(StoreView::updated);
            if run(c.store.machine, updates) is Ok {
                lemma_add_attachment_sound(c.store.machine, id->Assigned_0, attached);
            }
        },
        _ => {
            lemma_carry_out_sound(c, plan);
        },
    }
}

/// An edit to elements keeps the ids of the elements in order.
proof fn lemma_many_elements_sound(c: CoreView, ids: Seq<ElementId>, edit: ElementEditView)
    requires
        store_sound(c.store),
    ensures
        store_sound(edit_many_elements_spec(c, ids, edit).0.store),
    decreases ids.len(),
{
    if ids.len() > 0 {
        lemma_many_elements_sound(c, ids.drop_last(), edit);
        let before = edit_many_elements_spec(c, ids.drop_last(), edit);
        if before.1 is Ok {
            lemma_element_sound(before.0, ids.last(), edit);
        }
    }
}

/// Carrying out an edit keeps the ids of the elements in order.
pub proof fn lemma_apply_edit_sound<B: Brush>(brushes: B, c: CoreView, edit: AnimationEditView)
    requires
        store_sound(c.store),
    ensures
        store_sound(apply_edit_spec(brushes, c, edit).0.store),
{
    match edit {
        AnimationEditView::Layer(assigned, layer_edit) => {
            lemma_layer_sound(
                brushes,
                crate::db::perform_edit::with_layer_id(c, assigned),
                crate::db::perform_edit::layer_id_of(c, assigned),
                layer_edit,
            );
        },
        AnimationEditView::Element(ids, element_edit) => {
            lemma_many_elements_sound(c, ids, element_edit);
        },
        AnimationEditView::Motion(id, motion_edit) => {
            lemma_carry_out_sound(c, motion_plan(id, motion_edit));
        },
        AnimationEditView::SetSize(width, height) => {
            lemma_carry_out_sound(c, Plan::Run(seq![UpdateView::UpdateCanvasSize(width, height)]));
        },
        AnimationEditView::AddNewLayer(layer) => {
            lemma_carry_out_sound(
                c,
                Plan::Run(
                    seq![
                        UpdateView::PushLayerType(crate::db::db_enum::LayerType::Vector),
                        UpdateView::PushAssignLayer(layer),
                        UpdateView::Pop,
                    ],
                ),
            );
        },
        AnimationEditView::RemoveLayer(layer) => {
            lemma_carry_out_sound(
                c,
                Plan::Run(seq![UpdateView::PushLayerForAssignedId(layer), UpdateView::PopDeleteLayer]),
            );
        },
    }
}

/// The ids of the elements stay in order. Whatever edit is performed, and
/// whether it fails or not, no two elements have the same id afterwards,
/// every element has an id older than the one that the next element gets, and
/// nothing is attached to an id that is not older, if that was so before. It
/// is so in a store that holds nothing.
pub proof fn lemma_edit_keeps_ids_in_order<B: Brush>(
    brushes: B,
    c: CoreView,
    edit: AnimationEditView,
    layer_id: i64,
    layer_edit: LayerEditView,
)
    requires
        store_sound(c.store),
    ensures
        store_sound(perform_edit_spec(brushes, c, edit).0.store),
        store_sound(edit_vector_layer_spec(brushes, c, layer_id, layer_edit).0.store),
        store_sound(StoreView::empty()),
{
    lemma_apply_edit_sound(brushes, c, edit);
    lemma_layer_sound(brushes, c, layer_id, layer_edit);
}

/// Caching a value for a layer and forgetting one keep the ids of the elements
/// in order.
pub proof fn lemma_caching_keeps_ids_in_order(
    c: CoreView,
    cache_type: CacheType,
    layer_id: i64,
    when: TimeMicros,
    value: Seq<char>,
)
    requires
        store_sound(c.store),
    ensures
        store_sound(submit(c, store_cache_updates(cache_type, layer_id, when, value)).0.store),
        store_sound(submit(c, delete_cache_updates(cache_type, layer_id, when)).0.store),
{
    lemma_submit_sound(c, store_cache_updates(cache_type, layer_id, when, value));
    lemma_submit_sound(c, delete_cache_updates(cache_type, layer_id, when));
}

/// The instructions that record a paint edit or an edit of a path attach
/// nothing.
proof fn lemma_paint_log_attaches_nothing(paint: PaintEditView, path: PathEditView)
    ensures
        attaches_nothing(paint_log_updates(paint)),
        attaches_nothing(path_log_updates(path)),
{
    match paint {
        PaintEditView::SelectBrush(id, definition, style) => {
            lemma_nothing_concat(element_id_log_updates(id), brush_updates(definition));
            lemma_nothing_concat(
                element_id_log_updates(id) + brush_updates(definition),
                seq![UpdateView::PopEditLogBrush(crate::db::db_enum::drawing_style_type(style))],
            );
        },
        PaintEditView::BrushProperties(id, properties) => {
            lemma_nothing_concat(element_id_log_updates(id), brush_properties_updates(properties));
            lemma_nothing_concat(
                element_id_log_updates(id) + brush_properties_updates(properties),
                seq![UpdateView::PopEditLogBrushProperties],
            );
        },
        PaintEditView::BrushStroke(id, points) => {
            lemma_nothing_concat(
                element_id_log_updates(id),
                seq![UpdateView::PushRawPoints(points), UpdateView::Pop],
            );
        },
    }
    match path {
        PathEditView::SelectBrush(id, definition, style) => {
            lemma_nothing_concat(element_id_log_updates(id), brush_updates(definition));
            lemma_nothing_concat(
                element_id_log_updates(id) + brush_updates(definition),
                seq![UpdateView::PopEditLogBrush(crate::db::db_enum::drawing_style_type(style))],
            );
        },
        PathEditView::BrushProperties(id, properties) => {
            lemma_nothing_concat(element_id_log_updates(id), brush_properties_updates(properties));
            lemma_nothing_concat(
                element_id_log_updates(id) + brush_properties_updates(properties),
                seq![UpdateView::PopEditLogBrushProperties],
            );
        },
        PathEditView::CreatePath(id, components) => {
            lemma_nothing_concat(
                element_id_log_updates(id),
                seq![UpdateView::PushPathComponents(components), UpdateView::PushEditLogPath, UpdateView::Pop],
            );
        },
    }
}

/// The instructions that write an edit to the edit log attach nothing.
proof fn lemma_log_attaches_nothing(edit: AnimationEditView)
    ensures
        attaches_nothing(edit_log_updates(edit)),
{
    let first = seq![UpdateView::PushEditType(crate::db::db_enum::edit_log_type(edit))];
    match edit {
        AnimationEditView::Layer(layer, layer_edit) => {
            match layer_edit {
                LayerEditView::Paint(when, paint) => {
                    lemma_paint_log_attaches_nothing(
                        paint,
                        PathEditView::CreatePath(ElementId::Unassigned, Seq::empty()),
                    );
                    lemma_nothing_concat(seq![UpdateView::PushEditLogWhen(when)], paint_log_updates(paint));
                },
                LayerEditView::Path(when, path) => {
                    lemma_paint_log_attaches_nothing(
                        PaintEditView::BrushStroke(ElementId::Unassigned, Seq::empty()),
                        path,
                    );
                    lemma_nothing_concat(seq![UpdateView::PushEditLogWhen(when)], path_log_updates(path));
                },
                _ => {},
            }
            lemma_nothing_concat(seq![UpdateView::PushEditLogLayer(layer)], layer_log_updates(layer_edit));
        },
        AnimationEditView::Element(ids, ElementEditView::AddAttachment(attached)) => {
            lemma_nothing_concat(element_id_list_updates(seq![attached] + ids), seq![UpdateView::Pop]);
        },
        AnimationEditView::Element(ids, ElementEditView::RemoveAttachment(attached)) => {
            lemma_nothing_concat(element_id_list_updates(seq![attached] + ids), seq![UpdateView::Pop]);
        },
        AnimationEditView::Element(ids, element_edit) => {
            lemma_nothing_concat(element_id_list_updates(ids), element_log_updates(element_edit));
        },
        AnimationEditView::Motion(id, motion_edit) => {
            match motion_edit {
                MotionEditView::SetPath(curve) => {
                    lemma_nothing_concat(
                        crate::db::perform_edit::time_point_updates(crate::db::points::curve_points(curve)),
                        seq![
                            UpdateView::PushEditLogMotionPath((3 * curve.len()) as usize),
                            UpdateView::Pop,
                        ],
                    );
                },
                _ => {},
            }
            lemma_nothing_concat(element_id_log_updates(id), motion_log_updates(motion_edit));
        },
        _ => {},
    }
    lemma_nothing_concat(first, animation_edit_log_updates(edit));
}

/// The instructions that write edits to the edit log attach nothing.
proof fn lemma_logs_attach_nothing(edits: Seq<AnimationEditView>)
    ensures
        attaches_nothing(edits_log_updates(edits)),
    decreases edits.len(),
{
    if edits.len() > 0 {
        lemma_logs_attach_nothing(edits.drop_last());
        lemma_log_attaches_nothing(edits.last());
        lemma_nothing_concat(edits_log_updates(edits.drop_last()), edit_log_updates(edits.last()));
    }
}

/// Carrying out edits in turn keeps the ids of the elements in order.
proof fn lemma_perform_all_sound<B: Brush>(brushes: B, c: CoreView, edits: Seq<AnimationEditView>)
    requires
        store_sound(c.store),
    ensures
        store_sound(perform_all_spec(brushes, c, edits).0.store),
    decreases edits.len(),
{
    if edits.len() > 0 {
        lemma_perform_all_sound(brushes, c, edits.drop_last());
        let before = perform_all_spec(brushes, c, edits.drop_last());
        if before.1 is Ok {
            lemma_apply_edit_sound(brushes, before.0, edits.last());
        }
    }
}

/// The ids of the elements stay in order through batches. Whatever batch of
/// edits is performed, replayed, or written to the edit log, and whether it
/// fails or not, the ids of the elements are in order afterwards if they
/// were before.
pub proof fn lemma_batch_keeps_ids_in_order<B: Brush>(brushes: B, c: CoreView, edits: Seq<AnimationEditView>)
    requires
        store_sound(c.store),
    ensures
        store_sound(perform_edits_spec(brushes, c, edits).0.store),
        store_sound(replay_edits_spec(brushes, c, edits).0.store),
        store_sound(insert_edits_spec(c, edits).0.store),
{
    lemma_logs_attach_nothing(edits);
    lemma_submit_sound(c, edits_log_updates(edits));
    if c.failure is None && !(count_wanted(edits) > i64::MAX || c.next_element_id + count_wanted(edits)
        > i64::MAX) {
        let assigned = with_element_ids(edits, c.next_element_id as int);
        let start = CoreView {
            store: c.store.queuing(),
            next_element_id: (c.next_element_id + count_wanted(edits)) as i64,
            ..c
        };
        lemma_logs_attach_nothing(assigned);
        lemma_submit_sound(start, edits_log_updates(assigned));
        let logged = submit(start, edits_log_updates(assigned));
        if logged.1 is Ok {
            lemma_perform_all_sound(brushes, logged.0, assigned);
        }
    }
}

} // verus!
