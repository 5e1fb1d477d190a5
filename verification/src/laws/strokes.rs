//! A brush stroke is drawn with what its layer had selected when it was made.

use vstd::prelude::*;
use crate::animation::brush::{RawPoint, TimeMicros};
use crate::animation::brushes::Brush;
use crate::animation::cache_type::CacheType;
use crate::animation::edit::LayerEditView;
use crate::animation::edit::PaintEditView;
use crate::animation::element_id::ElementId;
use crate::animation::vector::VectorProperties;
use crate::db::animation_core::{
    active_brush, attach_updates, new_element_updates, paint_updates, paint_vector_layer_spec, stroke_updates,
    AttachProperties, CoreView, EditOutcome,
};
use crate::db::db_enum::{drawing_style_of, VectorElementType};
use crate::db::engine_run::lemma_run_push;
use crate::db::error::StoreError;
use crate::db::flo_file::StoreView;
use crate::db::flo_query::attached_ids;
use crate::db::flo_query::visible_elements;
use crate::db::flo_store::UpdateView;
use crate::db::matchers::ElementAssigned;
use crate::db::perform_edit::{edit_vector_layer_spec, then_invalidate};
use crate::db::relation::{find_key, find_match, lemma_find_key, lemma_find_match};
use crate::db::rows::{AttachRow, ElementDetail, ElementRow, FrameRef, TablesView};
use crate::db::step::{attach_rows, nearest_key_frame, run, step, Machine};
use crate::db::vector_frame::FrameElement;
use crate::db::vector_frame::lemma_attached_properties;
use crate::laws::symbolic::lemma_run_2;
use crate::laws::symbolic::{lemma_run_3, lemma_run_concat};

verus! {

/// True if the ids of the elements are in order: no two elements have the same
/// id, every element has an id older than the one that the next element gets,
/// and nothing is attached to an id that is not older.
pub open spec fn element_ids_sound(t: TablesView) -> bool {
    &&& forall|i: int| 0 <= i < t.elements.len() ==> (#[trigger] t.elements[i]).id < t.next_id
    &&& forall|i: int, j: int|
        0 <= i < j < t.elements.len() ==> (#[trigger] t.elements[i]).id != (#[trigger] t.elements[j]).id
    &&& forall|i: int| 0 <= i < t.attachments.len() ==> (#[trigger] t.attachments[i]).element < t.next_id
}

/// What was selected for the brush strokes of a layer: a brush definition and
/// brush properties, by their assigned ids.
pub open spec fn selected(c: CoreView, layer_id: i64, d: i64, p: i64) -> bool {
    &&& c.book.brush_properties.contains_key(layer_id)
    &&& c.book.brush_properties[layer_id] == (AttachProperties {
        brush_definition: Some(ElementId::Assigned(d)),
        brush_properties: Some(ElementId::Assigned(p)),
    })
}

/// Where the ids of the elements are in order, an element that is found by its
/// assigned id is found by its own id too.
pub proof fn lemma_found_by_id(t: TablesView, assigned: i64)
    requires
        element_ids_sound(t),
        t.element_for_assigned(assigned) is Some,
    ensures
        t.element(t.element_for_assigned(assigned).unwrap().id) == t.element_for_assigned(assigned),
        t.element_for_assigned(assigned).unwrap().id < t.next_id,
{
    lemma_find_match(t.elements, ElementAssigned(assigned));
    lemma_find_key(t.elements, t.element_for_assigned(assigned).unwrap().id);
}

/// The element that is made in the nearest key frame of a layer, before it is
/// given what it holds.
pub open spec fn new_element(
    t: TablesView,
    layer_id: i64,
    when: TimeMicros,
    element_type: VectorElementType,
    assigned: i64,
) -> ElementRow {
    ElementRow {
        id: t.next_id,
        element_type,
        assigned: Some(assigned),
        frame: Some(
            FrameRef {
                key_frame: t.key_frames[nearest_key_frame(t.key_frames, layer_id, when).unwrap()].id,
                when,
            },
        ),
        detail: ElementDetail::Empty,
    }
}

/// Nothing is attached to an id that no attachment names.
proof fn lemma_nothing_attached(rows: Seq<AttachRow>, element: i64)
    requires
        forall|i: int| 0 <= i < rows.len() ==> (#[trigger] rows[i]).element != element,
    ensures
        attached_ids(rows, element) == Seq::<i64>::empty(),
    decreases rows.len(),
{
    if rows.len() > 0 {
        assert(rows.last() == rows[rows.len() - 1]);
        assert forall|i: int| 0 <= i < rows.drop_last().len() implies (#[trigger] rows.drop_last()[i]).element
            != element by {
            assert(rows.drop_last()[i] == rows[i]);
        }
        lemma_nothing_attached(rows.drop_last(), element);
    }
}

/// The instructions that make an element in a key frame leave it on the stack,
/// above the start of the key frame and the key frame, the newest of the
/// elements.
pub proof fn lemma_new_element(
    x: Machine,
    layer_id: i64,
    when: TimeMicros,
    element_type: VectorElementType,
    assigned: i64,
)
    requires
        run(x, new_element_updates(layer_id, when, ElementId::Assigned(assigned), element_type)) is Ok,
    ensures
        ({
            let y = run(x, new_element_updates(layer_id, when, ElementId::Assigned(assigned), element_type)).unwrap();
            &&& nearest_key_frame(x.tables.key_frames, layer_id, when) is Some
            &&& x.tables.next_id < i64::MAX
            &&& y.stack.len() == x.stack.len() + 3
            &&& y.stack.take(x.stack.len() as int) == x.stack
            &&& y.stack.last() == x.tables.next_id
            &&& y.tables == (TablesView {
                next_id: (x.tables.next_id + 1) as i64,
                elements: x.tables.elements.push(new_element(x.tables, layer_id, when, element_type, assigned)),
                ..x.tables
            })
        }),
{
    reveal(step);
    let u0 = UpdateView::PushLayerId(layer_id);
    let u1 = UpdateView::PushNearestKeyFrame(when);
    let u2 = UpdateView::PushVectorElementType(element_type);
    let u3 = UpdateView::PushVectorElementTime(when);
    let u4 = UpdateView::PushElementAssignId(assigned);
    let updates = new_element_updates(layer_id, when, ElementId::Assigned(assigned), element_type);
    assert(updates =~= seq![u0, u1, u2].push(u3).push(u4));
    lemma_run_3(x, u0, u1, u2);
    lemma_run_push(x, seq![u0, u1, u2], u3);
    lemma_run_push(x, seq![u0, u1, u2].push(u3), u4);
    let m1 = step(x, u0).unwrap();
    assert(m1.peek(0) == layer_id);
    assert(m1.popped(1) =~= x.stack);
    let m2 = step(m1, u1).unwrap();
    let m3 = step(m2, u2).unwrap();
    assert(m3.peek(0) == x.tables.next_id);
    assert(m3.popped(0) =~= m3.stack);
    let m4 = step(m3, u3).unwrap();
    assert(m4.peek(0) == x.tables.next_id);
    assert(m4.popped(0) =~= m4.stack);
    let m5 = step(m4, u4).unwrap();
    assert(m5.stack.take(x.stack.len() as int) =~= x.stack);
    assert(m5.tables.elements =~= x.tables.elements.push(
        new_element(x.tables, layer_id, when, element_type, assigned),
    ));
}

/// The instructions that attach two elements, found by their assigned ids, to
/// the element on the stack add the two attachments, in that order, and leave
/// the stack as it was.
proof fn lemma_attach_two(m: Machine, d: i64, p: i64)
    requires
        m.stack.len() >= 1,
        run(
            m,
            seq![
                UpdateView::PushElementIdForAssignedId(d),
                UpdateView::PushElementIdForAssignedId(p),
                UpdateView::PushAttachElements(2),
            ],
        ) is Ok,
    ensures
        ({
            let y = run(
                m,
                seq![
                    UpdateView::PushElementIdForAssignedId(d),
                    UpdateView::PushElementIdForAssignedId(p),
                    UpdateView::PushAttachElements(2),
                ],
            ).unwrap();
            &&& m.tables.element_for_assigned(d) is Some
            &&& m.tables.element_for_assigned(p) is Some
            &&& y.stack == m.stack
            &&& y.tables == (TablesView {
                attachments: m.tables.attachments.push(
                    AttachRow { element: m.stack.last(), attached: m.tables.element_for_assigned(d).unwrap().id },
                ).push(
                    AttachRow { element: m.stack.last(), attached: m.tables.element_for_assigned(p).unwrap().id },
                ),
                ..m.tables
            })
        }),
{
    reveal(step);
    let u0 = UpdateView::PushElementIdForAssignedId(d);
    let u1 = UpdateView::PushElementIdForAssignedId(p);
    let u2 = UpdateView::PushAttachElements(2);
    lemma_run_3(m, u0, u1, u2);
    let m1 = step(m, u0).unwrap();
    let m2 = step(m1, u1).unwrap();
    let y = step(m2, u2).unwrap();
    let first = m.tables.element_for_assigned(d).unwrap().id;
    let second = m.tables.element_for_assigned(p).unwrap().id;
    assert(m2.stack =~= m.stack.push(first).push(second));
    assert(m2.peek(2) == m.stack.last());
    assert(m2.top(2) =~= seq![first, second]);
    assert(m2.popped(2) =~= m.stack);
    assert(attach_rows(m.stack.last(), seq![first, second]) =~= seq![
        AttachRow { element: m.stack.last(), attached: first },
        AttachRow { element: m.stack.last(), attached: second },
    ]);
    assert(y.tables.attachments =~= m.tables.attachments.push(
        AttachRow { element: m.stack.last(), attached: first },
    ).push(AttachRow { element: m.stack.last(), attached: second }));
}

/// The instructions that end a brush stroke give the newest element, which is
/// on the stack, its points, or leave it as it is, and take it, the key frame
/// and the start of the key frame from the stack.
proof fn lemma_stroke_end(m: Machine, last: UpdateView)
    requires
        last is PopBrushPoints || last == UpdateView::Pop,
        m.stack.len() >= 3,
        m.tables.elements.len() > 0,
        m.stack.last() == m.tables.elements.last().id,
        run(m, seq![last, UpdateView::Pop, UpdateView::Pop]) is Ok,
    ensures
        ({
            let y = run(m, seq![last, UpdateView::Pop, UpdateView::Pop]).unwrap();
            &&& y.stack == m.stack.take(m.stack.len() - 3)
            &&& y.tables.attachments == m.tables.attachments
            &&& y.tables.next_id == m.tables.next_id
            &&& y.tables.elements.len() == m.tables.elements.len()
            &&& y.tables.elements.drop_last() == m.tables.elements.drop_last()
            &&& y.tables.elements.last() == (ElementRow {
                detail: y.tables.elements.last().detail,
                ..m.tables.elements.last()
            })
            &&& y.tables.elements.last().detail is BrushStroke || y.tables.elements.last().detail
                == m.tables.elements.last().detail
            &&& y.tables.key_frames == m.tables.key_frames
            &&& y.tables.layers == m.tables.layers
        }),
{
    reveal(step);
    lemma_run_3(m, last, UpdateView::Pop, UpdateView::Pop);
    assert(m.peek(0) == m.stack.last());
    assert(find_key(m.tables.elements, m.peek(0)) == Some(m.tables.elements.len() - 1));
    let m1 = step(m, last).unwrap();
    assert(m1.stack =~= m.stack.take(m.stack.len() - 1));
    let m2 = step(m1, UpdateView::Pop).unwrap();
    assert(m2.stack =~= m.stack.take(m.stack.len() - 2));
    let y = step(m2, UpdateView::Pop).unwrap();
    assert(y.stack =~= m.stack.take(m.stack.len() - 3));
    assert(y.tables.elements.drop_last() =~= m.tables.elements.drop_last());
}

/// The tables after a brush stroke with an assigned id was painted.
pub open spec fn after_stroke<B: Brush>(
    brushes: B,
    c: CoreView,
    layer_id: i64,
    when: TimeMicros,
    assigned: i64,
    raw: Seq<RawPoint>,
) -> TablesView {
    paint_vector_layer_spec(
        brushes,
        c,
        layer_id,
        when,
        PaintEditView::BrushStroke(ElementId::Assigned(assigned), raw),
    ).0.store.tables()
}

/// A brush stroke that is painted on a layer for which a brush definition and
/// brush properties were selected becomes the newest element, in the nearest
/// key frame of the layer, and exactly the two are attached to it: the brush
/// definition first, the brush properties after it. The ids of the elements
/// are in order afterwards as they were before.
pub proof fn lemma_stroke_attachments<B: Brush>(
    brushes: B,
    c: CoreView,
    layer_id: i64,
    when: TimeMicros,
    assigned: i64,
    raw: Seq<RawPoint>,
    d: i64,
    p: i64,
)
    requires
        selected(c, layer_id, d, p),
        assigned != d,
        assigned != p,
        element_ids_sound(c.store.tables()),
        paint_vector_layer_spec(
            brushes,
            c,
            layer_id,
            when,
            PaintEditView::BrushStroke(ElementId::Assigned(assigned), raw),
        ).1 is Ok,
    ensures
        ({
            let t = c.store.tables();
            let after = after_stroke(brushes, c, layer_id, when, assigned, raw);
            let stroke = after.elements.last();
            &&& t.element_for_assigned(d) is Some
            &&& t.element_for_assigned(p) is Some
            &&& nearest_key_frame(t.key_frames, layer_id, when) is Some
            &&& after.elements.len() == t.elements.len() + 1
            &&& after.elements.drop_last() == t.elements
            &&& stroke == (ElementRow {
                detail: stroke.detail,
                ..new_element(t, layer_id, when, VectorElementType::BrushStroke, assigned)
            })
            &&& stroke.detail is BrushStroke || stroke.detail is Empty
            &&& after.key_frames == t.key_frames
            &&& after.layers == t.layers
            &&& after.next_id == t.next_id + 1
            &&& after.element_for_assigned(assigned) == Some(stroke)
            &&& after.element_for_assigned(d) == t.element_for_assigned(d)
            &&& after.element_for_assigned(p) == t.element_for_assigned(p)
            &&& after.attachments == t.attachments.push(
                AttachRow { element: stroke.id, attached: t.element_for_assigned(d).unwrap().id },
            ).push(AttachRow { element: stroke.id, attached: t.element_for_assigned(p).unwrap().id })
            &&& attached_ids(after.attachments, stroke.id) == seq![
                t.element_for_assigned(d).unwrap().id,
                t.element_for_assigned(p).unwrap().id,
            ]
            &&& element_ids_sound(after)
        }),
{
    reveal(StoreView::updated);
    let x = c.store.machine;
    let t = x.tables;
    let edit = PaintEditView::BrushStroke(ElementId::Assigned(assigned), raw);
    let made = new_element_updates(layer_id, when, ElementId::Assigned(assigned), VectorElementType::BrushStroke);
    let attach = seq![
        UpdateView::PushElementIdForAssignedId(d),
        UpdateView::PushElementIdForAssignedId(p),
        UpdateView::PushAttachElements(2),
    ];
    let points = stroke_updates(brushes, active_brush(c, layer_id, when), raw);
    let last = points[0];
    let end = seq![last, UpdateView::Pop, UpdateView::Pop];
    assert(attach_updates(Some(c.book.brush_properties[layer_id])) =~= attach);
    assert(points + seq![UpdateView::Pop, UpdateView::Pop] =~= end);
    assert(paint_updates(brushes, c, layer_id, when, edit) =~= (made + attach) + end);
    lemma_run_concat(x, made + attach, end);
    lemma_run_concat(x, made, attach);
    lemma_new_element(x, layer_id, when, VectorElementType::BrushStroke, assigned);
    let m1 = run(x, made).unwrap();
    let fresh = new_element(t, layer_id, when, VectorElementType::BrushStroke, assigned);
    assert(m1.tables.elements.drop_last() =~= t.elements);
    assert(m1.tables.elements.last() == fresh);
    assert(find_match(m1.tables.elements, ElementAssigned(d)) == find_match(t.elements, ElementAssigned(d)));
    assert(find_match(m1.tables.elements, ElementAssigned(p)) == find_match(t.elements, ElementAssigned(p)));
    lemma_attach_two(m1, d, p);
    lemma_find_match(t.elements, ElementAssigned(d));
    lemma_find_match(t.elements, ElementAssigned(p));
    let first = t.element_for_assigned(d).unwrap().id;
    let second = t.element_for_assigned(p).unwrap().id;
    assert(m1.tables.element_for_assigned(d).unwrap().id == first);
    assert(m1.tables.element_for_assigned(p).unwrap().id == second);
    let m2 = run(m1, attach).unwrap();
    lemma_stroke_end(m2, last);
    let y = run(m2, end).unwrap();
    let after = after_stroke(brushes, c, layer_id, when, assigned, raw);
    assert(after == y.tables);
    let stroke = after.elements.last();
    assert(after.elements.drop_last() =~= t.elements);
    assert(find_match(after.elements, ElementAssigned(d)) == find_match(t.elements, ElementAssigned(d)));
    assert(find_match(after.elements, ElementAssigned(p)) == find_match(t.elements, ElementAssigned(p)));
    let one = AttachRow { element: t.next_id, attached: first };
    let two = AttachRow { element: t.next_id, attached: second };
    assert(after.attachments == t.attachments.push(one).push(two));
    lemma_nothing_attached(t.attachments, t.next_id);
    assert(after.attachments.drop_last() =~= t.attachments.push(one));
    assert(t.attachments.push(one).drop_last() =~= t.attachments);
    assert(attached_ids(t.attachments.push(one), t.next_id) =~= seq![first]);
    assert(attached_ids(after.attachments, t.next_id) =~= seq![first, second]);
    assert forall|i: int, j: int| 0 <= i < j < after.elements.len() implies (#[trigger] after.elements[i]).id != (
    #[trigger] after.elements[j]).id by {
        assert(after.elements[i] == after.elements.drop_last()[i]);
        if j < t.elements.len() {
            assert(after.elements[j] == after.elements.drop_last()[j]);
        } else {
            assert(after.elements[j] == stroke);
        }
    }
    assert forall|i: int| 0 <= i < after.elements.len() implies (#[trigger] after.elements[i]).id
        < after.next_id by {
        if i < t.elements.len() {
            assert(after.elements[i] == after.elements.drop_last()[i]);
        } else {
            assert(after.elements[i] == stroke);
        }
    }
    assert forall|i: int| 0 <= i < after.attachments.len() implies (#[trigger] after.attachments[i]).element
        < after.next_id by {
        if i < t.attachments.len() {
            assert(after.attachments[i] == t.attachments[i]);
        }
    }
}

/// Attachment round trip. A brush stroke that is painted on a layer for which
/// a brush definition and brush properties were selected is drawn with
/// exactly what the two hold: the brush and the drawing style of the brush
/// definition, and the brush properties.
pub proof fn lemma_stroke_properties<B: Brush>(
    brushes: B,
    c: CoreView,
    layer_id: i64,
    when: TimeMicros,
    assigned: i64,
    raw: Seq<RawPoint>,
    d: i64,
    p: i64,
)
    requires
        selected(c, layer_id, d, p),
        assigned != d,
        assigned != p,
        element_ids_sound(c.store.tables()),
        paint_vector_layer_spec(
            brushes,
            c,
            layer_id,
            when,
            PaintEditView::BrushStroke(ElementId::Assigned(assigned), raw),
        ).1 is Ok,
        c.store.tables().element_for_assigned(d) matches Some(row) && row.detail is BrushDefinition,
        c.store.tables().element_for_assigned(p) matches Some(row) && row.detail is BrushProperties,
    ensures
        ({
            let t = c.store.tables();
            let after = after_stroke(brushes, c, layer_id, when, assigned, raw);
            let definition = t.element_for_assigned(d).unwrap().detail;
            let properties = t.element_for_assigned(p).unwrap().detail;
            after.resolved_properties(after.elements.last()) == (VectorProperties {
                brush: definition->BrushDefinition_0,
                drawing_style: drawing_style_of(definition->BrushDefinition_1),
                brush_properties: properties->BrushProperties_0,
            })
        }),
{
    let t = c.store.tables();
    let after = after_stroke(brushes, c, layer_id, when, assigned, raw);
    lemma_stroke_attachments(brushes, c, layer_id, when, assigned, raw, d, p);
    lemma_found_by_id(after, d);
    lemma_found_by_id(after, p);
    lemma_attached_properties(
        after,
        after.elements.last(),
        t.element_for_assigned(d).unwrap(),
        t.element_for_assigned(p).unwrap(),
    );
}

/// What is attached to an element is not changed by attaching to another.
proof fn lemma_attached_elsewhere(rows: Seq<AttachRow>, one: AttachRow, two: AttachRow, element: i64)
    requires
        one.element != element,
        two.element != element,
    ensures
        attached_ids(rows.push(one).push(two), element) == attached_ids(rows, element),
{
    assert(rows.push(one).push(two).drop_last() =~= rows.push(one));
    assert(rows.push(one).drop_last() =~= rows);
    assert(attached_ids(rows.push(one), element) == attached_ids(rows, element));
    assert(attached_ids(rows.push(one).push(two), element) == attached_ids(rows.push(one), element));
}

/// What shows of a key frame is among its elements.
pub proof fn lemma_visible_is_element(rows: Seq<ElementRow>, key_frame: i64, until: TimeMicros, i: int)
    requires
        0 <= i < visible_elements(rows, key_frame, until).len(),
    ensures
        exists|j: int| 0 <= j < rows.len() && rows[j] == visible_elements(rows, key_frame, until)[i],
    decreases rows.len(),
{
    if rows.len() > 0 {
        let rest = visible_elements(rows.drop_last(), key_frame, until);
        if i < rest.len() {
            lemma_visible_is_element(rows.drop_last(), key_frame, until, i);
            let j = choose|j: int| 0 <= j < rows.drop_last().len() && rows.drop_last()[j] == rest[i];
            assert(rows[j] == visible_elements(rows, key_frame, until)[i]);
        } else {
            assert(rows[rows.len() - 1] == visible_elements(rows, key_frame, until)[i]);
        }
    }
}

/// A new element that is neither a brush definition nor brush properties
/// changes nothing about the properties that elements give.
proof fn lemma_properties_after_push(
    t: TablesView,
    after: TablesView,
    stroke: ElementRow,
    ids: Seq<i64>,
    properties: VectorProperties,
)
    requires
        after.elements == t.elements.push(stroke),
        t.element(stroke.id) is None,
        stroke.detail is BrushStroke || stroke.detail is Empty,
    ensures
        after.properties_from(ids, properties) == t.properties_from(ids, properties),
    decreases ids.len(),
{
    if ids.len() > 0 {
        lemma_properties_after_push(t, after, stroke, ids.drop_last(), properties);
        let id = ids.last();
        assert(after.elements.drop_last() =~= t.elements);
        assert(after.elements.last() == stroke);
        if stroke.id == id {
            assert(find_key(after.elements, id) == Some(after.elements.len() - 1));
        } else {
            assert(find_key(after.elements, id) == find_key(t.elements, id));
            lemma_find_key(t.elements, id);
            if find_key(t.elements, id) is Some {
                assert(after.elements[find_key(t.elements, id).unwrap()] == t.elements[find_key(
                    t.elements,
                    id,
                ).unwrap()]);
            }
        }
    }
}

/// The properties that elements give depend on the elements alone.
proof fn lemma_properties_from_elements(a: TablesView, b: TablesView, ids: Seq<i64>, properties: VectorProperties)
    requires
        a.elements == b.elements,
    ensures
        a.properties_from(ids, properties) == b.properties_from(ids, properties),
    decreases ids.len(),
{
    if ids.len() > 0 {
        lemma_properties_from_elements(a, b, ids.drop_last(), properties);
    }
}

/// Forgetting what is cached for a layer at a time leaves the elements, their
/// attachments, the key frames and the layers as they are.
pub proof fn lemma_invalidate_keeps_elements(
    before: (CoreView, Result<EditOutcome, StoreError>),
    layer_id: i64,
    when: TimeMicros,
)
    requires
        then_invalidate(before, layer_id, when).1 is Ok,
    ensures
        before.1 is Ok,
        then_invalidate(before, layer_id, when).0.store.tables().elements == before.0.store.tables().elements,
        then_invalidate(before, layer_id, when).0.store.tables().attachments
            == before.0.store.tables().attachments,
        then_invalidate(before, layer_id, when).0.store.tables().key_frames == before.0.store.tables().key_frames,
        then_invalidate(before, layer_id, when).0.store.tables().next_id == before.0.store.tables().next_id,
        then_invalidate(before, layer_id, when).0.store.tables().layers == before.0.store.tables().layers,
        then_invalidate(before, layer_id, when).0.book == before.0.book,
        then_invalidate(before, layer_id, when).0.failure == before.0.failure,
{
    reveal(StoreView::updated);
    reveal(step);
    lemma_run_2(
        before.0.store.machine,
        UpdateView::PushLayerId(layer_id),
        UpdateView::PopDeleteLayerCache(when, CacheType::OnionSkinLayer),
    );
}

/// Attachment round trip, for the edit as the core is given it. A brush stroke
/// that is painted at a time on a layer for which a brush definition and brush
/// properties were selected is the last element of the frame of that layer at
/// that time, after the elements that were there, and is drawn with exactly
/// what the two hold: the brush and the drawing style of the brush definition,
/// and the brush properties. Exactly the two are attached to it.
pub proof fn lemma_painted_stroke<B: Brush>(
    brushes: B,
    c: CoreView,
    layer_id: i64,
    when: TimeMicros,
    assigned: i64,
    raw: Seq<RawPoint>,
    d: i64,
    p: i64,
)
    requires
        selected(c, layer_id, d, p),
        assigned != d,
        assigned != p,
        element_ids_sound(c.store.tables()),
        c.store.tables().element_for_assigned(d) matches Some(row) && row.detail is BrushDefinition,
        c.store.tables().element_for_assigned(p) matches Some(row) && row.detail is BrushProperties,
        edit_vector_layer_spec(
            brushes,
            c,
            layer_id,
            LayerEditView::Paint(when, PaintEditView::BrushStroke(ElementId::Assigned(assigned), raw)),
        ).1 is Ok,
    ensures
        ({
            let t = c.store.tables();
            let after = edit_vector_layer_spec(
                brushes,
                c,
                layer_id,
                LayerEditView::Paint(when, PaintEditView::BrushStroke(ElementId::Assigned(assigned), raw)),
            ).0.store.tables();
            let definition = t.element_for_assigned(d).unwrap();
            let properties = t.element_for_assigned(p).unwrap();
            let drawn_with = VectorProperties {
                brush: definition.detail->BrushDefinition_0,
                drawing_style: drawing_style_of(definition.detail->BrushDefinition_1),
                brush_properties: properties.detail->BrushProperties_0,
            };
            &&& after.element_for_assigned(assigned) is Some
            &&& after.element_for_assigned(assigned).unwrap().id == t.next_id
            &&& attached_ids(after.attachments, t.next_id) == seq![definition.id, properties.id]
            &&& after.element_for_assigned(d) == t.element_for_assigned(d)
            &&& after.element_for_assigned(p) == t.element_for_assigned(p)
            &&& after.layers == t.layers
            &&& edit_vector_layer_spec(
                brushes,
                c,
                layer_id,
                LayerEditView::Paint(when, PaintEditView::BrushStroke(ElementId::Assigned(assigned), raw)),
            ).0.book.layer_ids == c.book.layer_ids
            &&& after.frame_elements(layer_id, when) == t.frame_elements(layer_id, when).push(
                after.element_for_assigned(assigned).unwrap(),
            )
            &&& after.frame(layer_id, when) == t.frame(layer_id, when).push(
                FrameElement { element: after.element_for_assigned(assigned).unwrap(), properties: drawn_with },
            )
            &&& element_ids_sound(after)
        }),
{
    let t = c.store.tables();
    let edit = PaintEditView::BrushStroke(ElementId::Assigned(assigned), raw);
    let painted = paint_vector_layer_spec(brushes, c, layer_id, when, edit);
    lemma_invalidate_keeps_elements(painted, layer_id, when);
    let middle = after_stroke(brushes, c, layer_id, when, assigned, raw);
    let after = edit_vector_layer_spec(brushes, c, layer_id, LayerEditView::Paint(when, edit)).0.store.tables();
    lemma_stroke_attachments(brushes, c, layer_id, when, assigned, raw, d, p);
    lemma_stroke_properties(brushes, c, layer_id, when, assigned, raw, d, p);
    let stroke = after.elements.last();
    assert(stroke == middle.elements.last());
    assert(after.styling_ids(stroke) == middle.styling_ids(stroke));
    lemma_properties_from_elements(after, middle, after.styling_ids(stroke), VectorProperties::spec_default());
    let key_frame = t.key_frames[nearest_key_frame(t.key_frames, layer_id, when).unwrap()].id;
    assert(after.frame_elements(layer_id, when) == visible_elements(after.elements, key_frame, when));
    assert(after.elements.drop_last() == t.elements);
    assert(after.frame_elements(layer_id, when) == t.frame_elements(layer_id, when).push(stroke));
    let one = AttachRow { element: t.next_id, attached: t.element_for_assigned(d).unwrap().id };
    let two = AttachRow { element: t.next_id, attached: t.element_for_assigned(p).unwrap().id };
    lemma_find_key(t.elements, t.next_id);
    assert(after.elements =~= t.elements.push(stroke));
    assert forall|i: int| 0 <= i < t.frame_elements(layer_id, when).len() implies after.resolved_properties(
        #[trigger] t.frame_elements(layer_id, when)[i],
    ) == t.resolved_properties(t.frame_elements(layer_id, when)[i]) by {
        let row = t.frame_elements(layer_id, when)[i];
        lemma_visible_is_element(t.elements, key_frame, when, i);
        let j = choose|j: int| 0 <= j < t.elements.len() && t.elements[j] == row;
        assert(t.elements[j].id < t.next_id);
        lemma_attached_elsewhere(t.attachments, one, two, row.id);
        assert(after.styling_ids(row) == t.styling_ids(row));
        lemma_properties_after_push(t, after, stroke, t.styling_ids(row), VectorProperties::spec_default());
    }
    assert(after.frame(layer_id, when) =~= t.frame(layer_id, when).push(
        FrameElement { element: stroke, properties: after.resolved_properties(stroke) },
    ));
}

} // verus!
