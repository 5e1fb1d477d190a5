//! An element that is taken from its frame shows no longer, and is still there.

use vstd::prelude::*;
use crate::animation::brush::TimeMicros;
use crate::animation::brushes::Brush;
use crate::animation::edit::{AnimationEditView, ElementEditView};
use crate::animation::element_id::ElementId;
use crate::db::animation_core::{CoreView, EditOutcome};
use crate::db::error::StoreError;
use crate::db::flo_file::StoreView;
use crate::db::flo_query::visible_elements;
use crate::db::flo_store::UpdateView;
use crate::db::matchers::ElementAssigned;
use crate::db::perform_edit::{edit_many_elements_spec, perform_edit_spec};
use crate::db::relation::{find_key, lemma_find_key, lemma_find_match, without_key, Keyed};
use crate::db::rows::{ElementRow, TablesView};
use crate::db::step::{run, step, Machine};
use crate::laws::strokes::{element_ids_sound, lemma_visible_is_element};
use crate::laws::symbolic::lemma_run_2;

verus! {

/// Dropping the rows with a key that no row has drops nothing.
proof fn lemma_without_absent<T: Keyed>(rows: Seq<T>, id: i64)
    requires
        forall|k: int| 0 <= k < rows.len() ==> (#[trigger] rows[k]).key() != id,
    ensures
        without_key(rows, id) == rows,
    decreases rows.len(),
{
    if rows.len() > 0 {
        assert(rows.last() == rows[rows.len() - 1]);
        assert forall|k: int| 0 <= k < rows.drop_last().len() implies (#[trigger] rows.drop_last()[k]).key()
            != id by {
            assert(rows.drop_last()[k] == rows[k]);
        }
        lemma_without_absent(rows.drop_last(), id);
        assert(rows.drop_last().push(rows.last()) =~= rows);
    }
}

/// Where no two elements have the same id, what shows of a key frame once an
/// element was taken from its frame is what showed before without that
/// element, in the same order.
pub proof fn lemma_visible_without(rows: Seq<ElementRow>, i: int, key_frame: i64, until: TimeMicros)
    requires
        0 <= i < rows.len(),
        forall|a: int, b: int| 0 <= a < b < rows.len() ==> (#[trigger] rows[a]).id != (#[trigger] rows[b]).id,
    ensures
        visible_elements(rows.update(i, ElementRow { frame: None, ..rows[i] }), key_frame, until) == without_key(
            visible_elements(rows, key_frame, until),
            rows[i].id,
        ),
    decreases rows.len(),
{
    let id = rows[i].id;
    let changed = rows.update(i, ElementRow { frame: None, ..rows[i] });
    let rest = visible_elements(rows.drop_last(), key_frame, until);
    assert(rest.push(rows.last()).drop_last() =~= rest);
    assert(rows.last() == rows[rows.len() - 1]);
    if i == rows.len() - 1 {
        assert(changed.drop_last() =~= rows.drop_last());
        assert forall|k: int| 0 <= k < rest.len() implies (#[trigger] rest[k]).key() != id by {
            lemma_visible_is_element(rows.drop_last(), key_frame, until, k);
            let j = choose|j: int| 0 <= j < rows.drop_last().len() && rows.drop_last()[j] == rest[k];
            assert(rows[j] == rest[k]);
        }
        lemma_without_absent(rest, id);
    } else {
        assert(changed.drop_last() =~= rows.drop_last().update(i, ElementRow { frame: None, ..rows[i] }));
        assert(rows.drop_last()[i] == rows[i]);
        assert forall|a: int, b: int| 0 <= a < b < rows.drop_last().len() implies (#[trigger] rows.drop_last()[a]).id
            != (#[trigger] rows.drop_last()[b]).id by {
            assert(rows.drop_last()[a] == rows[a]);
            assert(rows.drop_last()[b] == rows[b]);
        }
        lemma_visible_without(rows.drop_last(), i, key_frame, until);
        assert(changed.last() == rows.last());
        assert(rows.last().key() != id);
    }
}

/// The instructions that take an element from its frame change nothing but
/// the frame of that element.
proof fn lemma_detach_run(x: Machine, assigned: i64)
    requires
        element_ids_sound(x.tables),
        run(
            x,
            seq![UpdateView::PushElementIdForAssignedId(assigned), UpdateView::PopDetachVectorElementFromFrame],
        ) is Ok,
    ensures
        ({
            let y = run(
                x,
                seq![UpdateView::PushElementIdForAssignedId(assigned), UpdateView::PopDetachVectorElementFromFrame],
            ).unwrap();
            &&& x.tables.element_for_assigned(assigned) is Some
            &&& find_key(x.tables.elements, x.tables.element_for_assigned(assigned).unwrap().id) is Some
            &&& x.tables.elements[find_key(
                x.tables.elements,
                x.tables.element_for_assigned(assigned).unwrap().id,
            ).unwrap()] == x.tables.element_for_assigned(assigned).unwrap()
            &&& y.tables == (TablesView {
                elements: x.tables.elements.update(
                    find_key(x.tables.elements, x.tables.element_for_assigned(assigned).unwrap().id).unwrap(),
                    ElementRow { frame: None, ..x.tables.element_for_assigned(assigned).unwrap() },
                ),
                ..x.tables
            })
        }),
{
    reveal(step);
    let t = x.tables;
    lemma_run_2(
        x,
        UpdateView::PushElementIdForAssignedId(assigned),
        UpdateView::PopDetachVectorElementFromFrame,
    );
    lemma_find_match(t.elements, ElementAssigned(assigned));
    let e = t.element_for_assigned(assigned).unwrap();
    let m1 = step(x, UpdateView::PushElementIdForAssignedId(assigned)).unwrap();
    assert(m1.peek(0) == e.id);
    lemma_find_key(t.elements, e.id);
}

/// Detach from frame. Taking an element from its frame leaves the frame of
/// every layer at every time as it was but for that element, which shows no
/// longer, and leaves the element itself, found by its id, with what it held:
/// its type, its points, and what is attached to it.
pub proof fn lemma_detach_from_frame<B: Brush>(
    brushes: B,
    c: CoreView,
    assigned: i64,
    layer_id: i64,
    when: TimeMicros,
)
    requires
        element_ids_sound(c.store.tables()),
        perform_edit_spec(
            brushes,
            c,
            AnimationEditView::Element(seq![ElementId::Assigned(assigned)], ElementEditView::DetachFromFrame),
        ).1 == Ok::<EditOutcome, StoreError>(EditOutcome::Applied),
    ensures
        ({
            let t = c.store.tables();
            let after = perform_edit_spec(
                brushes,
                c,
                AnimationEditView::Element(seq![ElementId::Assigned(assigned)], ElementEditView::DetachFromFrame),
            ).0.store.tables();
            &&& t.element_for_assigned(assigned) is Some
            &&& after.frame_elements(layer_id, when) == without_key(
                t.frame_elements(layer_id, when),
                t.element_for_assigned(assigned).unwrap().id,
            )
            &&& after.element(t.element_for_assigned(assigned).unwrap().id) == Some(
                ElementRow { frame: None, ..t.element_for_assigned(assigned).unwrap() },
            )
            &&& after.brush_points == t.brush_points
            &&& after.attachments == t.attachments
            &&& after.elements.len() == t.elements.len()
            &&& element_ids_sound(after)
        }),
{
    reveal(StoreView::updated);
    let x = c.store.machine;
    let t = x.tables;
    let ids = seq![ElementId::Assigned(assigned)];
    assert(ids.drop_last() =~= Seq::<ElementId>::empty());
    assert(edit_many_elements_spec(c, ids.drop_last(), ElementEditView::DetachFromFrame).1 is Ok);
    lemma_detach_run(x, assigned);
    let e = t.element_for_assigned(assigned).unwrap();
    let i = find_key(t.elements, e.id).unwrap();
    let after = perform_edit_spec(
        brushes,
        c,
        AnimationEditView::Element(ids, ElementEditView::DetachFromFrame),
    ).0.store.tables();
    lemma_find_key(t.elements, e.id);
    let changed = t.elements.update(i, ElementRow { frame: None, ..e });
    assert(after.elements == changed);
    lemma_find_key(changed, e.id);
    assert(changed[i].key() == e.id);
    let k = find_key(changed, e.id).unwrap();
    if k != i {
        assert(changed[k] == t.elements[k]);
        assert(t.elements[k].id != t.elements[i].id);
    }

    match t.nearest_key_frame_of(layer_id, when) {
        Some(key_frame) => {
            lemma_visible_without(t.elements, i, key_frame.id, when);
        },
        None => {},
    }
    assert forall|a: int, b: int| 0 <= a < b < after.elements.len() implies (#[trigger] after.elements[a]).id != (
    #[trigger] after.elements[b]).id by {
        assert(after.elements[a].id == t.elements[a].id);
        assert(after.elements[b].id == t.elements[b].id);
    }
    assert forall|a: int| 0 <= a < after.elements.len() implies (#[trigger] after.elements[a]).id
        < after.next_id by {
        assert(after.elements[a].id == t.elements[a].id);
    }
}

} // verus!
