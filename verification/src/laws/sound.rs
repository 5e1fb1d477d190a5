//! The ids of the elements stay in order, whatever instruction is carried out.

use vstd::prelude::*;
use crate::db::flo_store::{DbElementMove, UpdateView};
use crate::db::matchers::Attachment;
use crate::db::relation::{find_key, lemma_find_key, lemma_without_match, without_key, without_match, Matcher};
use crate::db::rows::{AttachRow, ElementRow, TablesView};
use crate::db::step::{attach_rows, detach_all, group_of, moved_element, step, Machine};
use crate::laws::strokes::element_ids_sound;

verus! {

/// True if no two of the elements have the same id and every id is older than
/// `next`.
pub open spec fn elements_sound(rows: Seq<ElementRow>, next: i64) -> bool {
    &&& forall|i: int| 0 <= i < rows.len() ==> (#[trigger] rows[i]).id < next
    &&& forall|i: int, j: int| 0 <= i < j < rows.len() ==> (#[trigger] rows[i]).id != (#[trigger] rows[j]).id
}

/// True if every attachment is to an id older than `next`.
pub open spec fn attachments_sound(rows: Seq<AttachRow>, next: i64) -> bool {
    forall|i: int| 0 <= i < rows.len() ==> (#[trigger] rows[i]).element < next
}

/// The ids of the elements are in order if the elements and the attachments
/// are, each by itself.
pub proof fn lemma_sound_parts(t: TablesView)
    ensures
        element_ids_sound(t) == (elements_sound(t.elements, t.next_id) && attachments_sound(
            t.attachments,
            t.next_id,
        )),
{
}

/// Replacing an element by one with the same id keeps the elements in order.
proof fn lemma_update_sound(rows: Seq<ElementRow>, next: i64, i: int, row: ElementRow)
    requires
        elements_sound(rows, next),
        0 <= i < rows.len(),
        row.id == rows[i].id,
    ensures
        elements_sound(rows.update(i, row), next),
{
    let after = rows.update(i, row);
    assert forall|a: int| 0 <= a < after.len() implies (#[trigger] after[a]).id < next by {
        assert(after[a].id == rows[a].id);
    }
    assert forall|a: int, b: int| 0 <= a < b < after.len() implies (#[trigger] after[a]).id != (
    #[trigger] after[b]).id by {
        assert(after[a].id == rows[a].id);
        assert(after[b].id == rows[b].id);
    }
}

/// Elements that were all there before, each at a place of its own, are in
/// order if those before were.
proof fn lemma_rearranged_sound(rows: Seq<ElementRow>, after: Seq<ElementRow>, next: i64, place: spec_fn(int) -> int)
    requires
        elements_sound(rows, next),
        forall|a: int| 0 <= a < after.len() ==> 0 <= #[trigger] place(a) < rows.len() && after[a] == rows[place(a)],
        forall|a: int, b: int| 0 <= a < b < after.len() ==> #[trigger] place(a) != #[trigger] place(b),
    ensures
        elements_sound(after, next),
{
    assert forall|a: int| 0 <= a < after.len() implies (#[trigger] after[a]).id < next by {
        assert(after[a] == rows[place(a)]);
    }
    assert forall|a: int, b: int| 0 <= a < b < after.len() implies (#[trigger] after[a]).id != (
    #[trigger] after[b]).id by {
        assert(after[a] == rows[place(a)]);
        assert(after[b] == rows[place(b)]);
        if place(a) < place(b) {
            assert(rows[place(a)].id != rows[place(b)].id);
        } else {
            assert(rows[place(b)].id != rows[place(a)].id);
        }
    }
}

/// Moving an element in the drawing order keeps the elements in order.
proof fn lemma_move_sound(rows: Seq<ElementRow>, next: i64, i: int, key_frame: i64, how: DbElementMove)
    requires
        elements_sound(rows, next),
        0 <= i < rows.len(),
    ensures
        elements_sound(moved_element(rows, i, key_frame, how), next),
{
    let after = moved_element(rows, i, key_frame, how);
    let n = rows.len() as int;
    match how {
        DbElementMove::ToTop => {
            let place = |a: int| if a == n - 1 { i } else if a < i { a } else { a + 1 };
            assert(after.len() == n);
            assert forall|a: int| 0 <= a < after.len() implies 0 <= #[trigger] place(a) < rows.len() && after[a]
                == rows[place(a)] by {
                if a < n - 1 {
                    assert(after[a] == rows.remove(i)[a]);
                }
            }
            lemma_rearranged_sound(rows, after, next, place);
        },
        DbElementMove::ToBottom => {
            let place = |a: int| if a == 0 { i } else if a - 1 < i { a - 1 } else { a };
            assert(after.len() == n);
            assert forall|a: int| 0 <= a < after.len() implies 0 <= #[trigger] place(a) < rows.len() && after[a]
                == rows[place(a)] by {
                if a > 0 {
                    assert(after[a] == rows.remove(i)[a - 1]);
                }
            }
            lemma_rearranged_sound(rows, after, next, place);
        },
        DbElementMove::Up => {
            match crate::db::step::first_in_frame_from(rows, i + 1, key_frame) {
                Some(j) => {
                    lemma_first_in_frame(rows, i + 1, key_frame);
                    let place = |a: int| if a == j { i } else if a == i { j } else { a };
                    lemma_rearranged_sound(rows, after, next, place);
                },
                None => {},
            }
        },
        DbElementMove::Down => {
            match crate::db::step::last_in_frame_before(rows, i, key_frame) {
                Some(j) => {
                    lemma_last_in_frame(rows, i, key_frame);
                    let place = |a: int| if a == j { i } else if a == i { j } else { a };
                    lemma_rearranged_sound(rows, after, next, place);
                },
                None => {},
            }
        },
    }
}

/// Where the first element of a key frame from a position on is found, it is
/// an element.
proof fn lemma_first_in_frame(rows: Seq<ElementRow>, from: int, key_frame: i64)
    ensures
        crate::db::step::first_in_frame_from(rows, from, key_frame) matches Some(j) ==> 0 <= j < rows.len(),
    decreases rows.len() - from,
{
    if 0 <= from < rows.len() {
        lemma_first_in_frame(rows, from + 1, key_frame);
    }
}

/// Where the last element of a key frame before a position is found, it is
/// an element.
proof fn lemma_last_in_frame(rows: Seq<ElementRow>, before: int, key_frame: i64)
    ensures
        crate::db::step::last_in_frame_before(rows, before, key_frame) matches Some(j) ==> 0 <= j < rows.len(),
    decreases before,
{
    if 0 < before <= rows.len() {
        lemma_last_in_frame(rows, before - 1, key_frame);
    }
}

/// Dropping the elements with an id keeps the elements in order.
proof fn lemma_without_key_sound(rows: Seq<ElementRow>, next: i64, id: i64)
    requires
        elements_sound(rows, next),
    ensures
        elements_sound(without_key(rows, id), next),
        forall|a: int|
            0 <= a < without_key(rows, id).len() ==> rows.contains(#[trigger] without_key(rows, id)[a]),
    decreases rows.len(),
{
    if rows.len() > 0 {
        let rest = rows.drop_last();
        assert forall|a: int| 0 <= a < rest.len() implies (#[trigger] rest[a]).id < next by {
            assert(rest[a] == rows[a]);
        }
        assert forall|a: int, b: int| 0 <= a < b < rest.len() implies (#[trigger] rest[a]).id != (
        #[trigger] rest[b]).id by {
            assert(rest[a] == rows[a]);
            assert(rest[b] == rows[b]);
        }
        lemma_without_key_sound(rest, next, id);
        let kept = without_key(rest, id);
        let after = without_key(rows, id);
        assert forall|a: int| 0 <= a < after.len() implies rows.contains(#[trigger] after[a]) by {
            if a < kept.len() {
                assert(after[a] == kept[a]);
                assert(rest.contains(kept[a]));
                let k = choose|k: int| 0 <= k < rest.len() && rest[k] == kept[a];
                assert(rows[k] == after[a]);
            } else {
                assert(after[a] == rows[rows.len() - 1]);
            }
        }
        assert forall|a: int| 0 <= a < after.len() implies (#[trigger] after[a]).id < next by {
            assert(rows.contains(after[a]));
            let k = choose|k: int| 0 <= k < rows.len() && rows[k] == after[a];
            assert(rows[k].id < next);
        }
        assert forall|a: int, b: int| 0 <= a < b < after.len() implies (#[trigger] after[a]).id != (
        #[trigger] after[b]).id by {
            if b < kept.len() {
                assert(after[a] == kept[a]);
                assert(after[b] == kept[b]);
            } else {
                assert(after[a] == kept[a]);
                assert(after[b] == rows[rows.len() - 1]);
                assert(rest.contains(kept[a]));
                let k = choose|k: int| 0 <= k < rest.len() && rest[k] == kept[a];
                assert(rows[k] == kept[a]);
                assert(rows[k].id != rows[rows.len() - 1].id);
            }
        }
    }
}

/// Dropping attachments keeps the attachments in order.
proof fn lemma_without_match_sound<M: Matcher<AttachRow>>(rows: Seq<AttachRow>, next: i64, m: M)
    requires
        attachments_sound(rows, next),
    ensures
        attachments_sound(without_match(rows, m), next),
{
    lemma_without_match(rows, m);
    let after = without_match(rows, m);
    assert forall|a: int| 0 <= a < after.len() implies (#[trigger] after[a]).element < next by {
        assert(rows.contains(after[a]));
        let k = choose|k: int| 0 <= k < rows.len() && rows[k] == after[a];
        assert(rows[k].element < next);
    }
}

/// Taking attachments away keeps the attachments in order.
proof fn lemma_detach_sound(rows: Seq<AttachRow>, next: i64, target: i64, ids: Seq<i64>)
    requires
        attachments_sound(rows, next),
    ensures
        attachments_sound(detach_all(rows, target, ids), next),
    decreases ids.len(),
{
    if ids.len() > 0 {
        lemma_detach_sound(rows, next, target, ids.drop_last());
        lemma_without_match_sound(
            detach_all(rows, target, ids.drop_last()),
            next,
            Attachment { element: target, attached: ids.last() },
        );
    }
}

/// Attaching to an id that is older than `next` keeps the attachments in
/// order.
proof fn lemma_attach_sound(rows: Seq<AttachRow>, next: i64, target: i64, ids: Seq<i64>)
    requires
        attachments_sound(rows, next),
        target < next || ids.len() == 0,
    ensures
        attachments_sound(rows + attach_rows(target, ids), next),
{
    let after = rows + attach_rows(target, ids);
    assert forall|a: int| 0 <= a < after.len() implies (#[trigger] after[a]).element < next by {
        if a < rows.len() {
            assert(after[a] == rows[a]);
        } else {
            assert(after[a] == attach_rows(target, ids)[a - rows.len()]);
        }
    }
}

/// Elements of which one, found by its id, was replaced by one with the same
/// id are in order if those before were.
proof fn lemma_replaced_sound(rows: Seq<ElementRow>, after: Seq<ElementRow>, next: i64, key: i64)
    requires
        elements_sound(rows, next),
        find_key(rows, key) is Some,
        after.len() == rows.len(),
        forall|a: int| 0 <= a < rows.len() && a != find_key(rows, key).unwrap() ==> #[trigger] after[a] == rows[a],
        after[find_key(rows, key).unwrap()].id == key,
    ensures
        elements_sound(after, next),
{
    lemma_find_key(rows, key);
    let i = find_key(rows, key).unwrap();
    assert(after =~= rows.update(i, after[i]));
    lemma_update_sound(rows, next, i, after[i]);
}

/// True if the instruction, where it attaches anything, attaches it to an id
/// that is older than the one that the next element gets.
pub open spec fn attaches_to_older(m: Machine, u: UpdateView) -> bool {
    match u {
        UpdateView::PushAttachElements(n) => n == 0 || m.peek(n as int) < m.tables.next_id,
        _ => true,
    }
}

/// An instruction that is not about elements leaves the elements and their
/// attachments as they are, and does not lower the id that the next element
/// gets.
proof fn lemma_other_step_keeps(m: Machine, u: UpdateView)
    requires
        !(group_of(u) is Element),
        step(m, u) is Ok,
    ensures
        step(m, u).unwrap().tables.elements == m.tables.elements,
        step(m, u).unwrap().tables.attachments == m.tables.attachments,
        m.tables.next_id <= step(m, u).unwrap().tables.next_id,
{
    reveal(step);
}

/// An instruction that replaces an element keeps the ids of the elements in
/// order.
proof fn lemma_replacing_step_sound(m: Machine, u: UpdateView)
    requires
        element_ids_sound(m.tables),
        step(m, u) is Ok,
        u is PushVectorElementTime || u is PushElementAssignId || u is PopVectorBrushElement
            || u is PopVectorBrushPropertiesElement || u is PopBrushPoints || u is PopVectorPathElement
            || u is UpdateBrushPointCoords || u is PopDetachVectorElementFromFrame,
    ensures
        element_ids_sound(step(m, u).unwrap().tables),
        m.tables.next_id == step(m, u).unwrap().tables.next_id,
{
    reveal(step);
    let rows = m.tables.elements;
    let y = step(m, u).unwrap();
    let key = match u {
        UpdateView::PopVectorBrushElement(_) => m.peek(1),
        UpdateView::PopVectorBrushPropertiesElement => m.peek(1),
        UpdateView::PopVectorPathElement => m.peek(3),
        _ => m.peek(0),
    };
    lemma_find_key(rows, key);
    lemma_replaced_sound(rows, y.tables.elements, m.tables.next_id, key);
}

/// An instruction about elements that replaces none keeps the ids of the
/// elements in order.
proof fn lemma_element_step_sound(m: Machine, u: UpdateView)
    requires
        element_ids_sound(m.tables),
        group_of(u) is Element,
        step(m, u) is Ok,
        attaches_to_older(m, u),
        !(u is PushVectorElementTime || u is PushElementAssignId || u is PopVectorBrushElement
            || u is PopVectorBrushPropertiesElement || u is PopBrushPoints || u is PopVectorPathElement
            || u is UpdateBrushPointCoords || u is PopDetachVectorElementFromFrame),
    ensures
        element_ids_sound(step(m, u).unwrap().tables),
        m.tables.next_id <= step(m, u).unwrap().tables.next_id,
{
    reveal(step);
    let t = m.tables;
    let y = step(m, u).unwrap();
    match u {
        UpdateView::PushVectorElementType(_) => {
            let after = y.tables.elements;
            assert forall|a: int| 0 <= a < after.len() implies (#[trigger] after[a]).id < y.tables.next_id by {
                if a < t.elements.len() {
                    assert(after[a] == t.elements[a]);
                }
            }
            assert forall|a: int, b: int| 0 <= a < b < after.len() implies (#[trigger] after[a]).id != (
            #[trigger] after[b]).id by {
                assert(after[a] == t.elements[a]);
                if b < t.elements.len() {
                    assert(after[b] == t.elements[b]);
                }
            }
        },
        UpdateView::PushAttachElements(n) => {
            lemma_attach_sound(t.attachments, t.next_id, m.peek(n as int), m.top(n as int));
        },
        UpdateView::PushDetachElements(n) => {
            lemma_detach_sound(t.attachments, t.next_id, m.peek(n as int), m.top(n as int));
        },
        UpdateView::PopVectorElementMove(how) => {
            lemma_find_key(t.elements, m.peek(1));
            lemma_move_sound(t.elements, t.next_id, find_key(t.elements, m.peek(1)).unwrap(), m.peek(0), how);
        },
        UpdateView::PopDeleteVectorElement => {
            lemma_without_key_sound(t.elements, t.next_id, m.peek(0));
            lemma_without_match_sound(t.attachments, t.next_id, crate::db::matchers::TouchesElement(m.peek(0)));
        },
        _ => {},
    }
}

/// Every instruction keeps the ids of the elements in order, if what it
/// attaches it attaches to an id that is older than the one that the next
/// element gets; and none lowers that id.
pub proof fn lemma_step_sound(m: Machine, u: UpdateView)
    requires
        element_ids_sound(m.tables),
        step(m, u) is Ok,
        attaches_to_older(m, u),
    ensures
        element_ids_sound(step(m, u).unwrap().tables),
        m.tables.next_id <= step(m, u).unwrap().tables.next_id,
{
    if !(group_of(u) is Element) {
        lemma_other_step_keeps(m, u);
    } else if u is PushVectorElementTime || u is PushElementAssignId || u is PopVectorBrushElement
        || u is PopVectorBrushPropertiesElement || u is PopBrushPoints || u is PopVectorPathElement
        || u is UpdateBrushPointCoords || u is PopDetachVectorElementFromFrame {
        lemma_replacing_step_sound(m, u);
    } else {
        lemma_element_step_sound(m, u);
    }
}

} // verus!
