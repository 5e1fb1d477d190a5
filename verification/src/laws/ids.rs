//! Element ids: handed out in increasing order, and never twice.

use vstd::prelude::*;
use crate::animation::edit::AnimationEditView;
use crate::animation::element_id::ElementId;
use crate::db::animation_core::{count_wanted, created_id, wants_element_id, with_element_id, with_element_ids};

verus! {

/// An edit that is given an id creates its element under that id, and an edit
/// that wants none stays as it is: ids that name existing elements are never
/// touched.
pub proof fn lemma_assign_one(edit: AnimationEditView, id: i64)
    ensures
        wants_element_id(edit) ==> created_id(with_element_id(edit, id)) == Some(ElementId::Assigned(id)),
        !wants_element_id(edit) ==> with_element_id(edit, id) == edit,
        !wants_element_id(with_element_id(edit, id)),
{
}

/// How many of the first edits want an id grows with their number, by one for
/// each edit that wants one.
pub proof fn lemma_count_wanted_grows(edits: Seq<AnimationEditView>, i: int, j: int)
    requires
        0 <= i <= j <= edits.len(),
    ensures
        count_wanted(edits.take(i)) <= count_wanted(edits.take(j)) <= j,
        i < j && wants_element_id(edits[i]) ==> count_wanted(edits.take(i)) < count_wanted(edits.take(j)),
    decreases j,
{
    if j == 0 {
        assert(edits.take(0) =~= Seq::empty());
    } else {
        assert(edits.take(j).drop_last() =~= edits.take(j - 1));
        if i < j {
            lemma_count_wanted_grows(edits, i, j - 1);
        } else {
            lemma_count_wanted_grows(edits, j - 1, j - 1);
        }
    }
}

/// What the edit at position `i` is after ids were assigned to a list of edits:
/// the edit with the id `next` plus the number of edits before it that wanted
/// one.
pub proof fn lemma_assigned_at(edits: Seq<AnimationEditView>, next: int, i: int)
    requires
        0 <= i < edits.len(),
    ensures
        with_element_ids(edits, next).len() == edits.len(),
        with_element_ids(edits, next)[i] == with_element_id(
            edits[i],
            (next + count_wanted(edits.take(i))) as i64,
        ),
    decreases edits.len(),
{
    lemma_assigned_len(edits, next);
    if i == edits.len() - 1 {
        assert(edits.take(i) =~= edits.drop_last());
    } else {
        lemma_assigned_at(edits.drop_last(), next, i);
        assert(edits.drop_last().take(i) =~= edits.take(i));
    }
}

/// Assigning ids leaves the number of edits as it is.
pub proof fn lemma_assigned_len(edits: Seq<AnimationEditView>, next: int)
    ensures
        with_element_ids(edits, next).len() == edits.len(),
    decreases edits.len(),
{
    if edits.len() > 0 {
        lemma_assigned_len(edits.drop_last(), next);
    }
}

/// Ids are handed out in strictly increasing order and none is handed out
/// twice: of two edits of one batch that were given ids, the later one has the
/// greater id, and every id handed out lies from `next` to before what `next`
/// is after the batch.
pub proof fn lemma_ids_strictly_increase(edits: Seq<AnimationEditView>, next: int, i: int, j: int)
    requires
        0 <= i < j < edits.len(),
        i64::MIN <= next,
        next + count_wanted(edits) <= i64::MAX,
        wants_element_id(edits[i]),
        wants_element_id(edits[j]),
    ensures
        created_id(with_element_ids(edits, next)[i]) matches Some(ElementId::Assigned(first))
            && created_id(with_element_ids(edits, next)[j]) matches Some(ElementId::Assigned(second))
            && next <= first < second < next + count_wanted(edits),
{
    lemma_assigned_at(edits, next, i);
    lemma_assigned_at(edits, next, j);
    lemma_count_wanted_grows(edits, i, j);
    lemma_count_wanted_grows(edits, j, j + 1);
    lemma_count_wanted_grows(edits, j + 1, edits.len() as int);
    lemma_count_wanted_grows(edits, 0, i);
    assert(edits.take(edits.len() as int) =~= edits);
    lemma_assign_one(edits[i], (next + count_wanted(edits.take(i))) as i64);
    lemma_assign_one(edits[j], (next + count_wanted(edits.take(j))) as i64);
}

/// Ids handed out to one batch are smaller than those handed out to the next:
/// the batch after a batch starts where that batch ended.
pub proof fn lemma_ids_increase_across_batches(
    first: Seq<AnimationEditView>,
    second: Seq<AnimationEditView>,
    next: int,
    i: int,
    j: int,
)
    requires
        0 <= i < first.len(),
        0 <= j < second.len(),
        i64::MIN <= next,
        next + count_wanted(first) + count_wanted(second) <= i64::MAX,
        wants_element_id(first[i]),
        wants_element_id(second[j]),
    ensures
        created_id(with_element_ids(first, next)[i]) matches Some(ElementId::Assigned(a)) && created_id(
            with_element_ids(second, next + count_wanted(first))[j],
        ) matches Some(ElementId::Assigned(b)) && a < b,
{
    lemma_assigned_at(first, next, i);
    lemma_assigned_at(second, next + count_wanted(first), j);
    lemma_count_wanted_grows(first, i, i + 1);
    lemma_count_wanted_grows(first, i + 1, first.len() as int);
    lemma_count_wanted_grows(second, 0, j);
    lemma_count_wanted_grows(second, j, j + 1);
    lemma_count_wanted_grows(second, j + 1, second.len() as int);
    assert(second.take(second.len() as int) =~= second);
    lemma_count_wanted_grows(first, 0, first.len() as int);
    assert(first.take(first.len() as int) =~= first);
    lemma_assign_one(first[i], (next + count_wanted(first.take(i))) as i64);
    lemma_assign_one(second[j], (next + count_wanted(first) + count_wanted(second.take(j))) as i64);
}

/// Assigning ids a second time changes nothing: edits that want no id stay as
/// they are, and after ids were assigned no edit wants one.
pub proof fn lemma_assign_idempotent(edits: Seq<AnimationEditView>, next: int, again: int)
    ensures
        count_wanted(with_element_ids(edits, next)) == 0,
        with_element_ids(with_element_ids(edits, next), again) == with_element_ids(edits, next),
    decreases edits.len(),
{
    if edits.len() > 0 {
        let rest = edits.drop_last();
        lemma_assign_idempotent(rest, next, again);
        let done = with_element_ids(edits, next);
        let last = with_element_id(edits.last(), (next + count_wanted(rest)) as i64);
        assert(done.drop_last() =~= with_element_ids(rest, next));
        assert(done.last() == last);
        lemma_assign_one(edits.last(), (next + count_wanted(rest)) as i64);
        lemma_assign_one(last, (again + count_wanted(done.drop_last())) as i64);
        assert(with_element_ids(done, again) =~= done);
    }
}

} // verus!
