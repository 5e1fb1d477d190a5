//! Batches of edits: they take effect as a whole or not at all.

use vstd::prelude::*;
use crate::animation::brush::TimeMicros;
use crate::animation::brushes::Brush;
use crate::animation::edit::{AnimationEditView, ElementEditView, LayerEditView, PaintEditView, PathEditView};
use crate::animation::element_id::ElementId;
use crate::db::animation_core::{paint_vector_layer_spec, submit, CoreView, EditOutcome};
use crate::db::edit_sink::{perform_all_spec, perform_edits_spec};
use crate::db::error::StoreError;
use crate::db::flo_file::StoreView;
use crate::db::flo_store::UpdateView;
use crate::db::insert_editlog::insert_edits_spec;
use crate::db::perform_edit::{edit_vector_layer_spec, perform_edit_spec, carry_out, edit_many_elements_spec, apply_layer_edit_spec, element_plan, path_vector_layer_spec, apply_edit_spec, then_invalidate, Plan};
use crate::db::rows::TablesView;
use crate::db::step::Machine;

verus! {

/// The store that a failure leaves behind while `saved` is what queuing began
/// with: its tables are `saved`, its stack is empty and queuing is over.
pub open spec fn undone(saved: TablesView) -> StoreView {
    StoreView { machine: Machine { tables: saved, stack: Seq::empty() }, saved: None }
}

/// True if `after` is what a step may leave of a store that was queuing with
/// `saved`: if the step succeeded the store is still queuing with `saved`, and
/// if it failed everything since queuing began is undone.
pub open spec fn atomic<T>(saved: TablesView, after: (CoreView, Result<T, StoreError>)) -> bool {
    match after.1 {
        Ok(_) => after.0.store.saved == Some(saved),
        Err(_) => after.0.store == undone(saved),
    }
}

/// A batch of instructions either leaves a queuing store queuing or undoes
/// everything since queuing began.
pub proof fn lemma_submit_atomic(c: CoreView, updates: Seq<UpdateView>, saved: TablesView)
    requires
        c.store.saved == Some(saved),
    ensures
        atomic(saved, submit(c, updates)),
        submit(c, updates).0.book == c.book,
        submit(c, updates).0.failure == c.failure,
        submit(c, updates).0.next_element_id == c.next_element_id,
{
    reveal(StoreView::updated);
}

/// A plan either leaves a queuing store queuing or undoes everything since
/// queuing began.
pub proof fn lemma_carry_out_atomic(c: CoreView, plan: Plan, saved: TablesView)
    requires
        c.store.saved == Some(saved),
    ensures
        atomic(saved, carry_out(c, plan)),
        carry_out(c, plan).0.failure == c.failure,
        carry_out(c, plan).0.next_element_id == c.next_element_id,
{
    reveal(StoreView::updated);
}

/// An edit to many elements either leaves a queuing store queuing or undoes
/// everything since queuing began.
pub proof fn lemma_edit_many_atomic(c: CoreView, ids: Seq<ElementId>, edit: ElementEditView, saved: TablesView)
    requires
        c.store.saved == Some(saved),
    ensures
        atomic(saved, edit_many_elements_spec(c, ids, edit)),
        edit_many_elements_spec(c, ids, edit).0.failure == c.failure,
        edit_many_elements_spec(c, ids, edit).0.next_element_id == c.next_element_id,
    decreases ids.len(),
{
    if ids.len() > 0 {
        lemma_edit_many_atomic(c, ids.drop_last(), edit, saved);
        let (before, r) = edit_many_elements_spec(c, ids.drop_last(), edit);
        if r is Ok {
            lemma_carry_out_atomic(before, element_plan(before.store.tables(), ids.last(), edit), saved);
        }
    }
}

/// Forgetting what is cached after an edit keeps the edit atomic.
pub proof fn lemma_then_invalidate_atomic(
    before: (CoreView, Result<EditOutcome, StoreError>),
    layer_id: i64,
    when: TimeMicros,
    saved: TablesView,
)
    requires
        atomic(saved, before),
    ensures
        atomic(saved, then_invalidate(before, layer_id, when)),
        then_invalidate(before, layer_id, when).0.failure == before.0.failure,
        then_invalidate(before, layer_id, when).0.next_element_id == before.0.next_element_id,
{
    reveal(StoreView::updated);
}

/// An edit to a layer either leaves a queuing store queuing or undoes
/// everything since queuing began.
pub proof fn lemma_edit_vector_layer_atomic<B: Brush>(
    brushes: B,
    c: CoreView,
    layer_id: i64,
    edit: LayerEditView,
    saved: TablesView,
)
    requires
        c.store.saved == Some(saved),
    ensures
        atomic(saved, apply_layer_edit_spec(brushes, c, layer_id, edit)),
        apply_layer_edit_spec(brushes, c, layer_id, edit).0.failure == c.failure,
        apply_layer_edit_spec(brushes, c, layer_id, edit).0.next_element_id == c.next_element_id,
{
    reveal(StoreView::updated);
    match edit {
        LayerEditView::Paint(when, paint) => {
            lemma_then_invalidate_atomic(
                paint_vector_layer_spec(brushes, c, layer_id, when, paint),
                layer_id,
                when,
                saved,
            );
        },
        LayerEditView::Path(when, path) => {
            lemma_then_invalidate_atomic(path_vector_layer_spec(c, layer_id, when, path), layer_id, when, saved);
        },
        _ => {},
    }
}

/// An edit either leaves a queuing store queuing or undoes everything since
/// queuing began.
pub proof fn lemma_perform_edit_atomic<B: Brush>(brushes: B, c: CoreView, edit: AnimationEditView, saved: TablesView)
    requires
        c.store.saved == Some(saved),
    ensures
        atomic(saved, apply_edit_spec(brushes, c, edit)),
        apply_edit_spec(brushes, c, edit).0.failure == c.failure,
        apply_edit_spec(brushes, c, edit).0.next_element_id == c.next_element_id,
{
    match edit {
        AnimationEditView::Layer(assigned, layer_edit) => {
            lemma_edit_vector_layer_atomic(
                brushes,
                crate::db::perform_edit::with_layer_id(c, assigned),
                crate::db::perform_edit::layer_id_of(c, assigned),
                layer_edit,
                saved,
            );
        },
        AnimationEditView::Element(ids, element_edit) => {
            lemma_edit_many_atomic(c, ids, element_edit, saved);
        },
        _ => {
            reveal(StoreView::updated);
        },
    }
}

/// Edits carried out in turn either leave a queuing store queuing or undo
/// everything since queuing began.
pub proof fn lemma_perform_all_atomic<B: Brush>(
    brushes: B,
    c: CoreView,
    edits: Seq<AnimationEditView>,
    saved: TablesView,
)
    requires
        c.store.saved == Some(saved),
    ensures
        atomic(saved, perform_all_spec(brushes, c, edits)),
        perform_all_spec(brushes, c, edits).0.failure == c.failure,
        perform_all_spec(brushes, c, edits).0.next_element_id == c.next_element_id,
    decreases edits.len(),
{
    if edits.len() > 0 {
        lemma_perform_all_atomic(brushes, c, edits.drop_last(), saved);
        let (before, r) = perform_all_spec(brushes, c, edits.drop_last());
        if r is Ok {
            lemma_perform_edit_atomic(brushes, before, edits.last(), saved);
        }
    }
}

/// A batch of edits that fails leaves no trace: the tables, the edit log among
/// them, are what they were before the batch, the stack is empty, the
/// bookkeeping is what it was, and the error stays with the core. A batch that
/// succeeds leaves the store as it was found: not queuing.
pub proof fn lemma_batch_is_atomic<B: Brush>(brushes: B, c: CoreView, edits: Seq<AnimationEditView>)
    requires
        c.failure is None,
        c.store.saved is None,
    ensures
        match perform_edits_spec(brushes, c, edits).1 {
            Err(e) => {
                &&& perform_edits_spec(brushes, c, edits).0.store.tables() == c.store.tables()
                &&& perform_edits_spec(brushes, c, edits).0.store.saved is None
                &&& perform_edits_spec(brushes, c, edits).0.book == c.book
                &&& perform_edits_spec(brushes, c, edits).0.failure == Some(e)
            },
            Ok(()) => {
                &&& perform_edits_spec(brushes, c, edits).0.store.saved is None
                &&& perform_edits_spec(brushes, c, edits).0.failure is None
            },
        },
{
    if !(crate::db::animation_core::count_wanted(edits) > i64::MAX || c.next_element_id
        + crate::db::animation_core::count_wanted(edits) > i64::MAX) {
        let saved = c.store.tables();
        let assigned = crate::db::animation_core::with_element_ids(edits, c.next_element_id as int);
        let start = CoreView {
            store: c.store.queuing(),
            next_element_id: (c.next_element_id + crate::db::animation_core::count_wanted(edits)) as i64,
            ..c
        };
        lemma_submit_atomic(start, crate::db::insert_editlog::edits_log_updates(assigned), saved);
        let (logged, r) = submit(start, crate::db::insert_editlog::edits_log_updates(assigned));
        if r is Ok {
            lemma_perform_all_atomic(brushes, logged, assigned, saved);
        }
    }
}

/// A batch of edits never lowers the id for the next element: it stays, or
/// goes up by the number of ids that the batch was given.
pub proof fn lemma_batch_keeps_ids<B: Brush>(brushes: B, c: CoreView, edits: Seq<AnimationEditView>)
    ensures
        perform_edits_spec(brushes, c, edits).0.next_element_id == c.next_element_id || perform_edits_spec(
            brushes,
            c,
            edits,
        ).0.next_element_id == c.next_element_id + crate::db::animation_core::count_wanted(edits),
        perform_edits_spec(brushes, c, edits).1 is Ok ==> perform_edits_spec(brushes, c, edits).0.next_element_id
            == c.next_element_id + crate::db::animation_core::count_wanted(edits),
        perform_edits_spec(brushes, c, edits).0.next_element_id >= c.next_element_id,
{
    crate::laws::ids::lemma_count_wanted_grows(edits, 0, edits.len() as int);
    if c.failure is None && !(crate::db::animation_core::count_wanted(edits) > i64::MAX || c.next_element_id
        + crate::db::animation_core::count_wanted(edits) > i64::MAX) {
        let assigned = crate::db::animation_core::with_element_ids(edits, c.next_element_id as int);
        let start = CoreView {
            store: c.store.queuing(),
            next_element_id: (c.next_element_id + crate::db::animation_core::count_wanted(edits)) as i64,
            ..c
        };
        let saved = start.store.saved.unwrap();
        lemma_submit_atomic(start, crate::db::insert_editlog::edits_log_updates(assigned), saved);
        let (logged, r) = submit(start, crate::db::insert_editlog::edits_log_updates(assigned));
        if r is Ok {
            lemma_perform_all_atomic(brushes, logged, assigned, saved);
        }
    }
}

/// While an error stays with the core, a batch of edits does nothing.
pub proof fn lemma_failure_blocks<B: Brush>(brushes: B, c: CoreView, edits: Seq<AnimationEditView>)
    requires
        c.failure is Some,
    ensures
        perform_edits_spec(brushes, c, edits).0 == c,
        perform_edits_spec(brushes, c, edits).1 == Err::<(), StoreError>(c.failure.unwrap()),
{
}

/// While an error stays with the core, a single edit does nothing and fails
/// with that error; so does an edit to a layer, and so does writing edits to
/// the edit log.
pub proof fn lemma_failure_blocks_edit<B: Brush>(
    brushes: B,
    c: CoreView,
    edit: AnimationEditView,
    layer_id: i64,
    layer_edit: crate::animation::edit::LayerEditView,
    edits: Seq<AnimationEditView>,
)
    requires
        c.failure is Some,
    ensures
        perform_edit_spec(brushes, c, edit).0 == c,
        perform_edit_spec(brushes, c, edit).1 == Err::<EditOutcome, StoreError>(c.failure.unwrap()),
        edit_vector_layer_spec(brushes, c, layer_id, layer_edit).0 == c,
        edit_vector_layer_spec(brushes, c, layer_id, layer_edit).1 == Err::<EditOutcome, StoreError>(
            c.failure.unwrap(),
        ),
        insert_edits_spec(c, edits).0 == c,
        insert_edits_spec(c, edits).1 == Err::<(), StoreError>(c.failure.unwrap()),
{
}

/// A single edit that fails leaves its error with the core; so does an edit
/// to a layer, and so does writing edits to the edit log.
pub proof fn lemma_failed_edit_stays<B: Brush>(
    brushes: B,
    c: CoreView,
    edit: AnimationEditView,
    layer_id: i64,
    layer_edit: crate::animation::edit::LayerEditView,
    edits: Seq<AnimationEditView>,
)
    requires
        c.failure is None,
    ensures
        perform_edit_spec(brushes, c, edit).1 matches Err(e) ==> perform_edit_spec(brushes, c, edit).0.failure
            == Some(e),
        edit_vector_layer_spec(brushes, c, layer_id, layer_edit).1 matches Err(e) ==> edit_vector_layer_spec(
            brushes,
            c,
            layer_id,
            layer_edit,
        ).0.failure == Some(e),
        insert_edits_spec(c, edits).1 matches Err(e) ==> insert_edits_spec(c, edits).0.failure == Some(e),
{
}

} // verus!
