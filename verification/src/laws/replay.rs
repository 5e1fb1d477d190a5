//! Replaying the edit log of an animation into a store that holds nothing makes
//! the animation again.

use vstd::prelude::*;
use crate::animation::brush::TimeMicros;
use crate::animation::brushes::Brush;
use crate::animation::edit::{AnimationEditView, ElementEditView, LayerEditView};
use crate::animation::element_id::ElementId;
use crate::db::animation_core::{count_wanted, paint_updates, paint_vector_layer_spec, submit, with_element_ids, Bookkeeping, CoreView, EditOutcome};
use crate::db::edit_sink::{perform_all_spec, perform_edits_spec, replay_edits_spec};
use crate::db::error::StoreError;
use crate::db::flo_file::StoreView;
use crate::db::flo_store::UpdateView;
use crate::db::insert_editlog::edits_log_updates;
use crate::db::insert_editlog::insert_edits_spec;
use crate::db::perform_edit::perform_edit_spec;
use crate::db::perform_edit::{carry_out, edit_many_elements_spec, apply_layer_edit_spec, element_plan, invalidate_updates, layer_id_of, motion_plan, path_plan, path_vector_layer_spec, apply_edit_spec, planned, then_invalidate, with_layer_id, Plan};
use crate::db::rows::TablesView;
use crate::db::step::Machine;
use crate::laws::clean::{clean, lemma_element_clean, lemma_motion_clean, lemma_paint_clean, lemma_path_clean};
use crate::laws::frame::{fits, grown, keeps_log, lemma_run_grows, lemma_run_keeps_log, same_log, starts_with};
use crate::laws::ids::{lemma_assign_idempotent, lemma_assigned_len};
use crate::laws::round_trip::{lemma_edits_between, lemma_log_round_trip, lemma_same_log_same_edits, log_in_order};

verus! {

/// A core over a store that holds nothing.
pub open spec fn fresh() -> CoreView {
    CoreView { store: StoreView::empty(), failure: None, book: Bookkeeping::empty(), next_element_id: 0 }
}

/// The core with another id for the next element.
pub open spec fn renumbered(c: CoreView, next: i64) -> CoreView {
    CoreView { next_element_id: next, ..c }
}

/// True if no instruction of the batch writes the edit log.
pub open spec fn log_free(updates: Seq<UpdateView>) -> bool {
    forall|i: int| 0 <= i < updates.len() ==> keeps_log(#[trigger] updates[i])
}

/// True if what a step left behind, if the step succeeded, holds the edit log
/// as it was, with tables that only grew.
pub open spec fn log_kept<T>(before: TablesView, after: (CoreView, Result<T, StoreError>)) -> bool {
    after.1 is Ok ==> same_log(before, after.0.store.tables()) && grown(before, after.0.store.tables())
}

/// Keeping the edit log carries over from step to step.
proof fn lemma_log_kept_twice(first: TablesView, second: TablesView, third: TablesView)
    requires
        same_log(first, second),
        grown(first, second),
        same_log(second, third),
        grown(second, third),
    ensures
        same_log(first, third),
        grown(first, third),
{
}

/// A batch without instructions that write the edit log keeps the edit log.
proof fn lemma_submit_keeps_log(c: CoreView, updates: Seq<UpdateView>)
    requires
        log_free(updates),
    ensures
        log_kept(c.store.tables(), submit(c, updates)),
{
    reveal(StoreView::updated);
    if submit(c, updates).1 is Ok {
        lemma_run_keeps_log(c.store.machine, updates);
        lemma_run_grows(c.store.machine, updates);
    }
}

/// A plan without instructions that write the edit log keeps the edit log.
proof fn lemma_carry_out_keeps_log(c: CoreView, plan: Plan)
    requires
        log_free(planned(plan)),
    ensures
        log_kept(c.store.tables(), carry_out(c, plan)),
{
    match plan {
        Plan::Run(updates) => {
            lemma_submit_keeps_log(c, updates);
        },
        _ => {},
    }
}

/// Forgetting what is cached keeps the edit log.
proof fn lemma_then_invalidate_keeps_log(
    start: TablesView,
    before: (CoreView, Result<EditOutcome, StoreError>),
    layer_id: i64,
    when: TimeMicros,
)
    requires
        log_kept(start, before),
    ensures
        log_kept(start, then_invalidate(before, layer_id, when)),
{
    assert(log_free(invalidate_updates(layer_id, when)));
    lemma_submit_keeps_log(before.0, invalidate_updates(layer_id, when));
    if then_invalidate(before, layer_id, when).1 is Ok {
        lemma_log_kept_twice(
            start,
            before.0.store.tables(),
            then_invalidate(before, layer_id, when).0.store.tables(),
        );
    }
}

/// An edit to many elements keeps the edit log.
proof fn lemma_edit_many_keeps_log(c: CoreView, ids: Seq<ElementId>, edit: ElementEditView)
    ensures
        log_kept(c.store.tables(), edit_many_elements_spec(c, ids, edit)),
    decreases ids.len(),
{
    if ids.len() > 0 {
        lemma_edit_many_keeps_log(c, ids.drop_last(), edit);
        let (before, r) = edit_many_elements_spec(c, ids.drop_last(), edit);
        if r is Ok {
            let plan = element_plan(before.store.tables(), ids.last(), edit);
            lemma_element_clean(before.store.tables(), ids.last(), edit);
            lemma_carry_out_keeps_log(before, plan);
            if carry_out(before, plan).1 is Ok {
                lemma_log_kept_twice(
                    c.store.tables(),
                    before.store.tables(),
                    carry_out(before, plan).0.store.tables(),
                );
            }
        }
    }
}

/// An edit to a layer keeps the edit log.
proof fn lemma_edit_vector_layer_keeps_log<B: Brush>(brushes: B, c: CoreView, layer_id: i64, edit: LayerEditView)
    ensures
        log_kept(c.store.tables(), apply_layer_edit_spec(brushes, c, layer_id, edit)),
{
    match edit {
        LayerEditView::AddKeyFrame(when) => {
            let plan = Plan::Run(seq![UpdateView::PushLayerId(layer_id), UpdateView::PopAddKeyFrame(when)]);
            lemma_carry_out_keeps_log(c, plan);
            lemma_then_invalidate_keeps_log(c.store.tables(), carry_out(c, plan), layer_id, when);
        },
        LayerEditView::RemoveKeyFrame(when) => {
            let plan = Plan::Run(seq![UpdateView::PushLayerId(layer_id), UpdateView::PopRemoveKeyFrame(when)]);
            lemma_carry_out_keeps_log(c, plan);
            lemma_then_invalidate_keeps_log(c.store.tables(), carry_out(c, plan), layer_id, when);
        },
        LayerEditView::Paint(when, paint) => {
            lemma_paint_clean(brushes, c, layer_id, when, paint);
            lemma_submit_keeps_log(c, paint_updates(brushes, c, layer_id, when, paint));
            lemma_then_invalidate_keeps_log(
                c.store.tables(),
                paint_vector_layer_spec(brushes, c, layer_id, when, paint),
                layer_id,
                when,
            );
        },
        LayerEditView::Path(when, path) => {
            lemma_path_clean(c, layer_id, when, path);
            lemma_carry_out_keeps_log(c, path_plan(c, layer_id, when, path));
            lemma_then_invalidate_keeps_log(
                c.store.tables(),
                path_vector_layer_spec(c, layer_id, when, path),
                layer_id,
                when,
            );
        },
        LayerEditView::SetName(name) => {
            let plan = Plan::Run(seq![UpdateView::PushLayerId(layer_id), UpdateView::PopLayerName(name)]);
            lemma_carry_out_keeps_log(c, plan);
        },
        LayerEditView::SetOrdering(_) => {},
    }
}

/// An edit keeps the edit log: what the edit applier does never writes it.
pub proof fn lemma_perform_edit_keeps_log<B: Brush>(brushes: B, c: CoreView, edit: AnimationEditView)
    ensures
        log_kept(c.store.tables(), apply_edit_spec(brushes, c, edit)),
{
    match edit {
        AnimationEditView::SetSize(width, height) => {
            lemma_carry_out_keeps_log(c, Plan::Run(seq![UpdateView::UpdateCanvasSize(width, height)]));
        },
        AnimationEditView::AddNewLayer(layer) => {
            lemma_carry_out_keeps_log(
                c,
                Plan::Run(
                    seq![
                        UpdateView::PushLayerType(crate::db::db_enum::LayerType::Vector),
                        UpdateView::PushAssignLayer(layer),
                        UpdateView::Pop,
                    ],
                ),
            );
        },
        AnimationEditView::RemoveLayer(layer) => {
            lemma_carry_out_keeps_log(
                c,
                Plan::Run(seq![UpdateView::PushLayerForAssignedId(layer), UpdateView::PopDeleteLayer]),
            );
        },
        AnimationEditView::Layer(assigned, layer_edit) => {
            lemma_edit_vector_layer_keeps_log(
                brushes,
                with_layer_id(c, assigned),
                layer_id_of(c, assigned),
                layer_edit,
            );
        },
        AnimationEditView::Element(ids, element_edit) => {
            lemma_edit_many_keeps_log(c, ids, element_edit);
        },
        AnimationEditView::Motion(id, motion_edit) => {
            lemma_motion_clean(id, motion_edit);
            lemma_carry_out_keeps_log(c, motion_plan(id, motion_edit));
        },
    }
}

/// Edits carried out in turn keep the edit log.
pub proof fn lemma_perform_all_keeps_log<B: Brush>(brushes: B, c: CoreView, edits: Seq<AnimationEditView>)
    ensures
        log_kept(c.store.tables(), perform_all_spec(brushes, c, edits)),
    decreases edits.len(),
{
    if edits.len() > 0 {
        lemma_perform_all_keeps_log(brushes, c, edits.drop_last());
        let (before, r) = perform_all_spec(brushes, c, edits.drop_last());
        if r is Ok {
            lemma_perform_edit_keeps_log(brushes, before, edits.last());
            if apply_edit_spec(brushes, before, edits.last()).1 is Ok {
                lemma_log_kept_twice(
                    c.store.tables(),
                    before.store.tables(),
                    apply_edit_spec(brushes, before, edits.last()).0.store.tables(),
                );
            }
        }
    }
}

/// An edit to many elements does not depend on the id for the next element.
proof fn lemma_edit_many_renumbered(c: CoreView, next: i64, ids: Seq<ElementId>, edit: ElementEditView)
    ensures
        edit_many_elements_spec(renumbered(c, next), ids, edit).0 == renumbered(
            edit_many_elements_spec(c, ids, edit).0,
            next,
        ),
        edit_many_elements_spec(renumbered(c, next), ids, edit).1 == edit_many_elements_spec(c, ids, edit).1,
    decreases ids.len(),
{
    if ids.len() > 0 {
        lemma_edit_many_renumbered(c, next, ids.drop_last(), edit);
    }
}

/// An edit does not depend on the id for the next element, and leaves it as it
/// is.
pub proof fn lemma_perform_edit_renumbered<B: Brush>(brushes: B, c: CoreView, next: i64, edit: AnimationEditView)
    ensures
        apply_edit_spec(brushes, renumbered(c, next), edit).0 == renumbered(
            apply_edit_spec(brushes, c, edit).0,
            next,
        ),
        apply_edit_spec(brushes, renumbered(c, next), edit).1 == apply_edit_spec(brushes, c, edit).1,
{
    match edit {
        AnimationEditView::Element(ids, element_edit) => {
            lemma_edit_many_renumbered(c, next, ids, element_edit);
        },
        AnimationEditView::Layer(assigned, layer_edit) => {
            assert(with_layer_id(renumbered(c, next), assigned) == renumbered(with_layer_id(c, assigned), next));
        },
        _ => {},
    }
}

/// Edits carried out in turn do not depend on the id for the next element.
pub proof fn lemma_perform_all_renumbered<B: Brush>(
    brushes: B,
    c: CoreView,
    next: i64,
    edits: Seq<AnimationEditView>,
)
    ensures
        perform_all_spec(brushes, renumbered(c, next), edits).0 == renumbered(
            perform_all_spec(brushes, c, edits).0,
            next,
        ),
        perform_all_spec(brushes, renumbered(c, next), edits).1 == perform_all_spec(brushes, c, edits).1,
    decreases edits.len(),
{
    if edits.len() > 0 {
        lemma_perform_all_renumbered(brushes, c, next, edits.drop_last());
        let (before, r) = perform_all_spec(brushes, c, edits.drop_last());
        lemma_perform_edit_renumbered(brushes, before, next, edits.last());
    }
}

/// Replay determinism. A batch of edits that a core over an empty store has
/// carried out can be read back from the edit log, with the element ids that
/// the edits were given; and a second core over an empty store that carries
/// out what was read back ends with the same store, tables and edit log, and
/// the same bookkeeping as the first.
pub proof fn lemma_replay_determinism<B: Brush>(brushes: B, edits: Seq<AnimationEditView>)
    requires
        perform_edits_spec(brushes, fresh(), edits).1 is Ok,
        fits(perform_edits_spec(brushes, fresh(), edits).0.store.tables()),
    ensures
        ({
            let first = perform_edits_spec(brushes, fresh(), edits).0;
            let log = first.store.tables().edits_between(0, first.store.tables().edit_log_length() as int);
            &&& log == Some(with_element_ids(edits, 0))
            &&& perform_edits_spec(brushes, fresh(), log.unwrap()).1 is Ok
            &&& perform_edits_spec(brushes, fresh(), log.unwrap()).0.store == first.store
            &&& perform_edits_spec(brushes, fresh(), log.unwrap()).0.book == first.book
            &&& replay_edits_spec(brushes, fresh(), log.unwrap()).1 is Ok
            &&& replay_edits_spec(brushes, fresh(), log.unwrap()).0.store == first.store
            &&& replay_edits_spec(brushes, fresh(), log.unwrap()).0.book == first.book
            &&& replay_edits_spec(brushes, fresh(), log.unwrap()).0.next_element_id >= first.next_element_id
        }),
{
    let c = fresh();
    let assigned = with_element_ids(edits, 0);
    let count = count_wanted(edits);
    let start = CoreView { store: c.store.queuing(), next_element_id: (0 + count) as i64, ..c };
    let updates = edits_log_updates(assigned);
    let (logged, r1) = submit(start, updates);
    let (done, r2) = perform_all_spec(brushes, logged, assigned);
    let first = perform_edits_spec(brushes, c, edits).0;
    assert(r1 is Ok);
    assert(r2 is Ok);
    assert(first.store == done.store.committed());

    // What was written can be read back once it is written
    reveal(StoreView::updated);
    let base = Machine::empty();
    assert(start.store.machine == base);
    assert(log_in_order(base.tables));
    lemma_perform_all_keeps_log(brushes, logged, assigned);
    assert(fits(logged.store.tables()));
    lemma_log_round_trip(base, assigned);
    lemma_assigned_len(edits, 0);

    // and still after the edits were carried out
    let t = first.store.tables();
    assert forall|k: int| 0 <= k < assigned.len() implies t.edit_at(0 + k) == Some(assigned[k]) by {
        lemma_same_log_same_edits(logged.store.tables(), done.store.tables(), k);
    }
    lemma_edits_between(t, 0, assigned);
    assert(t.edit_log_length() == assigned.len());

    // The second core does what the first did
    lemma_assign_idempotent(edits, 0, 0);
    lemma_assigned_len(assigned, 0);
    let start2 = CoreView { store: c.store.queuing(), next_element_id: (0 + count_wanted(assigned)) as i64, ..c };
    assert(start == renumbered(start2, count as i64));
    let (logged2, r3) = submit(start2, updates);
    assert(logged == renumbered(logged2, count as i64));
    lemma_perform_all_renumbered(brushes, logged2, count as i64, assigned);
    crate::laws::ids::lemma_count_wanted_grows(edits, 0, edits.len() as int);
    assert(edits.take(edits.len() as int) =~= edits);
}

/// The core after each of the edits was performed in turn; an edit that fails
/// leaves its error with the core, and the edits after it are not performed.
pub open spec fn perform_each_spec<B: Brush>(brushes: B, c: CoreView, edits: Seq<AnimationEditView>) -> CoreView
    decreases edits.len(),
{
    if edits.len() == 0 {
        c
    } else {
        perform_edit_spec(brushes, perform_each_spec(brushes, c, edits.drop_last()), edits.last()).0
    }
}

/// Replay determinism, edit by edit. Edits that were inserted into the edit
/// log of a core over an empty store are read back from the log as they
/// were; so a core over an empty store that performs, one by one, what was
/// read back ends as a core over an empty store that performs the edits
/// themselves: with the same tables, and so the same frames, layers and size.
pub proof fn lemma_replay_edit_by_edit<B: Brush>(brushes: B, edits: Seq<AnimationEditView>)
    requires
        insert_edits_spec(fresh(), edits).1 is Ok,
        fits(insert_edits_spec(fresh(), edits).0.store.tables()),
    ensures
        ({
            let written = insert_edits_spec(fresh(), edits).0.store.tables();
            &&& written.edit_log_length() == edits.len()
            &&& written.edits_between(0, edits.len() as int) == Some(edits)
            &&& perform_each_spec(brushes, fresh(), written.edits_between(0, edits.len() as int).unwrap())
                == perform_each_spec(brushes, fresh(), edits)
        }),
{
    reveal(StoreView::updated);
    let base = Machine::empty();
    assert(log_in_order(base.tables));
    lemma_log_round_trip(base, edits);
    let written = insert_edits_spec(fresh(), edits).0.store.tables();
    lemma_edits_between(written, 0, edits);
}

} // verus!
