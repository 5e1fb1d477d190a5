//! Where edits enter the core: batches of edits that take effect as a whole or
//! not at all, and the error that stays until it is taken away.

use std::collections::HashMap;
use vstd::prelude::*;
use crate::animation::brushes::Brush;
use crate::animation::edit::{edits_view, AnimationEdit, AnimationEditView, LayerEdit, PaintEdit, PathEdit};
use crate::db::animation_core::{count_wanted, submit, wants_element_id, with_element_ids, AnimationDbCore, Bookkeeping, CoreView, EditOutcome};
use crate::db::error::StoreError;
use crate::db::flo_file::{FloFile, FloQuery, FloStore, StoreView};
use crate::db::insert_editlog::edits_log_updates;
use crate::db::perform_edit::apply_edit_spec;
use crate::laws::atomic::lemma_batch_keeps_ids;

verus! {

broadcast use vstd::std_specs::hash::group_hash_axioms;

/// The core after each of the edits was carried out in turn, up to the first
/// that fails, and whether one failed.
pub open spec fn perform_all_spec<B: Brush>(brushes: B, c: CoreView, edits: Seq<AnimationEditView>) -> (
    CoreView,
    Result<(), StoreError>,
)
    decreases edits.len(),
{
    if edits.len() == 0 {
        (c, Ok(()))
    } else {
        let (before, r) = perform_all_spec(brushes, c, edits.drop_last());
        match r {
            Err(e) => (before, Err(e)),
            Ok(()) => {
                let (after, r) = apply_edit_spec(brushes, before, edits.last());
                match r {
                    Err(e) => (after, Err(e)),
                    Ok(_) => (after, Ok(())),
                }
            },
        }
    }
}

/// The core after a batch of edits failed with `e`: the store is where the
/// failure left it, the bookkeeping is what it was before the batch, and the
/// error stays with the core.
pub open spec fn failed(before: CoreView, now: CoreView, e: StoreError) -> (CoreView, Result<(), StoreError>) {
    (CoreView { failure: Some(e), book: before.book, ..now }, Err(e))
}

/// The core after a batch of edits, and what the batch returns.
///
/// While an earlier error stays with the core, nothing is done. Otherwise the
/// edits get their element ids, are written to the edit log and are carried
/// out, all of this queued; the first failure undoes all of it but the ids
/// that were handed out.
pub open spec fn perform_edits_spec<B: Brush>(brushes: B, c: CoreView, edits: Seq<AnimationEditView>) -> (
    CoreView,
    Result<(), StoreError>,
) {
    match c.failure {
        Some(e) => (c, Err(e)),
        None => {
            if count_wanted(edits) > i64::MAX || c.next_element_id + count_wanted(edits) > i64::MAX {
                (CoreView { failure: Some(StoreError::OutOfIds), ..c }, Err(StoreError::OutOfIds))
            } else {
                let assigned = with_element_ids(edits, c.next_element_id as int);
                let start = CoreView {
                    store: c.store.queuing(),
                    next_element_id: (c.next_element_id + count_wanted(edits)) as i64,
                    ..c
                };
                let (logged, r) = submit(start, edits_log_updates(assigned));
                match r {
                    Err(e) => failed(c, logged, e),
                    Ok(()) => {
                        let (done, r) = perform_all_spec(brushes, logged, assigned);
                        match r {
                            Err(e) => failed(c, done, e),
                            Ok(()) => (CoreView { store: done.store.committed(), ..done }, Ok(())),
                        }
                    },
                }
            }
        },
    }
}

/// The id for the next element that is no smaller than `next` and no smaller
/// than the length of the edit log, as far as ids go.
pub open spec fn at_least_log_length(next: i64, length: nat) -> i64 {
    let floor = if length <= i64::MAX {
        length as i64
    } else {
        i64::MAX
    };
    if next >= floor {
        next
    } else {
        floor
    }
}

/// The core after a batch of edits that was read from an edit log was
/// replayed, and what replaying it returns: the edits are performed as a
/// batch, and element ids are then handed out from the length of the edit log
/// on, so that no id of the replayed edits is handed out again.
pub open spec fn replay_edits_spec<B: Brush>(brushes: B, c: CoreView, edits: Seq<AnimationEditView>) -> (
    CoreView,
    Result<(), StoreError>,
) {
    let (after, r) = perform_edits_spec(brushes, c, edits);
    (
        CoreView {
            next_element_id: at_least_log_length(
                after.next_element_id,
                after.store.tables().edit_log_length(),
            ),
            ..after
        },
        r,
    )
}

impl<TFile: FloFile, TBrush: Brush> AnimationDbCore<TFile, TBrush> {
    /// Creates a new core over a store. Element ids are assigned from the length
    /// of the edit log on, so that ids handed out before the store was closed
    /// are not handed out again.
    pub fn new(db: TFile, brushes: TBrush) -> (core: AnimationDbCore<TFile, TBrush>)
        ensures
            core@.store == db.store(),
            core@.failure is None,
            core@.book == Bookkeeping::empty(),
            core@.next_element_id == (if db.store().tables().edit_log_length() <= i64::MAX {
                db.store().tables().edit_log_length() as i64
            } else {
                i64::MAX
            }),
            core.brushes == brushes,
    {
        // We begin assigning element IDs at the current length of the edit log
        let length = db.query_edit_log_length();
        let initial_element_id = if length as u64 <= i64::MAX as u64 {
            length as i64
        } else {
            i64::MAX
        };
        AnimationDbCore {
            db,
            brushes,
            failure: None,
            active_brush_for_layer: HashMap::new(),
            layer_id_for_assigned_id: HashMap::new(),
            path_properties_for_layer: HashMap::new(),
            brush_properties_for_layer: HashMap::new(),
            next_element_id: initial_element_id,
        }
    }

    /// If there has been an error, retrieves what it is and clears the condition
    pub fn retrieve_and_clear_error(&mut self) -> (failure: Option<StoreError>)
        ensures
            failure == old(self)@.failure,
            final(self)@ == (CoreView { failure: None, ..old(self)@ }),
            final(self).brushes == old(self).brushes,
    {
        let failure = self.failure;
        self.failure = None;
        failure
    }

    /// Records a failure that happened outside the core, such as a file that
    /// could not be written. No edit is carried out until the failure is taken
    /// away; a failure that is there already stays.
    pub fn record_failure(&mut self, failure: StoreError)
        ensures
            final(self)@ == (CoreView {
                failure: Some(
                    match old(self)@.failure {
                        Some(earlier) => earlier,
                        None => failure,
                    },
                ),
                ..old(self)@
            }),
            final(self).brushes == old(self).brushes,
    {
        match self.failure {
            Some(_) => {},
            None => {
                self.failure = Some(failure);
            },
        }
    }

    /// Retrieves the number of edits in the animation
    pub fn get_num_edits(&self) -> (n: usize)
        ensures
            n == self@.store.tables().edit_log_length(),
    {
        self.db.query_edit_log_length()
    }

    /// Carries out each of the edits in turn, up to the first that fails.
    fn perform_all(&mut self, edits: &Vec<AnimationEdit>) -> (r: Result<(), StoreError>)
        ensures
            final(self)@ == perform_all_spec(old(self).brushes, old(self)@, edits_view(edits@)).0,
            r == perform_all_spec(old(self).brushes, old(self)@, edits_view(edits@)).1,
            r is Ok ==> final(self)@.store.depth() == old(self)@.store.depth(),
            final(self).brushes == old(self).brushes,
    {
        let ghost all = edits_view(edits@);
        let mut i: usize = 0;
        proof {
            assert(all.take(0) =~= Seq::empty());
        }
        while i < edits.len()
            invariant
                i <= edits@.len(),
                all == edits_view(edits@),
                self@ == perform_all_spec(old(self).brushes, old(self)@, all.take(i as int)).0,
                perform_all_spec(old(self).brushes, old(self)@, all.take(i as int)).1 is Ok,
                self@.store.depth() == old(self)@.store.depth(),
                self.brushes == old(self).brushes,
            decreases edits.len() - i,
        {
            proof {
                assert(all.take(i + 1).drop_last() =~= all.take(i as int));
                assert(all.take(i + 1).last() == edits@[i as int]@);
            }
            match self.apply_edit(&edits[i]) {
                Err(e) => {
                    proof {
                        lemma_all_fails(old(self).brushes, old(self)@, all, i + 1);
                    }
                    return Err(e);
                },
                Ok(_) => {},
            }
            i += 1;
        }
        proof {
            assert(all.take(i as int) =~= all);
        }
        Ok(())
    }

    /// Replays a batch of edits that was read from an edit log: performs them as
    /// a batch, and hands out element ids from the length of the edit log on
    /// afterwards. The id for the next element never goes down.
    pub fn replay_edits(&mut self, edits: Vec<AnimationEdit>) -> (r: Result<(), StoreError>)
        ensures
            final(self)@ == replay_edits_spec(old(self).brushes, old(self)@, edits_view(edits@)).0,
            r == replay_edits_spec(old(self).brushes, old(self)@, edits_view(edits@)).1,
            final(self)@.next_element_id >= old(self)@.next_element_id,
            final(self)@.next_element_id >= final(self)@.store.tables().edit_log_length()
                || final(self)@.next_element_id == i64::MAX,
            r is Ok ==> final(self)@.store.depth() == old(self)@.store.depth(),
            final(self).brushes == old(self).brushes,
    {
        proof {
            lemma_batch_keeps_ids(self.brushes, self@, edits_view(edits@));
        }
        let result = self.perform_edits(edits);
        let length = self.db.query_edit_log_length();
        let floor = if length as u64 <= i64::MAX as u64 {
            length as i64
        } else {
            i64::MAX
        };
        if self.next_element_id < floor {
            self.next_element_id = floor;
        }
        result
    }

    /// Performs a batch of edits: assigns their element ids, writes them to the
    /// edit log and carries them out. The batch takes effect as a whole or not
    /// at all, and an error stays with the core until it is taken away.
    pub fn perform_edits(&mut self, edits: Vec<AnimationEdit>) -> (r: Result<(), StoreError>)
        ensures
            final(self)@ == perform_edits_spec(old(self).brushes, old(self)@, edits_view(edits@)).0,
            r == perform_edits_spec(old(self).brushes, old(self)@, edits_view(edits@)).1,
            r is Ok ==> final(self)@.store.depth() == old(self)@.store.depth(),
            final(self).brushes == old(self).brushes,
    {
        match self.failure {
            Some(e) => {
                return Err(e);
            },
            None => {},
        }
        let wanted = count_wanted_ids(&edits);
        if wanted as u64 > i64::MAX as u64 || self.next_element_id > i64::MAX - (wanted as i64) {
            self.failure = Some(StoreError::OutOfIds);
            return Err(StoreError::OutOfIds);
        }
        // What the core has noted is put back if the batch fails
        let path_properties = self.path_properties_for_layer.clone();
        let brush_properties = self.brush_properties_for_layer.clone();
        let active_brush = self.active_brush_for_layer.clone();
        let layer_ids = self.layer_id_for_assigned_id.clone();

        let edits = self.assign_element_ids(edits);
        self.db.begin_queuing();
        let mut result = self.write_edits(&edits);
        match result {
            Ok(()) => {
                result = self.perform_all(&edits);
            },
            Err(_) => {},
        }
        match result {
            Ok(()) => {
                let _ = self.db.execute_queue();
                Ok(())
            },
            Err(e) => {
                self.path_properties_for_layer = path_properties;
                self.brush_properties_for_layer = brush_properties;
                self.active_brush_for_layer = active_brush;
                self.layer_id_for_assigned_id = layer_ids;
                self.failure = Some(e);
                Err(e)
            },
        }
    }
}

/// True if the edit creates an element and does not say under which id.
pub fn wants_id(edit: &AnimationEdit) -> (r: bool)
    ensures
        r == wants_element_id(edit@),
{
    match edit {
        AnimationEdit::Layer(_, LayerEdit::Paint(_, paint)) => match paint {
            PaintEdit::BrushProperties(id, _) => id.is_unassigned(),
            PaintEdit::SelectBrush(id, _, _) => id.is_unassigned(),
            PaintEdit::BrushStroke(id, _) => id.is_unassigned(),
        },
        AnimationEdit::Layer(_, LayerEdit::Path(_, path)) => match path {
            PathEdit::CreatePath(id, _) => id.is_unassigned(),
            PathEdit::SelectBrush(id, _, _) => id.is_unassigned(),
            PathEdit::BrushProperties(id, _) => id.is_unassigned(),
        },
        _ => false,
    }
}

/// Counts the edits that create an element without saying under which id.
pub fn count_wanted_ids(edits: &Vec<AnimationEdit>) -> (n: usize)
    ensures
        n == count_wanted(edits_view(edits@)),
{
    let ghost all = edits_view(edits@);
    let mut n: usize = 0;
    let mut i: usize = 0;
    proof {
        assert(all.take(0) =~= Seq::empty());
    }
    while i < edits.len()
        invariant
            i <= edits@.len(),
            all == edits_view(edits@),
            n == count_wanted(all.take(i as int)),
            n <= i,
        decreases edits.len() - i,
    {
        proof {
            assert(all.take(i + 1).drop_last() =~= all.take(i as int));
            assert(all.take(i + 1).last() == edits@[i as int]@);
        }
        if wants_id(&edits[i]) {
            n += 1;
        }
        i += 1;
    }
    proof {
        assert(all.take(i as int) =~= all);
    }
    n
}

/// A batch of edits fails with the error of the first edit at which it fails.
proof fn lemma_all_fails<B: Brush>(brushes: B, c: CoreView, edits: Seq<AnimationEditView>, k: int)
    requires
        0 <= k <= edits.len(),
        perform_all_spec(brushes, c, edits.take(k)).1 is Err,
    ensures
        perform_all_spec(brushes, c, edits) == perform_all_spec(brushes, c, edits.take(k)),
    decreases edits.len(),
{
    if k == edits.len() {
        assert(edits.take(k) =~= edits);
    } else {
        assert(edits.drop_last().take(k) =~= edits.take(k));
        lemma_all_fails(brushes, c, edits.drop_last(), k);
    }
}

} // verus!
