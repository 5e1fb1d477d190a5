//! The interface between the animation core and what stores its data.
//!
//! A store takes batches of instructions and answers questions. A batch takes
//! effect as a whole or not at all, and so does everything that is submitted
//! between `begin_queuing` and `execute_queue`.

use vstd::prelude::*;
use crate::animation::brush::{Bits64, BrushPoint, TimeMicros};
use crate::animation::cache_type::CacheType;
use crate::animation::element_id::ElementId;
use crate::animation::motion::TimePoint;
use crate::animation::path::PathComponent;
use crate::db::db_enum::{EditLogType, VectorElementType};
use crate::db::error::StoreError;
use crate::db::flo_query::{attached_ids, attached_to_ids, key_frame_times, PathElementEntry};
use crate::db::flo_store::{updates_view, DatabaseUpdate, UpdateView};
use crate::db::rows::{EditLogParam, ElementRow, KeyFrameRow, MotionRow, TablesView};
use crate::db::step::{batch_safe, run, Machine};

verus! {

/// A store as a mathematical value: its tables and stack, and what its tables
/// held when queuing began.
pub ghost struct StoreView {
    pub machine: Machine,
    /// The tables to go back to if something fails; `Some` while queuing
    pub saved: Option<TablesView>,
}

impl StoreView {
    /// A store that holds nothing.
    pub open spec fn empty() -> StoreView {
        StoreView { machine: Machine::empty(), saved: None }
    }

    /// The tables of the store.
    pub open spec fn tables(self) -> TablesView {
        self.machine.tables
    }

    /// The depth of the stack.
    pub open spec fn depth(self) -> int {
        self.machine.stack.len() as int
    }

    /// The tables that a failure takes the store back to.
    pub open spec fn fallback(self) -> TablesView {
        match self.saved {
            Some(tables) => tables,
            None => self.machine.tables,
        }
    }

    /// The store after a failure: its tables are what they were when queuing
    /// began (or, when it was not queuing, before the batch), the stack is empty
    /// and queuing is over.
    pub open spec fn rolled_back(self) -> StoreView {
        StoreView { machine: Machine { tables: self.fallback(), stack: Seq::empty() }, saved: None }
    }

    /// The store once queuing has begun.
    pub open spec fn queuing(self) -> StoreView {
        StoreView { machine: self.machine, saved: Some(self.fallback()) }
    }

    /// The store once what was queued is accepted.
    pub open spec fn committed(self) -> StoreView {
        StoreView { machine: self.machine, saved: None }
    }

    /// The store after a batch, and what the batch returns.
    #[verifier::opaque]
    pub open spec fn updated(self, updates: Seq<UpdateView>) -> (StoreView, Result<(), StoreError>) {
        match run(self.machine, updates) {
            Ok(m) => (StoreView { machine: m, saved: self.saved }, Ok(())),
            Err(e) => (self.rolled_back(), Err(e)),
        }
    }
}

/// What takes instructions.
pub trait FloStore {
    /// The store as a mathematical value.
    spec fn store(&self) -> StoreView;

    /// Carries out a batch of instructions. If one of them fails, the tables go
    /// back to what they were before the batch, or, while queuing, to what they
    /// were when queuing began.
    fn update(&mut self, updates: Vec<DatabaseUpdate>) -> (r: Result<(), StoreError>)
        requires
            batch_safe(old(self).store().depth(), updates_view(updates@)),
        ensures
            final(self).store() == old(self).store().updated(updates_view(updates@)).0,
            r == old(self).store().updated(updates_view(updates@)).1,
    ;

    /// From here on, batches take effect together or not at all.
    fn begin_queuing(&mut self)
        ensures
            final(self).store() == old(self).store().queuing(),
    ;

    /// Accepts what was done since queuing began.
    fn execute_queue(&mut self) -> (r: Result<(), StoreError>)
        ensures
            r is Ok,
            final(self).store() == old(self).store().committed(),
    ;

    /// Undoes what was done since queuing began and empties the stack.
    fn abandon_queue(&mut self)
        ensures
            final(self).store() == old(self).store().rolled_back(),
    ;
}

/// What answers questions.
pub trait FloQuery: FloStore {
    /// The size of the canvas, once it is set.
    fn query_size(&self) -> (r: Option<(Bits64, Bits64)>)
        ensures
            r == self.store().tables().size,
    ;

    /// The number of entries of the edit log.
    fn query_edit_log_length(&self) -> (r: usize)
        ensures
            r == self.store().tables().edit_log_length(),
    ;

    /// The tag and the parameters of the entry at position `index` of the edit log.
    fn query_edit_log_entry(&self, index: usize) -> (r: Option<(EditLogType, Vec<EditLogParam>)>)
        ensures
            match r {
                Some((edit_type, params)) => index < self.store().tables().edit_log.len()
                    && edit_type == self.store().tables().edit_log[index as int].edit_type
                    && self.store().tables().edit_log_params(index as int) == Some(params@),
                None => self.store().tables().edit_log_params(index as int) is None,
            },
    ;

    /// The string at position `at` of the strings.
    fn query_string(&self, at: usize) -> (r: Option<String>)
        ensures
            match r {
                Some(s) => self.store().tables().string_at(at) == Some(s@),
                None => self.store().tables().string_at(at) is None,
            },
    ;

    /// The element with the id `id`.
    fn query_vector_element(&self, id: i64) -> (r: Option<ElementRow>)
        ensures
            r == self.store().tables().element(id),
    ;

    /// The id of the element that `id` names, if it names one.
    fn query_vector_element_id(&self, id: &ElementId) -> (r: Option<i64>)
        ensures
            r == self.store().tables().element_id(*id),
    ;

    /// The type of the element with the assigned id `assigned`.
    fn query_vector_element_type_from_assigned_id(&self, assigned: i64) -> (r: Option<VectorElementType>)
        ensures
            r == self.store().tables().element_type_for_assigned(assigned),
    ;

    /// The path element with the id `id`, if that element is a path.
    fn query_path_element(&self, id: i64) -> (r: Option<PathElementEntry>)
        ensures
            r == self.store().tables().path_element(id),
    ;

    /// The components of the path with the id `path`, if its points spell any.
    fn query_path_components(&self, path: i64) -> (r: Option<Vec<PathComponent>>)
        ensures
            match r {
                Some(components) => self.store().tables().path_components(path) == Some(components@),
                None => self.store().tables().path_components(path) is None,
            },
    ;

    /// The points of the brush stroke with the id `id`.
    fn query_brush_points(&self, id: i64) -> (r: Option<Vec<BrushPoint>>)
        ensures
            match r {
                Some(points) => self.store().tables().brush_points_of(id) == Some(points@),
                None => self.store().tables().brush_points_of(id) is None,
            },
    ;

    /// The ids of the elements attached to `element`, in the order in which
    /// they were attached.
    fn query_attached_elements(&self, element: i64) -> (r: Vec<i64>)
        ensures
            r@ == attached_ids(self.store().tables().attachments, element),
    ;

    /// The ids of the elements that `attached` is attached to.
    fn query_elements_attached_to(&self, attached: i64) -> (r: Vec<i64>)
        ensures
            r@ == attached_to_ids(self.store().tables().attachments, attached),
    ;

    /// The id and the name of the layer with the user-facing id `assigned`.
    fn query_layer_id_for_assigned_id(&self, assigned: u64) -> (r: Option<(i64, Option<String>)>)
        ensures
            match r {
                Some((id, name)) => self.store().tables().layer_for_assigned(assigned) matches Some(row)
                    && id == row.id && (match name {
                    Some(s) => self.store().tables().layer_name(row) == Some(s@),
                    None => self.store().tables().layer_name(row) is None,
                }),
                None => self.store().tables().layer_for_assigned(assigned) is None,
            },
    ;

    /// The start times of the key frames of a layer.
    fn query_key_frame_times(&self, layer: i64) -> (r: Vec<TimeMicros>)
        ensures
            r@ == key_frame_times(self.store().tables().key_frames, layer),
    ;

    /// The key frame of `layer` that is the nearest at or before `when`.
    fn query_nearest_key_frame(&self, layer: i64, when: TimeMicros) -> (r: Option<KeyFrameRow>)
        ensures
            r == self.store().tables().nearest_key_frame_of(layer, when),
    ;

    /// The elements that show in `layer` at `when`, the one drawn first first.
    fn query_frame_elements(&self, layer: i64, when: TimeMicros) -> (r: Vec<ElementRow>)
        ensures
            r@ == self.store().tables().frame_elements(layer, when),
    ;

    /// The motion with the id `id`.
    fn query_motion(&self, id: i64) -> (r: Option<MotionRow>)
        ensures
            r == self.store().tables().motion(id),
    ;

    /// The points of the path of a motion.
    fn query_motion_path(&self, row: &MotionRow) -> (r: Option<Vec<TimePoint>>)
        ensures
            match r {
                Some(points) => self.store().tables().motion_path_points(*row) == Some(points@),
                None => self.store().tables().motion_path_points(*row) is None,
            },
    ;

    /// What is cached of one kind for `layer` at `when`.
    fn query_layer_cache(&self, cache_type: CacheType, layer: i64, when: TimeMicros) -> (r: Option<String>)
        ensures
            match r {
                Some(s) => self.store().tables().layer_cache(cache_type, layer, when) == Some(s@),
                None => self.store().tables().layer_cache(cache_type, layer, when) is None,
            },
    ;
}

/// A store that takes instructions and answers questions.
pub trait FloFile: FloStore + FloQuery {

}

} // verus!
