//! The store held in memory.

use vstd::prelude::*;
use crate::animation::brush::{Bits64, BrushPoint, TimeMicros};
use crate::animation::cache_type::CacheType;
use crate::animation::element_id::ElementId;
use crate::animation::motion::TimePoint;
use crate::animation::path::{PathComponent, PathPoint};
use crate::db::db_enum::{EditLogType, PathPointType, VectorElementType};
use crate::db::engine::{copy_run, Engine};
use crate::db::engine_layer::find_nearest_key_frame;
use crate::db::error::StoreError;
use crate::db::flo_file::{FloFile, FloQuery, FloStore, StoreView};
use crate::db::flo_query::{attached_ids, attached_to_ids, key_frame_times, visible_elements, PathElementEntry};
use crate::db::flo_store::{updates_view, DatabaseUpdate};
use crate::db::matchers::{CacheAt, ElementAssigned, LayerAssigned};
use crate::db::points::parse_components;
use crate::db::relation::{find_by_key, find_by_match};
use crate::db::rows::{AttachRow, EditLogParam, EditLogRow, ElementDetail, ElementRow, KeyFrameRow, MotionRow, PathPointRow, TablesView};
use crate::db::step::Machine;
use crate::db::tables::Tables;

verus! {

/// A store whose tables are held in memory.
pub struct FloMemory {
    engine: Engine,
    saved: Option<Tables>,
}

/// Reads the components that stored points spell.
pub fn read_components(points: &Vec<PathPointRow>) -> (r: Option<Vec<PathComponent>>)
    ensures
        match r {
            Some(components) => parse_components(points@) == Some(components@),
            None => parse_components(points@) is None,
        },
{
    let mut out: Vec<PathComponent> = Vec::new();
    let mut k: usize = points.len();
    proof {
        assert(points@.take(k as int) =~= points@);
        match parse_components(points@) {
            Some(head) => {
                assert(head + out@ =~= head);
            },
            None => {},
        }
    }
    while k > 0
        invariant
            k <= points@.len(),
            parse_components(points@) == (match parse_components(points@.take(k as int)) {
                Some(head) => Some(head + out@),
                None => None,
            }),
        decreases k,
    {
        let ghost prefix = points@.take(k as int);
        let last = points[k - 1];
        proof {
            assert(prefix.last() == last);
            assert(prefix.drop_last() =~= points@.take(k - 1));
        }
        match last.kind {
            PathPointType::MoveTo => {
                out.insert(0, PathComponent::Move(PathPoint { position: last.position }));
                k -= 1;
            },
            PathPointType::LineTo => {
                out.insert(0, PathComponent::Line(PathPoint { position: last.position }));
                k -= 1;
            },
            PathPointType::Close => {
                out.insert(0, PathComponent::Close);
                k -= 1;
            },
            PathPointType::BezierTo => {
                if k < 3 {
                    return None;
                }
                let cp1 = points[k - 3];
                let cp2 = points[k - 2];
                proof {
                    assert(prefix[prefix.len() - 2] == cp2);
                    assert(prefix[prefix.len() - 3] == cp1);
                    assert(prefix.take(prefix.len() - 3) =~= points@.take(k - 3));
                }
                let ok1 = match cp1.kind {
                    PathPointType::ControlPoint => true,
                    _ => false,
                };
                let ok2 = match cp2.kind {
                    PathPointType::ControlPoint => true,
                    _ => false,
                };
                if !ok1 || !ok2 {
                    return None;
                }
                out.insert(
                    0,
                    PathComponent::Bezier(
                        PathPoint { position: last.position },
                        PathPoint { position: cp1.position },
                        PathPoint { position: cp2.position },
                    ),
                );
                k -= 3;
            },
            PathPointType::ControlPoint => {
                return None;
            },
        }
        proof {
            match parse_components(points@.take(k as int)) {
                Some(head) => {
                    assert(head.push(out@[0]) + out@.skip(1) =~= head + out@);
                },
                None => {},
            }
        }
    }
    proof {
        assert(points@.take(0) =~= Seq::empty());
        assert(Seq::<PathComponent>::empty() + out@ =~= out@);
    }
    Some(out)
}

/// Lists the elements of a key frame that show at `until`, in drawing order.
pub fn list_visible_elements(rows: &Vec<ElementRow>, key_frame: i64, until: TimeMicros) -> (r: Vec<ElementRow>)
    ensures
        r@ == visible_elements(rows@, key_frame, until),
{
    let mut out: Vec<ElementRow> = Vec::new();
    let mut i: usize = 0;
    while i < rows.len()
        invariant
            i <= rows@.len(),
            out@ == visible_elements(rows@.take(i as int), key_frame, until),
        decreases rows.len() - i,
    {
        proof {
            assert(rows@.take(i + 1).drop_last() =~= rows@.take(i as int));
        }
        match rows[i].frame {
            Some(f) => {
                if f.key_frame == key_frame && f.when <= until {
                    out.push(rows[i]);
                }
            },
            None => {},
        }
        i += 1;
    }
    proof {
        assert(rows@.take(i as int) =~= rows@);
    }
    out
}

/// Lists the ids of the elements attached to `element`.
pub fn list_attached(rows: &Vec<AttachRow>, element: i64) -> (r: Vec<i64>)
    ensures
        r@ == attached_ids(rows@, element),
{
    let mut out: Vec<i64> = Vec::new();
    let mut i: usize = 0;
    while i < rows.len()
        invariant
            i <= rows@.len(),
            out@ == attached_ids(rows@.take(i as int), element),
        decreases rows.len() - i,
    {
        proof {
            assert(rows@.take(i + 1).drop_last() =~= rows@.take(i as int));
        }
        if rows[i].element == element {
            out.push(rows[i].attached);
        }
        i += 1;
    }
    proof {
        assert(rows@.take(i as int) =~= rows@);
    }
    out
}

/// Lists the ids of the elements that `attached` is attached to.
pub fn list_attached_to(rows: &Vec<AttachRow>, attached: i64) -> (r: Vec<i64>)
    ensures
        r@ == attached_to_ids(rows@, attached),
{
    let mut out: Vec<i64> = Vec::new();
    let mut i: usize = 0;
    while i < rows.len()
        invariant
            i <= rows@.len(),
            out@ == attached_to_ids(rows@.take(i as int), attached),
        decreases rows.len() - i,
    {
        proof {
            assert(rows@.take(i + 1).drop_last() =~= rows@.take(i as int));
        }
        if rows[i].attached == attached {
            out.push(rows[i].element);
        }
        i += 1;
    }
    proof {
        assert(rows@.take(i as int) =~= rows@);
    }
    out
}

/// Lists the start times of the key frames of a layer.
pub fn list_key_frame_times(rows: &Vec<KeyFrameRow>, layer: i64) -> (r: Vec<TimeMicros>)
    ensures
        r@ == key_frame_times(rows@, layer),
{
    let mut out: Vec<TimeMicros> = Vec::new();
    let mut i: usize = 0;
    while i < rows.len()
        invariant
            i <= rows@.len(),
            out@ == key_frame_times(rows@.take(i as int), layer),
        decreases rows.len() - i,
    {
        proof {
            assert(rows@.take(i + 1).drop_last() =~= rows@.take(i as int));
        }
        if rows[i].layer == layer {
            out.push(rows[i].when);
        }
        i += 1;
    }
    proof {
        assert(rows@.take(i as int) =~= rows@);
    }
    out
}

impl FloMemory {
    /// A store that holds nothing.
    pub fn new() -> (r: FloMemory)
        ensures
            r.store() == StoreView::empty(),
    {
        FloMemory { engine: Engine::new(), saved: None }
    }

    /// Puts an entry that was read from a file back at the end of the edit log.
    pub fn restore_edit_log_entry(&mut self, edit_type: EditLogType, params: Vec<EditLogParam>)
        ensures
            final(self).store() == (StoreView {
                machine: Machine {
                    tables: TablesView {
                        edit_log: old(self).store().tables().edit_log.push(
                            EditLogRow {
                                edit_type,
                                first_param: old(self).store().tables().edit_params.len() as usize,
                            },
                        ),
                        edit_params: old(self).store().tables().edit_params + params@,
                        ..old(self).store().tables()
                    },
                    ..old(self).store().machine
                },
                ..old(self).store()
            }),
    {
        let mut params = params;
        let first_param = self.engine.tables.edit_params.len();
        self.engine.tables.edit_log.push(EditLogRow { edit_type, first_param });
        self.engine.tables.edit_params.append(&mut params);
    }

    /// Puts a string that was read from a file back at the end of the strings.
    pub fn restore_string(&mut self, text: String)
        ensures
            final(self).store() == (StoreView {
                machine: Machine {
                    tables: TablesView {
                        strings: old(self).store().tables().strings.push(text@),
                        ..old(self).store().tables()
                    },
                    ..old(self).store().machine
                },
                ..old(self).store()
            }),
    {
        self.engine.tables.strings.push(text);
        proof {
            assert(self.store().tables().strings =~= old(self).store().tables().strings.push(text@));
        }
    }

    /// The tables of a store in memory are no larger than tables held in
    /// memory can be.
    pub proof fn lemma_store_fits(&self)
        ensures
            crate::laws::frame::fits(self.store().tables()),
    {
        let t = &self.engine.tables;
        assert(t.edit_params@.len() == t.edit_params.len());
        assert(t.strings@.len() == t.strings.len());
        assert(t.path_points@.len() == t.path_points.len());
        assert(t.time_points@.len() == t.time_points.len());
    }

    /// The string at position `at`, if there is one.
    fn string_at(&self, at: usize) -> (r: Option<String>)
        ensures
            match r {
                Some(s) => self.store().tables().string_at(at) == Some(s@),
                None => self.store().tables().string_at(at) is None,
            },
    {
        if at < self.engine.tables.strings.len() {
            Some(self.engine.tables.strings[at].clone())
        } else {
            None
        }
    }
}

impl FloStore for FloMemory {
    closed spec fn store(&self) -> StoreView {
        StoreView {
            machine: self.engine@,
            saved: match self.saved {
                Some(tables) => Some(tables@),
                None => None,
            },
        }
    }

    fn update(&mut self, updates: Vec<DatabaseUpdate>) -> (r: Result<(), StoreError>) {
        proof {
            reveal(StoreView::updated);
        }
        let snapshot = match &self.saved {
            Some(_) => None,
            None => Some(self.engine.tables.snapshot()),
        };
        match self.engine.run_batch(&updates) {
            Ok(()) => Ok(()),
            Err(e) => {
                let mut saved: Option<Tables> = None;
                std::mem::swap(&mut self.saved, &mut saved);
                let restore = match saved {
                    Some(tables) => tables,
                    None => match snapshot {
                        Some(tables) => tables,
                        None => Tables::new(),
                    },
                };
                self.engine.tables = restore;
                self.engine.stack.clear();
                Err(e)
            },
        }
    }

    fn begin_queuing(&mut self) {
        match &self.saved {
            Some(_) => {},
            None => {
                self.saved = Some(self.engine.tables.snapshot());
            },
        }
    }

    fn execute_queue(&mut self) -> (r: Result<(), StoreError>) {
        self.saved = None;
        Ok(())
    }

    fn abandon_queue(&mut self) {
        let mut saved: Option<Tables> = None;
        std::mem::swap(&mut self.saved, &mut saved);
        match saved {
            Some(tables) => {
                self.engine.tables = tables;
            },
            None => {},
        }
        self.engine.stack.clear();
    }
}

impl FloQuery for FloMemory {
    fn query_size(&self) -> (r: Option<(Bits64, Bits64)>) {
        self.engine.tables.size
    }

    fn query_edit_log_length(&self) -> (r: usize) {
        self.engine.tables.edit_log.len()
    }

    fn query_edit_log_entry(&self, index: usize) -> (r: Option<(EditLogType, Vec<EditLogParam>)>) {
        let t = &self.engine.tables;
        if index >= t.edit_log.len() {
            return None;
        }
        let row = t.edit_log[index];
        let end = if index + 1 < t.edit_log.len() {
            t.edit_log[index + 1].first_param
        } else {
            t.edit_params.len()
        };
        if row.first_param > end || end > t.edit_params.len() {
            return None;
        }
        match copy_run(&t.edit_params, row.first_param, end - row.first_param) {
            Some(params) => Some((row.edit_type, params)),
            None => None,
        }
    }

    fn query_string(&self, at: usize) -> (r: Option<String>) {
        self.string_at(at)
    }

    fn query_vector_element(&self, id: i64) -> (r: Option<ElementRow>) {
        match find_by_key(&self.engine.tables.elements, id) {
            Some(i) => Some(self.engine.tables.elements[i]),
            None => None,
        }
    }

    fn query_vector_element_id(&self, id: &ElementId) -> (r: Option<i64>) {
        match id {
            ElementId::Unassigned => None,
            ElementId::Assigned(assigned) => match find_by_match(
                &self.engine.tables.elements,
                ElementAssigned(*assigned),
            ) {
                Some(i) => Some(self.engine.tables.elements[i].id),
                None => None,
            },
        }
    }

    fn query_vector_element_type_from_assigned_id(&self, assigned: i64) -> (r: Option<VectorElementType>) {
        match find_by_match(&self.engine.tables.elements, ElementAssigned(assigned)) {
            Some(i) => Some(self.engine.tables.elements[i].element_type),
            None => None,
        }
    }

    fn query_path_element(&self, id: i64) -> (r: Option<PathElementEntry>) {
        match find_by_key(&self.engine.tables.elements, id) {
            Some(i) => match self.engine.tables.elements[i].detail {
                ElementDetail::Path(path, brush, properties) => Some(
                    PathElementEntry {
                        element_id: id,
                        path_id: path,
                        brush_id: brush,
                        brush_properties_id: properties,
                    },
                ),
                _ => None,
            },
            None => None,
        }
    }

    fn query_path_components(&self, path: i64) -> (r: Option<Vec<PathComponent>>) {
        let t = &self.engine.tables;
        match find_by_key(&t.paths, path) {
            Some(i) => match copy_run(&t.path_points, t.paths[i].first, t.paths[i].count) {
                Some(points) => read_components(&points),
                None => None,
            },
            None => None,
        }
    }

    fn query_brush_points(&self, id: i64) -> (r: Option<Vec<BrushPoint>>) {
        let t = &self.engine.tables;
        match find_by_key(&t.elements, id) {
            Some(i) => match t.elements[i].detail {
                ElementDetail::BrushStroke(first, count) => copy_run(&t.brush_points, first, count),
                _ => None,
            },
            None => None,
        }
    }

    fn query_attached_elements(&self, element: i64) -> (r: Vec<i64>) {
        list_attached(&self.engine.tables.attachments, element)
    }

    fn query_elements_attached_to(&self, attached: i64) -> (r: Vec<i64>) {
        list_attached_to(&self.engine.tables.attachments, attached)
    }

    fn query_layer_id_for_assigned_id(&self, assigned: u64) -> (r: Option<(i64, Option<String>)>) {
        match find_by_match(&self.engine.tables.layers, LayerAssigned(assigned)) {
            Some(i) => {
                let row = self.engine.tables.layers[i];
                let name = match row.name {
                    Some(at) => self.string_at(at),
                    None => None,
                };
                Some((row.id, name))
            },
            None => None,
        }
    }

    fn query_key_frame_times(&self, layer: i64) -> (r: Vec<TimeMicros>) {
        list_key_frame_times(&self.engine.tables.key_frames, layer)
    }

    fn query_nearest_key_frame(&self, layer: i64, when: TimeMicros) -> (r: Option<KeyFrameRow>) {
        match find_nearest_key_frame(&self.engine.tables.key_frames, layer, when) {
            Some(i) => Some(self.engine.tables.key_frames[i]),
            None => None,
        }
    }

    fn query_frame_elements(&self, layer: i64, when: TimeMicros) -> (r: Vec<ElementRow>) {
        match find_nearest_key_frame(&self.engine.tables.key_frames, layer, when) {
            Some(i) => list_visible_elements(
                &self.engine.tables.elements,
                self.engine.tables.key_frames[i].id,
                when,
            ),
            None => Vec::new(),
        }
    }

    fn query_motion(&self, id: i64) -> (r: Option<MotionRow>) {
        match find_by_key(&self.engine.tables.motions, id) {
            Some(i) => Some(self.engine.tables.motions[i]),
            None => None,
        }
    }

    fn query_motion_path(&self, row: &MotionRow) -> (r: Option<Vec<TimePoint>>) {
        match row.path {
            Some(path) => copy_run(&self.engine.tables.motion_points, path.first, path.count),
            None => None,
        }
    }

    fn query_layer_cache(&self, cache_type: CacheType, layer: i64, when: TimeMicros) -> (r: Option<String>) {
        match find_by_match(&self.engine.tables.caches, CacheAt { layer, when, cache_type }) {
            Some(i) => self.string_at(self.engine.tables.caches[i].value),
            None => None,
        }
    }
}

impl FloFile for FloMemory {

}

} // verus!
