//! What can be asked of the tables.
//!
//! Every question is a function of the tables alone: two stores with the same
//! tables give the same answers.

use vstd::prelude::*;
use crate::animation::brush::{BrushPoint, TimeMicros};
use crate::animation::cache_type::CacheType;
use crate::animation::element_id::ElementId;
use crate::animation::motion::TimePoint;
use crate::animation::path::PathComponent;
use crate::db::db_enum::VectorElementType;
use crate::db::matchers::{CacheAt, ElementAssigned, LayerAssigned};
use crate::db::points::{parse_components, run_of};
use crate::db::relation::{find_key, find_match, Matcher};
use crate::db::rows::{AttachRow, EditLogParam, EditLogRow, ElementDetail, ElementRow, KeyFrameRow, LayerRow, MotionRow, PathPointRow, TablesView};
use crate::db::step::nearest_key_frame;

verus! {

/// A path element: the element, its path and the elements that style it.
#[derive(Clone, Copy, Debug, PartialEq, Eq)]
pub struct PathElementEntry {
    pub element_id: i64,
    pub path_id: i64,
    pub brush_id: i64,
    pub brush_properties_id: i64,
}

/// The elements of a key frame that show at `until`, in drawing order.
pub open spec fn visible_elements(rows: Seq<ElementRow>, key_frame: i64, until: TimeMicros) -> Seq<ElementRow>
    decreases rows.len(),
{
    if rows.len() == 0 {
        rows
    } else {
        let rest = visible_elements(rows.drop_last(), key_frame, until);
        match rows.last().frame {
            Some(f) => if f.key_frame == key_frame && f.when <= until {
                rest.push(rows.last())
            } else {
                rest
            },
            None => rest,
        }
    }
}

/// The ids of the elements attached to `element`, in the order in which they
/// were attached.
pub open spec fn attached_ids(rows: Seq<AttachRow>, element: i64) -> Seq<i64>
    decreases rows.len(),
{
    if rows.len() == 0 {
        Seq::empty()
    } else if rows.last().element == element {
        attached_ids(rows.drop_last(), element).push(rows.last().attached)
    } else {
        attached_ids(rows.drop_last(), element)
    }
}

/// The ids of the elements that `attached` is attached to, in the order in
/// which it was attached.
pub open spec fn attached_to_ids(rows: Seq<AttachRow>, attached: i64) -> Seq<i64>
    decreases rows.len(),
{
    if rows.len() == 0 {
        Seq::empty()
    } else if rows.last().attached == attached {
        attached_to_ids(rows.drop_last(), attached).push(rows.last().element)
    } else {
        attached_to_ids(rows.drop_last(), attached)
    }
}

/// The start times of the key frames of a layer, in the order of the table.
pub open spec fn key_frame_times(rows: Seq<KeyFrameRow>, layer: i64) -> Seq<TimeMicros>
    decreases rows.len(),
{
    if rows.len() == 0 {
        Seq::empty()
    } else if rows.last().layer == layer {
        key_frame_times(rows.drop_last(), layer).push(rows.last().when)
    } else {
        key_frame_times(rows.drop_last(), layer)
    }
}

impl TablesView {
    /// The number of entries of the edit log.
    pub open spec fn edit_log_length(self) -> nat {
        self.edit_log.len()
    }

    /// Where the parameters of the entry at position `i` end.
    pub open spec fn params_end(self, i: int) -> int {
        if i + 1 < self.edit_log.len() {
            self.edit_log[i + 1].first_param as int
        } else {
            self.edit_params.len() as int
        }
    }

    /// The parameters of the entry at position `i` of the edit log.
    pub open spec fn edit_log_params(self, i: int) -> Option<Seq<EditLogParam>> {
        if 0 <= i < self.edit_log.len() && self.edit_log[i].first_param <= self.params_end(i)
            <= self.edit_params.len() {
            Some(self.edit_params.subrange(self.edit_log[i].first_param as int, self.params_end(i)))
        } else {
            None
        }
    }

    /// The string at position `at` of the strings.
    pub open spec fn string_at(self, at: usize) -> Option<Seq<char>> {
        if at < self.strings.len() {
            Some(self.strings[at as int])
        } else {
            None
        }
    }

    /// The element with the id `id`.
    pub open spec fn element(self, id: i64) -> Option<ElementRow> {
        match find_key(self.elements, id) {
            Some(i) => Some(self.elements[i]),
            None => None,
        }
    }

    /// The element with the assigned id `assigned`.
    pub open spec fn element_for_assigned(self, assigned: i64) -> Option<ElementRow> {
        match find_match(self.elements, ElementAssigned(assigned)) {
            Some(i) => Some(self.elements[i]),
            None => None,
        }
    }

    /// The id of the element that `id` names, if it names one.
    pub open spec fn element_id(self, id: ElementId) -> Option<i64> {
        match id {
            ElementId::Unassigned => None,
            ElementId::Assigned(assigned) => match self.element_for_assigned(assigned) {
                Some(row) => Some(row.id),
                None => None,
            },
        }
    }

    /// The type of the element with the assigned id `assigned`.
    pub open spec fn element_type_for_assigned(self, assigned: i64) -> Option<VectorElementType> {
        match self.element_for_assigned(assigned) {
            Some(row) => Some(row.element_type),
            None => None,
        }
    }

    /// The path element with the id `id`, if that element is a path.
    pub open spec fn path_element(self, id: i64) -> Option<PathElementEntry> {
        match self.element(id) {
            Some(row) => match row.detail {
                ElementDetail::Path(path, brush, properties) => Some(
                    PathElementEntry {
                        element_id: id,
                        path_id: path,
                        brush_id: brush,
                        brush_properties_id: properties,
                    },
                ),
                _ => None,
            },
            None => None,
        }
    }

    /// The stored points of the path with the id `path`.
    pub open spec fn path_points_of(self, path: i64) -> Option<Seq<PathPointRow>> {
        match find_key(self.paths, path) {
            Some(i) => run_of(self.path_points, self.paths[i].first, self.paths[i].count),
            None => None,
        }
    }

    /// The components of the path with the id `path`, if its points spell any.
    pub open spec fn path_components(self, path: i64) -> Option<Seq<PathComponent>> {
        match self.path_points_of(path) {
            Some(points) => parse_components(points),
            None => None,
        }
    }

    /// The points of the brush stroke with the id `id`.
    pub open spec fn brush_points_of(self, id: i64) -> Option<Seq<BrushPoint>> {
        match self.element(id) {
            Some(row) => match row.detail {
                ElementDetail::BrushStroke(first, count) => run_of(self.brush_points, first, count),
                _ => None,
            },
            None => None,
        }
    }

    /// The layer with the user-facing id `assigned`.
    pub open spec fn layer_for_assigned(self, assigned: u64) -> Option<LayerRow> {
        match find_match(self.layers, LayerAssigned(assigned)) {
            Some(i) => Some(self.layers[i]),
            None => None,
        }
    }

    /// The name of a layer.
    pub open spec fn layer_name(self, row: LayerRow) -> Option<Seq<char>> {
        match row.name {
            Some(at) => self.string_at(at),
            None => None,
        }
    }

    /// The key frame of `layer` that is the nearest at or before `when`.
    pub open spec fn nearest_key_frame_of(self, layer: i64, when: TimeMicros) -> Option<KeyFrameRow> {
        match nearest_key_frame(self.key_frames, layer, when) {
            Some(i) => Some(self.key_frames[i]),
            None => None,
        }
    }

    /// The elements that show in `layer` at `when`, the one drawn first first:
    /// those of the nearest key frame that appear no later than `when`.
    pub open spec fn frame_elements(self, layer: i64, when: TimeMicros) -> Seq<ElementRow> {
        match self.nearest_key_frame_of(layer, when) {
            Some(key_frame) => visible_elements(self.elements, key_frame.id, when),
            None => Seq::empty(),
        }
    }

    /// The motion with the id `id`.
    pub open spec fn motion(self, id: i64) -> Option<MotionRow> {
        match find_key(self.motions, id) {
            Some(i) => Some(self.motions[i]),
            None => None,
        }
    }

    /// The points of the path of a motion.
    pub open spec fn motion_path_points(self, row: MotionRow) -> Option<Seq<TimePoint>> {
        match row.path {
            Some(path) => run_of(self.motion_points, path.first, path.count),
            None => None,
        }
    }

    /// What is cached of one kind for `layer` at `when`.
    pub open spec fn layer_cache(self, cache_type: CacheType, layer: i64, when: TimeMicros) -> Option<Seq<char>> {
        match find_match(self.caches, CacheAt { layer, when, cache_type }) {
            Some(i) => self.string_at(self.caches[i].value),
            None => None,
        }
    }
}

} // verus!
