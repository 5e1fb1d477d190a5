//! The tables of the store as they are held in memory.

use vstd::prelude::*;
use crate::animation::brush::{Bits64, BrushPoint};
use crate::animation::motion::TimePoint;
use crate::db::rows::{AttachRow, BrushPropertiesRow, BrushRow, CacheRow, ColorRow, EditLogParam, EditLogRow, ElementRow, KeyFrameRow, LayerRow, MotionRow, PathPointRow, PathRow, TablesView, TimePointRow};

verus! {

/// What a list of strings holds.
pub open spec fn strings_view(strings: Seq<String>) -> Seq<Seq<char>> {
    Seq::new(strings.len(), |i: int| strings[i]@)
}

/// The tables of the store.
pub(crate) struct Tables {
    pub(crate) next_id: i64,
    pub(crate) size: Option<(Bits64, Bits64)>,
    pub(crate) edit_log: Vec<EditLogRow>,
    pub(crate) edit_params: Vec<EditLogParam>,
    pub(crate) strings: Vec<String>,
    pub(crate) brushes: Vec<BrushRow>,
    pub(crate) colors: Vec<ColorRow>,
    pub(crate) brush_properties: Vec<BrushPropertiesRow>,
    pub(crate) paths: Vec<PathRow>,
    pub(crate) path_points: Vec<PathPointRow>,
    pub(crate) time_points: Vec<TimePointRow>,
    pub(crate) layers: Vec<LayerRow>,
    pub(crate) key_frames: Vec<KeyFrameRow>,
    pub(crate) elements: Vec<ElementRow>,
    pub(crate) attachments: Vec<AttachRow>,
    pub(crate) brush_points: Vec<BrushPoint>,
    pub(crate) motions: Vec<MotionRow>,
    pub(crate) motion_points: Vec<TimePoint>,
    pub(crate) caches: Vec<CacheRow>,
}

/// Copies a list of rows.
pub fn copy_rows<T: Copy>(rows: &Vec<T>) -> (r: Vec<T>)
    ensures
        r@ == rows@,
{
    let mut out: Vec<T> = Vec::new();
    let mut i: usize = 0;
    while i < rows.len()
        invariant
            i <= rows@.len(),
            out@ == rows@.take(i as int),
        decreases rows.len() - i,
    {
        out.push(rows[i]);
        proof {
            assert(out@ =~= rows@.take(i + 1));
        }
        i += 1;
    }
    proof {
        assert(rows@.take(i as int) =~= rows@);
    }
    out
}

/// Copies a list of strings.
pub fn copy_strings(strings: &Vec<String>) -> (r: Vec<String>)
    ensures
        strings_view(r@) == strings_view(strings@),
{
    let mut out: Vec<String> = Vec::new();
    let mut i: usize = 0;
    while i < strings.len()
        invariant
            i <= strings@.len(),
            out@.len() == i,
            forall|j: int| 0 <= j < i ==> out@[j]@ == strings@[j]@,
        decreases strings.len() - i,
    {
        let s = strings[i].clone();
        out.push(s);
        i += 1;
    }
    proof {
        assert(strings_view(out@) =~= strings_view(strings@));
    }
    out
}

impl Tables {
    /// The tables as mathematical sequences.
    pub open(crate) spec fn view(&self) -> TablesView {
        TablesView {
            next_id: self.next_id,
            size: self.size,
            edit_log: self.edit_log@,
            edit_params: self.edit_params@,
            strings: strings_view(self.strings@),
            brushes: self.brushes@,
            colors: self.colors@,
            brush_properties: self.brush_properties@,
            paths: self.paths@,
            path_points: self.path_points@,
            time_points: self.time_points@,
            layers: self.layers@,
            key_frames: self.key_frames@,
            elements: self.elements@,
            attachments: self.attachments@,
            brush_points: self.brush_points@,
            motions: self.motions@,
            motion_points: self.motion_points@,
            caches: self.caches@,
        }
    }

    /// Tables that hold nothing.
    pub(crate) fn new() -> (r: Tables)
        ensures
            r@ == TablesView::empty(),
    {
        let r = Tables {
            next_id: 0,
            size: None,
            edit_log: Vec::new(),
            edit_params: Vec::new(),
            strings: Vec::new(),
            brushes: Vec::new(),
            colors: Vec::new(),
            brush_properties: Vec::new(),
            paths: Vec::new(),
            path_points: Vec::new(),
            time_points: Vec::new(),
            layers: Vec::new(),
            key_frames: Vec::new(),
            elements: Vec::new(),
            attachments: Vec::new(),
            brush_points: Vec::new(),
            motions: Vec::new(),
            motion_points: Vec::new(),
            caches: Vec::new(),
        };
        proof {
            assert(r@.strings =~= Seq::empty());
        }
        r
    }

    /// A copy of the tables as they are now.
    pub(crate) fn snapshot(&self) -> (r: Tables)
        ensures
            r@ == self@,
    {
        Tables {
            next_id: self.next_id,
            size: self.size,
            edit_log: copy_rows(&self.edit_log),
            edit_params: copy_rows(&self.edit_params),
            strings: copy_strings(&self.strings),
            brushes: copy_rows(&self.brushes),
            colors: copy_rows(&self.colors),
            brush_properties: copy_rows(&self.brush_properties),
            paths: copy_rows(&self.paths),
            path_points: copy_rows(&self.path_points),
            time_points: copy_rows(&self.time_points),
            layers: copy_rows(&self.layers),
            key_frames: copy_rows(&self.key_frames),
            elements: copy_rows(&self.elements),
            attachments: copy_rows(&self.attachments),
            brush_points: copy_rows(&self.brush_points),
            motions: copy_rows(&self.motions),
            motion_points: copy_rows(&self.motion_points),
            caches: copy_rows(&self.caches),
        }
    }
}

} // verus!
