//! The tests by which the store picks rows that have no key of their own, and
//! the ways in which it makes rows out of what it is given.

use vstd::prelude::*;
use crate::animation::brush::{Coord, RawPoint, TimeMicros};
use crate::animation::cache_type::CacheType;
use crate::animation::motion::TimePoint;
use crate::db::db_enum::PathPointType;
use crate::db::relation::{Mapper, Matcher};
use crate::db::rows::{AttachRow, CacheRow, EditLogParam, ElementRow, KeyFrameRow, LayerRow, PathPointRow};

verus! {

/// Picks the layer with a user-facing id.
#[derive(Clone, Copy)]
pub struct LayerAssigned(pub u64);

impl Matcher<LayerRow> for LayerAssigned {
    open spec fn matches(&self, row: LayerRow) -> bool {
        row.assigned == Some(self.0)
    }

    fn test(&self, row: &LayerRow) -> (r: bool) {
        match row.assigned {
            Some(a) => a == self.0,
            None => false,
        }
    }
}

/// Picks the element with an assigned id.
#[derive(Clone, Copy)]
pub struct ElementAssigned(pub i64);

impl Matcher<ElementRow> for ElementAssigned {
    open spec fn matches(&self, row: ElementRow) -> bool {
        row.assigned == Some(self.0)
    }

    fn test(&self, row: &ElementRow) -> (r: bool) {
        match row.assigned {
            Some(a) => a == self.0,
            None => false,
        }
    }
}

/// Picks the elements of a key frame.
#[derive(Clone, Copy)]
pub struct InKeyFrame(pub i64);

impl Matcher<ElementRow> for InKeyFrame {
    open spec fn matches(&self, row: ElementRow) -> bool {
        row.frame matches Some(f) && f.key_frame == self.0
    }

    fn test(&self, row: &ElementRow) -> (r: bool) {
        match row.frame {
            Some(f) => f.key_frame == self.0,
            None => false,
        }
    }
}

/// Picks the key frames of a layer at a time.
#[derive(Clone, Copy)]
pub struct FrameAt {
    pub layer: i64,
    pub when: TimeMicros,
}

impl Matcher<KeyFrameRow> for FrameAt {
    open spec fn matches(&self, row: KeyFrameRow) -> bool {
        row.layer == self.layer && row.when == self.when
    }

    fn test(&self, row: &KeyFrameRow) -> (r: bool) {
        row.layer == self.layer && row.when == self.when
    }
}

/// Picks the key frames of a layer.
#[derive(Clone, Copy)]
pub struct FrameOfLayer(pub i64);

impl Matcher<KeyFrameRow> for FrameOfLayer {
    open spec fn matches(&self, row: KeyFrameRow) -> bool {
        row.layer == self.0
    }

    fn test(&self, row: &KeyFrameRow) -> (r: bool) {
        row.layer == self.0
    }
}

/// Picks what is cached of one kind for a layer at a time.
#[derive(Clone, Copy)]
pub struct CacheAt {
    pub layer: i64,
    pub when: TimeMicros,
    pub cache_type: CacheType,
}

impl Matcher<CacheRow> for CacheAt {
    open spec fn matches(&self, row: CacheRow) -> bool {
        row.layer == self.layer && row.when == self.when && row.cache_type == self.cache_type
    }

    fn test(&self, row: &CacheRow) -> (r: bool) {
        row.layer == self.layer && row.when == self.when && row.cache_type == self.cache_type
    }
}

/// Picks everything that is cached for a layer.
#[derive(Clone, Copy)]
pub struct CacheOfLayer(pub i64);

impl Matcher<CacheRow> for CacheOfLayer {
    open spec fn matches(&self, row: CacheRow) -> bool {
        row.layer == self.0
    }

    fn test(&self, row: &CacheRow) -> (r: bool) {
        row.layer == self.0
    }
}

/// Picks the attachment of one element to another.
#[derive(Clone, Copy)]
pub struct Attachment {
    pub element: i64,
    pub attached: i64,
}

impl Matcher<AttachRow> for Attachment {
    open spec fn matches(&self, row: AttachRow) -> bool {
        row.element == self.element && row.attached == self.attached
    }

    fn test(&self, row: &AttachRow) -> (r: bool) {
        row.element == self.element && row.attached == self.attached
    }
}

/// Picks the attachments that an element has a part in.
#[derive(Clone, Copy)]
pub struct TouchesElement(pub i64);

impl Matcher<AttachRow> for TouchesElement {
    open spec fn matches(&self, row: AttachRow) -> bool {
        row.element == self.0 || row.attached == self.0
    }

    fn test(&self, row: &AttachRow) -> (r: bool) {
        row.element == self.0 || row.attached == self.0
    }
}

/// Makes a parameter of the edit log of a raw point.
#[derive(Clone, Copy)]
pub struct RawPointParam;

impl Mapper<RawPoint, EditLogParam> for RawPointParam {
    open spec fn image(&self, a: RawPoint) -> EditLogParam {
        EditLogParam::RawPoint(a)
    }

    fn map(&self, a: &RawPoint) -> (b: EditLogParam) {
        EditLogParam::RawPoint(*a)
    }
}

/// Makes a parameter of the edit log of a time point.
#[derive(Clone, Copy)]
pub struct TimePointParam;

impl Mapper<TimePoint, EditLogParam> for TimePointParam {
    open spec fn image(&self, a: TimePoint) -> EditLogParam {
        EditLogParam::TimePoint(a)
    }

    fn map(&self, a: &TimePoint) -> (b: EditLogParam) {
        EditLogParam::TimePoint(*a)
    }
}

/// Makes a parameter of the edit log of a stored path point.
#[derive(Clone, Copy)]
pub struct PathPointParam;

impl Mapper<PathPointRow, EditLogParam> for PathPointParam {
    open spec fn image(&self, a: PathPointRow) -> EditLogParam {
        EditLogParam::PathPoint(a)
    }

    fn map(&self, a: &PathPointRow) -> (b: EditLogParam) {
        EditLogParam::PathPoint(*a)
    }
}

/// Makes a stored path point of a plain position.
#[derive(Clone, Copy)]
pub struct PlainPoint;

impl Mapper<Coord, PathPointRow> for PlainPoint {
    open spec fn image(&self, a: Coord) -> PathPointRow {
        PathPointRow { position: a, kind: PathPointType::ControlPoint }
    }

    fn map(&self, a: &Coord) -> (b: PathPointRow) {
        PathPointRow { position: *a, kind: PathPointType::ControlPoint }
    }
}

/// Makes the attachment of an element to a target.
#[derive(Clone, Copy)]
pub struct AttachTo(pub i64);

impl Mapper<i64, AttachRow> for AttachTo {
    open spec fn image(&self, a: i64) -> AttachRow {
        AttachRow { element: self.0, attached: a }
    }

    fn map(&self, a: &i64) -> (b: AttachRow) {
        AttachRow { element: self.0, attached: *a }
    }
}

} // verus!
