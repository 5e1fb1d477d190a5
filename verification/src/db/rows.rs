//! The rows of the store's tables.

use vstd::prelude::*;
use crate::animation::brush::{Bits32, Bits64, BrushDefinition, BrushPoint, BrushProperties, Color, RawPoint, TimeMicros, Coord};
use crate::animation::cache_type::CacheType;
use crate::animation::element_id::ElementId;
use crate::animation::motion::{MotionType, TimePoint};
use crate::db::db_enum::{BrushDefinitionType, ColorType, DrawingStyleType, EditLogType, LayerType, PathPointType, VectorElementType};
use crate::db::motion_path_type::MotionPathType;
use crate::db::relation::Keyed;

verus! {

/// An entry of the edit log: its tag, and where its parameters start.
#[derive(Clone, Copy, Debug, PartialEq, Eq)]
pub struct EditLogRow {
    pub edit_type: EditLogType,
    pub first_param: usize,
}

/// A stored point of a path.
#[derive(Clone, Copy, Debug, PartialEq, Eq)]
pub struct PathPointRow {
    pub position: Coord,
    pub kind: PathPointType,
}

/// One parameter of an entry of the edit log.
#[derive(Clone, Copy, Debug, PartialEq, Eq)]
pub enum EditLogParam {
    Size(Bits64, Bits64),
    Layer(u64),
    When(TimeMicros),
    ElementCount(usize),
    ElementId(usize, ElementId),
    Brush(BrushDefinition, DrawingStyleType),
    BrushProperties(BrushProperties),
    RawPoint(RawPoint),
    Text(u32, usize),
    Int(u32, i64),
    MotionType(MotionType),
    MotionOrigin(Bits32, Bits32),
    TimePoint(TimePoint),
    PathPoint(PathPointRow),
}

/// A brush while it is being put together.
#[derive(Clone, Copy, Debug, PartialEq, Eq)]
pub struct BrushRow {
    pub id: i64,
    pub brush_type: BrushDefinitionType,
    pub definition: Option<BrushDefinition>,
}

/// A colour while it is being put together.
#[derive(Clone, Copy, Debug, PartialEq, Eq)]
pub struct ColorRow {
    pub id: i64,
    pub color_type: ColorType,
    pub color: Option<Color>,
}

/// Brush properties on their way into an element or the edit log.
#[derive(Clone, Copy, Debug, PartialEq, Eq)]
pub struct BrushPropertiesRow {
    pub id: i64,
    pub properties: BrushProperties,
}

/// A path: a run of the stored path points.
#[derive(Clone, Copy, Debug, PartialEq, Eq)]
pub struct PathRow {
    pub id: i64,
    pub first: usize,
    pub count: usize,
}

/// A time point on its way into a motion or the edit log.
#[derive(Clone, Copy, Debug, PartialEq, Eq)]
pub struct TimePointRow {
    pub id: i64,
    pub point: TimePoint,
}

/// A layer.
#[derive(Clone, Copy, Debug, PartialEq, Eq)]
pub struct LayerRow {
    pub id: i64,
    pub layer_type: LayerType,
    pub assigned: Option<u64>,
    pub name: Option<usize>,
}

/// A key frame of a layer.
#[derive(Clone, Copy, Debug, PartialEq, Eq)]
pub struct KeyFrameRow {
    pub id: i64,
    pub layer: i64,
    pub when: TimeMicros,
}

/// Where an element appears: its key frame and the time from which it shows.
#[derive(Clone, Copy, Debug, PartialEq, Eq)]
pub struct FrameRef {
    pub key_frame: i64,
    pub when: TimeMicros,
}

/// What an element holds besides its type.
#[derive(Clone, Copy, Debug, PartialEq, Eq)]
pub enum ElementDetail {
    /// Nothing yet
    Empty,
    /// A brush and the style it draws in
    BrushDefinition(BrushDefinition, DrawingStyleType),
    /// Brush properties
    BrushProperties(BrushProperties),
    /// A run of the stored brush points: its start and its length
    BrushStroke(usize, usize),
    /// A path, the element that holds its brush and the element that holds its
    /// brush properties
    Path(i64, i64, i64),
}

/// A vector element.
#[derive(Clone, Copy, Debug, PartialEq, Eq)]
pub struct ElementRow {
    pub id: i64,
    pub element_type: VectorElementType,
    pub assigned: Option<i64>,
    pub frame: Option<FrameRef>,
    pub detail: ElementDetail,
}

/// An attachment of one element to another.
#[derive(Clone, Copy, Debug, PartialEq, Eq)]
pub struct AttachRow {
    pub element: i64,
    pub attached: i64,
}

/// The path of a motion: a run of the stored motion points.
#[derive(Clone, Copy, Debug, PartialEq, Eq)]
pub struct MotionPathRef {
    pub path_type: MotionPathType,
    pub first: usize,
    pub count: usize,
}

/// A motion, under the assigned id of its element.
#[derive(Clone, Copy, Debug, PartialEq, Eq)]
pub struct MotionRow {
    pub id: i64,
    pub motion_type: MotionType,
    pub origin: Option<(Bits32, Bits32)>,
    pub path: Option<MotionPathRef>,
}

/// A cached value of a layer at a time.
#[derive(Clone, Copy, Debug, PartialEq, Eq)]
pub struct CacheRow {
    pub layer: i64,
    pub when: TimeMicros,
    pub cache_type: CacheType,
    pub value: usize,
}

impl Keyed for BrushRow {
    open spec fn key(&self) -> i64 {
        self.id
    }

    fn get_key(&self) -> (k: i64) {
        self.id
    }
}

impl Keyed for ColorRow {
    open spec fn key(&self) -> i64 {
        self.id
    }

    fn get_key(&self) -> (k: i64) {
        self.id
    }
}

impl Keyed for BrushPropertiesRow {
    open spec fn key(&self) -> i64 {
        self.id
    }

    fn get_key(&self) -> (k: i64) {
        self.id
    }
}

impl Keyed for PathRow {
    open spec fn key(&self) -> i64 {
        self.id
    }

    fn get_key(&self) -> (k: i64) {
        self.id
    }
}

impl Keyed for TimePointRow {
    open spec fn key(&self) -> i64 {
        self.id
    }

    fn get_key(&self) -> (k: i64) {
        self.id
    }
}

impl Keyed for LayerRow {
    open spec fn key(&self) -> i64 {
        self.id
    }

    fn get_key(&self) -> (k: i64) {
        self.id
    }
}

impl Keyed for KeyFrameRow {
    open spec fn key(&self) -> i64 {
        self.id
    }

    fn get_key(&self) -> (k: i64) {
        self.id
    }
}

impl Keyed for ElementRow {
    open spec fn key(&self) -> i64 {
        self.id
    }

    fn get_key(&self) -> (k: i64) {
        self.id
    }
}

impl Keyed for MotionRow {
    open spec fn key(&self) -> i64 {
        self.id
    }

    fn get_key(&self) -> (k: i64) {
        self.id
    }
}

/// The tables of the store as mathematical sequences of rows.
pub ghost struct TablesView {
    /// The id that the next new row gets
    pub next_id: i64,
    /// The size of the canvas, once it is set
    pub size: Option<(Bits64, Bits64)>,
    /// The entries of the edit log, oldest first
    pub edit_log: Seq<EditLogRow>,
    /// The parameters of all entries, each entry's in one run
    pub edit_params: Seq<EditLogParam>,
    /// Every string the store holds; rows name one by its position
    pub strings: Seq<Seq<char>>,
    pub brushes: Seq<BrushRow>,
    pub colors: Seq<ColorRow>,
    pub brush_properties: Seq<BrushPropertiesRow>,
    pub paths: Seq<PathRow>,
    /// The points of all paths; never changed, only added to
    pub path_points: Seq<PathPointRow>,
    pub time_points: Seq<TimePointRow>,
    pub layers: Seq<LayerRow>,
    pub key_frames: Seq<KeyFrameRow>,
    /// The elements; within a key frame, an element is drawn over those before it
    pub elements: Seq<ElementRow>,
    pub attachments: Seq<AttachRow>,
    /// The points of all brush strokes; never changed, only added to
    pub brush_points: Seq<BrushPoint>,
    pub motions: Seq<MotionRow>,
    /// The points of all motion paths; never changed, only added to
    pub motion_points: Seq<TimePoint>,
    pub caches: Seq<CacheRow>,
}

impl TablesView {
    /// The tables of a store that holds nothing.
    pub open spec fn empty() -> TablesView {
        TablesView {
            next_id: 0,
            size: None,
            edit_log: Seq::empty(),
            edit_params: Seq::empty(),
            strings: Seq::empty(),
            brushes: Seq::empty(),
            colors: Seq::empty(),
            brush_properties: Seq::empty(),
            paths: Seq::empty(),
            path_points: Seq::empty(),
            time_points: Seq::empty(),
            layers: Seq::empty(),
            key_frames: Seq::empty(),
            elements: Seq::empty(),
            attachments: Seq::empty(),
            brush_points: Seq::empty(),
            motions: Seq::empty(),
            motion_points: Seq::empty(),
            caches: Seq::empty(),
        }
    }
}

} // verus!
