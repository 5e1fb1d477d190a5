//! The names under which the persisted tags are catalogued.

use vstd::prelude::*;
use crate::animation::cache_type::CacheType;
use crate::animation::motion::MotionType;
use crate::db::db_enum::{BrushDefinitionType, ColorType, DbEnum, DrawingStyleType, EditLogType, LayerType, PathPointType, VectorElementType};
use crate::db::motion_path_type::MotionPathType;

verus! {

/// The table a persisted tag belongs to, and its name within that table.
#[derive(Clone, Copy, Debug, PartialEq, Eq)]
pub struct DbEnumName(pub &'static str, pub &'static str);

impl DbEnumName {
    /// The name of the table.
    pub open spec fn table(self) -> Seq<char> {
        self.0@
    }

    /// The name of the tag within its table.
    pub open spec fn name(self) -> Seq<char> {
        self.1@
    }
}

impl From<EditLogType> for DbEnumName {
    fn from(t: EditLogType) -> (n: DbEnumName) {
        match t {
            EditLogType::SetSize => DbEnumName("Edit", "SetSize"),
            EditLogType::AddNewLayer => DbEnumName("Edit", "AddNewLayer"),
            EditLogType::RemoveLayer => DbEnumName("Edit", "RemoveLayer"),
            EditLogType::LayerAddKeyFrame => DbEnumName("Edit", "Layer::AddKeyFrame"),
            EditLogType::LayerRemoveKeyFrame => DbEnumName("Edit", "Layer::RemoveKeyFrame"),
            EditLogType::LayerSetName => DbEnumName("Edit", "Layer::SetName"),
            EditLogType::LayerSetOrdering => DbEnumName("Edit", "Layer::SetOrdering"),
            EditLogType::LayerPaintSelectBrush => DbEnumName("Edit", "Layer::Paint::SelectBrush"),
            EditLogType::LayerPaintBrushProperties => DbEnumName("Edit", "Layer::Paint::BrushProperties"),
            EditLogType::LayerPaintBrushStroke => DbEnumName("Edit", "Layer::Paint::BrushStroke"),
            EditLogType::LayerPathCreatePath => DbEnumName("Edit", "Layer::Path::CreatePath"),
            EditLogType::LayerPathSelectBrush => DbEnumName("Edit", "Layer::Path::SelectBrush"),
            EditLogType::LayerPathBrushProperties => DbEnumName("Edit", "Layer::Path::BrushProperties"),
            EditLogType::MotionCreate => DbEnumName("Edit", "Motion::Create"),
            EditLogType::MotionDelete => DbEnumName("Edit", "Motion::Delete"),
            EditLogType::MotionSetType => DbEnumName("Edit", "Motion::SetType"),
            EditLogType::MotionSetOrigin => DbEnumName("Edit", "Motion::SetOrigin"),
            EditLogType::MotionSetPath => DbEnumName("Edit", "Motion::SetPath"),
            EditLogType::ElementAddAttachment => DbEnumName("Edit", "Element::AddAttachment"),
            EditLogType::ElementRemoveAttachment => DbEnumName("Edit", "Element::RemoveAttachment"),
            EditLogType::ElementSetControlPoints => DbEnumName("Edit", "Element::SetControlPoints"),
            EditLogType::ElementSetPath => DbEnumName("Edit", "Element::SetPath"),
            EditLogType::ElementOrderInFront => DbEnumName("Edit", "Element::OrderInFront"),
            EditLogType::ElementOrderBehind => DbEnumName("Edit", "Element::OrderBehind"),
            EditLogType::ElementOrderToTop => DbEnumName("Edit", "Element::OrderToTop"),
            EditLogType::ElementOrderToBottom => DbEnumName("Edit", "Element::OrderToBottom"),
            EditLogType::ElementOrderBefore => DbEnumName("Edit", "Element::OrderBefore"),
            EditLogType::ElementDelete => DbEnumName("Edit", "Element::Delete"),
            EditLogType::ElementDetachFromFrame => DbEnumName("Edit", "Element::DetachFromFrame"),
        }
    }
}

impl vstd::std_specs::convert::FromSpecImpl<EditLogType> for DbEnumName {
    open spec fn obeys_from_spec() -> bool {
        true
    }

    open spec fn from_spec(t: EditLogType) -> DbEnumName {
        match t {
            EditLogType::SetSize => DbEnumName("Edit", "SetSize"),
            EditLogType::AddNewLayer => DbEnumName("Edit", "AddNewLayer"),
            EditLogType::RemoveLayer => DbEnumName("Edit", "RemoveLayer"),
            EditLogType::LayerAddKeyFrame => DbEnumName("Edit", "Layer::AddKeyFrame"),
            EditLogType::LayerRemoveKeyFrame => DbEnumName("Edit", "Layer::RemoveKeyFrame"),
            EditLogType::LayerSetName => DbEnumName("Edit", "Layer::SetName"),
            EditLogType::LayerSetOrdering => DbEnumName("Edit", "Layer::SetOrdering"),
            EditLogType::LayerPaintSelectBrush => DbEnumName("Edit", "Layer::Paint::SelectBrush"),
            EditLogType::LayerPaintBrushProperties => DbEnumName("Edit", "Layer::Paint::BrushProperties"),
            EditLogType::LayerPaintBrushStroke => DbEnumName("Edit", "Layer::Paint::BrushStroke"),
            EditLogType::LayerPathCreatePath => DbEnumName("Edit", "Layer::Path::CreatePath"),
            EditLogType::LayerPathSelectBrush => DbEnumName("Edit", "Layer::Path::SelectBrush"),
            EditLogType::LayerPathBrushProperties => DbEnumName("Edit", "Layer::Path::BrushProperties"),
            EditLogType::MotionCreate => DbEnumName("Edit", "Motion::Create"),
            EditLogType::MotionDelete => DbEnumName("Edit", "Motion::Delete"),
            EditLogType::MotionSetType => DbEnumName("Edit", "Motion::SetType"),
            EditLogType::MotionSetOrigin => DbEnumName("Edit", "Motion::SetOrigin"),
            EditLogType::MotionSetPath => DbEnumName("Edit", "Motion::SetPath"),
            EditLogType::ElementAddAttachment => DbEnumName("Edit", "Element::AddAttachment"),
            EditLogType::ElementRemoveAttachment => DbEnumName("Edit", "Element::RemoveAttachment"),
            EditLogType::ElementSetControlPoints => DbEnumName("Edit", "Element::SetControlPoints"),
            EditLogType::ElementSetPath => DbEnumName("Edit", "Element::SetPath"),
            EditLogType::ElementOrderInFront => DbEnumName("Edit", "Element::OrderInFront"),
            EditLogType::ElementOrderBehind => DbEnumName("Edit", "Element::OrderBehind"),
            EditLogType::ElementOrderToTop => DbEnumName("Edit", "Element::OrderToTop"),
            EditLogType::ElementOrderToBottom => DbEnumName("Edit", "Element::OrderToBottom"),
            EditLogType::ElementOrderBefore => DbEnumName("Edit", "Element::OrderBefore"),
            EditLogType::ElementDelete => DbEnumName("Edit", "Element::Delete"),
            EditLogType::ElementDetachFromFrame => DbEnumName("Edit", "Element::DetachFromFrame"),
        }
    }
}

impl From<DrawingStyleType> for DbEnumName {
    fn from(t: DrawingStyleType) -> (n: DbEnumName) {
        match t {
            DrawingStyleType::Draw => DbEnumName("DrawingStyle", "Draw"),
            DrawingStyleType::Erase => DbEnumName("DrawingStyle", "Erase"),
        }
    }
}

impl vstd::std_specs::convert::FromSpecImpl<DrawingStyleType> for DbEnumName {
    open spec fn obeys_from_spec() -> bool {
        true
    }

    open spec fn from_spec(t: DrawingStyleType) -> DbEnumName {
        match t {
            DrawingStyleType::Draw => DbEnumName("DrawingStyle", "Draw"),
            DrawingStyleType::Erase => DbEnumName("DrawingStyle", "Erase"),
        }
    }
}

impl From<BrushDefinitionType> for DbEnumName {
    fn from(t: BrushDefinitionType) -> (n: DbEnumName) {
        match t {
            BrushDefinitionType::Simple => DbEnumName("BrushType", "Simple"),
            BrushDefinitionType::Ink => DbEnumName("BrushType", "Ink"),
        }
    }
}

impl vstd::std_specs::convert::FromSpecImpl<BrushDefinitionType> for DbEnumName {
    open spec fn obeys_from_spec() -> bool {
        true
    }

    open spec fn from_spec(t: BrushDefinitionType) -> DbEnumName {
        match t {
            BrushDefinitionType::Simple => DbEnumName("BrushType", "Simple"),
            BrushDefinitionType::Ink => DbEnumName("BrushType", "Ink"),
        }
    }
}

impl From<ColorType> for DbEnumName {
    fn from(t: ColorType) -> (n: DbEnumName) {
        match t {
            ColorType::Rgb => DbEnumName("ColorType", "RGB"),
            ColorType::Hsluv => DbEnumName("ColorType", "HSLUV"),
        }
    }
}

impl vstd::std_specs::convert::FromSpecImpl<ColorType> for DbEnumName {
    open spec fn obeys_from_spec() -> bool {
        true
    }

    open spec fn from_spec(t: ColorType) -> DbEnumName {
        match t {
            ColorType::Rgb => DbEnumName("ColorType", "RGB"),
            ColorType::Hsluv => DbEnumName("ColorType", "HSLUV"),
        }
    }
}

impl From<LayerType> for DbEnumName {
    fn from(t: LayerType) -> (n: DbEnumName) {
        match t {
            LayerType::Vector => DbEnumName("LayerType", "Vector"),
        }
    }
}

impl vstd::std_specs::convert::FromSpecImpl<LayerType> for DbEnumName {
    open spec fn obeys_from_spec() -> bool {
        true
    }

    open spec fn from_spec(t: LayerType) -> DbEnumName {
        match t {
            LayerType::Vector => DbEnumName("LayerType", "Vector"),
        }
    }
}

impl From<VectorElementType> for DbEnumName {
    fn from(t: VectorElementType) -> (n: DbEnumName) {
        match t {
            VectorElementType::BrushDefinition => DbEnumName("VectorElementType", "BrushDefinition"),
            VectorElementType::BrushProperties => DbEnumName("VectorElementType", "BrushProperties"),
            VectorElementType::BrushStroke => DbEnumName("VectorElementType", "BrushStroke"),
            VectorElementType::Path => DbEnumName("VectorElementType", "Path"),
            VectorElementType::Motion => DbEnumName("VectorElementType", "Motion"),
        }
    }
}

impl vstd::std_specs::convert::FromSpecImpl<VectorElementType> for DbEnumName {
    open spec fn obeys_from_spec() -> bool {
        true
    }

    open spec fn from_spec(t: VectorElementType) -> DbEnumName {
        match t {
            VectorElementType::BrushDefinition => DbEnumName("VectorElementType", "BrushDefinition"),
            VectorElementType::BrushProperties => DbEnumName("VectorElementType", "BrushProperties"),
            VectorElementType::BrushStroke => DbEnumName("VectorElementType", "BrushStroke"),
            VectorElementType::Path => DbEnumName("VectorElementType", "Path"),
            VectorElementType::Motion => DbEnumName("VectorElementType", "Motion"),
        }
    }
}

impl From<MotionType> for DbEnumName {
    fn from(t: MotionType) -> (n: DbEnumName) {
        match t {
            MotionType::Stationary => DbEnumName("MotionType", "None"),
            MotionType::Reverse => DbEnumName("MotionType", "Reverse"),
            MotionType::Translate => DbEnumName("MotionType", "Translate"),
        }
    }
}

impl vstd::std_specs::convert::FromSpecImpl<MotionType> for DbEnumName {
    open spec fn obeys_from_spec() -> bool {
        true
    }

    open spec fn from_spec(t: MotionType) -> DbEnumName {
        match t {
            MotionType::Stationary => DbEnumName("MotionType", "None"),
            MotionType::Reverse => DbEnumName("MotionType", "Reverse"),
            MotionType::Translate => DbEnumName("MotionType", "Translate"),
        }
    }
}

impl From<MotionPathType> for DbEnumName {
    fn from(t: MotionPathType) -> (n: DbEnumName) {
        match t {
            MotionPathType::Position => DbEnumName("MotionPathType", "Position"),
        }
    }
}

impl vstd::std_specs::convert::FromSpecImpl<MotionPathType> for DbEnumName {
    open spec fn obeys_from_spec() -> bool {
        true
    }

    open spec fn from_spec(t: MotionPathType) -> DbEnumName {
        match t {
            MotionPathType::Position => DbEnumName("MotionPathType", "Position"),
        }
    }
}

impl From<PathPointType> for DbEnumName {
    fn from(t: PathPointType) -> (n: DbEnumName) {
        match t {
            PathPointType::MoveTo => DbEnumName("PathPointType", "MoveTo"),
            PathPointType::LineTo => DbEnumName("PathPointType", "LineTo"),
            PathPointType::ControlPoint => DbEnumName("PathPointType", "ControlPoint"),
            PathPointType::BezierTo => DbEnumName("PathPointType", "BezierTo"),
            PathPointType::Close => DbEnumName("PathPointType", "Close"),
        }
    }
}

impl vstd::std_specs::convert::FromSpecImpl<PathPointType> for DbEnumName {
    open spec fn obeys_from_spec() -> bool {
        true
    }

    open spec fn from_spec(t: PathPointType) -> DbEnumName {
        match t {
            PathPointType::MoveTo => DbEnumName("PathPointType", "MoveTo"),
            PathPointType::LineTo => DbEnumName("PathPointType", "LineTo"),
            PathPointType::ControlPoint => DbEnumName("PathPointType", "ControlPoint"),
            PathPointType::BezierTo => DbEnumName("PathPointType", "BezierTo"),
            PathPointType::Close => DbEnumName("PathPointType", "Close"),
        }
    }
}

impl From<CacheType> for DbEnumName {
    fn from(t: CacheType) -> (n: DbEnumName) {
        match t {
            CacheType::OnionSkinLayer => DbEnumName("CacheType", "OnionSkinLayer"),
        }
    }
}

impl vstd::std_specs::convert::FromSpecImpl<CacheType> for DbEnumName {
    open spec fn obeys_from_spec() -> bool {
        true
    }

    open spec fn from_spec(t: CacheType) -> DbEnumName {
        match t {
            CacheType::OnionSkinLayer => DbEnumName("CacheType", "OnionSkinLayer"),
        }
    }
}

impl From<DbEnum> for DbEnumName {
    fn from(t: DbEnum) -> (n: DbEnumName) {
        match t {
            DbEnum::EditLog(t) => DbEnumName::from(t),
            DbEnum::DrawingStyle(t) => DbEnumName::from(t),
            DbEnum::BrushDefinition(t) => DbEnumName::from(t),
            DbEnum::Color(t) => DbEnumName::from(t),
            DbEnum::Layer(t) => DbEnumName::from(t),
            DbEnum::VectorElement(t) => DbEnumName::from(t),
            DbEnum::MotionType(t) => DbEnumName::from(t),
            DbEnum::MotionPathType(t) => DbEnumName::from(t),
            DbEnum::PathPoint(t) => DbEnumName::from(t),
            DbEnum::CacheType(t) => DbEnumName::from(t),
        }
    }
}

impl vstd::std_specs::convert::FromSpecImpl<DbEnum> for DbEnumName {
    open spec fn obeys_from_spec() -> bool {
        true
    }

    open spec fn from_spec(t: DbEnum) -> DbEnumName {
        match t {
            DbEnum::EditLog(t) => <DbEnumName as vstd::std_specs::convert::FromSpec<EditLogType>>::from_spec(t),
            DbEnum::DrawingStyle(t) => <DbEnumName as vstd::std_specs::convert::FromSpec<DrawingStyleType>>::from_spec(t),
            DbEnum::BrushDefinition(t) => <DbEnumName as vstd::std_specs::convert::FromSpec<BrushDefinitionType>>::from_spec(t),
            DbEnum::Color(t) => <DbEnumName as vstd::std_specs::convert::FromSpec<ColorType>>::from_spec(t),
            DbEnum::Layer(t) => <DbEnumName as vstd::std_specs::convert::FromSpec<LayerType>>::from_spec(t),
            DbEnum::VectorElement(t) => <DbEnumName as vstd::std_specs::convert::FromSpec<VectorElementType>>::from_spec(t),
            DbEnum::MotionType(t) => <DbEnumName as vstd::std_specs::convert::FromSpec<MotionType>>::from_spec(t),
            DbEnum::MotionPathType(t) => <DbEnumName as vstd::std_specs::convert::FromSpec<MotionPathType>>::from_spec(t),
            DbEnum::PathPoint(t) => <DbEnumName as vstd::std_specs::convert::FromSpec<PathPointType>>::from_spec(t),
            DbEnum::CacheType(t) => <DbEnumName as vstd::std_specs::convert::FromSpec<CacheType>>::from_spec(t),
        }
    }
}

} // verus!
