//! The catalogue of persisted tags.
//!
//! Every tag the store writes belongs to one table of the catalogue
//! (`DbEnumType`) and has a code there: its position in the list of that table's
//! values. The lists are exhaustive, and a code identifies its tag.

use vstd::prelude::*;
use crate::animation::brush::{BrushDefinition, BrushDrawingStyle};
use crate::animation::cache_type::CacheType;
use crate::animation::edit::{AnimationEdit, AnimationEditView, ElementEdit, ElementEditView, ElementOrdering, LayerEdit, LayerEditView, MotionEdit, MotionEditView, PaintEdit, PaintEditView, PathEdit, PathEditView};
use crate::animation::motion::MotionType;
use crate::animation::vector_type::VectorType;
use crate::db::motion_path_type::MotionPathType;

verus! {

/// Type of edit log item
#[derive(Copy, Clone, PartialEq, Eq, Hash, Debug, Structural)]
pub enum EditLogType {
    SetSize,
    AddNewLayer,
    RemoveLayer,
    LayerAddKeyFrame,
    LayerRemoveKeyFrame,
    LayerSetName,
    LayerPaintSelectBrush,
    LayerPaintBrushProperties,
    LayerPaintBrushStroke,
    LayerPathCreatePath,
    LayerPathSelectBrush,
    LayerPathBrushProperties,
    LayerSetOrdering,
    MotionCreate,
    MotionDelete,
    MotionSetType,
    MotionSetOrigin,
    MotionSetPath,
    ElementAddAttachment,
    ElementRemoveAttachment,
    ElementSetControlPoints,
    ElementSetPath,
    ElementOrderInFront,
    ElementOrderBehind,
    ElementOrderToTop,
    ElementOrderToBottom,
    ElementOrderBefore,
    ElementDelete,
    ElementDetachFromFrame,
}

/// Types of drawing style
#[derive(Copy, Clone, PartialEq, Eq, Hash, Debug, Structural)]
pub enum DrawingStyleType {
    Draw,
    Erase,
}

/// Types of brush definition
#[derive(Copy, Clone, PartialEq, Eq, Hash, Debug, Structural)]
pub enum BrushDefinitionType {
    Simple,
    Ink,
}

/// Types of colour definition
#[derive(Copy, Clone, PartialEq, Eq, Hash, Debug, Structural)]
pub enum ColorType {
    Rgb,
    Hsluv,
}

/// Types of layer
#[derive(Copy, Clone, PartialEq, Eq, Hash, Debug, Structural)]
pub enum LayerType {
    Vector,
}

/// Types of vector element
#[derive(Copy, Clone, PartialEq, Eq, Hash, Debug, Structural)]
pub enum VectorElementType {
    BrushDefinition,
    BrushProperties,
    BrushStroke,
    Path,
    Motion,
}

/// Types of path point
#[derive(Copy, Clone, PartialEq, Eq, Hash, Debug, Structural)]
pub enum PathPointType {
    MoveTo,
    LineTo,
    ControlPoint,
    BezierTo,
    Close,
}

/// All of the persisted tags in one place
#[derive(Copy, Clone, PartialEq, Eq, Hash, Debug, Structural)]
pub enum DbEnum {
    EditLog(EditLogType),
    DrawingStyle(DrawingStyleType),
    BrushDefinition(BrushDefinitionType),
    Color(ColorType),
    Layer(LayerType),
    MotionType(MotionType),
    MotionPathType(MotionPathType),
    VectorElement(VectorElementType),
    PathPoint(PathPointType),
    CacheType(CacheType),
}

/// The tables of the catalogue
#[derive(Copy, Clone, PartialEq, Eq, Hash, Debug, Structural)]
pub enum DbEnumType {
    EditLog,
    DrawingStyle,
    BrushDefinition,
    Color,
    Layer,
    VectorElement,
    MotionType,
    MotionPathType,
    PathPoint,
    CacheType,
}

impl DbEnum {
    /// Returns the EditLog value for this enum (if there is one)
    pub fn edit_log(self) -> (r: Option<EditLogType>)
        ensures
            r == (match self {
                DbEnum::EditLog(t) => Some(t),
                _ => None,
            }),
    {
        match self {
            DbEnum::EditLog(res) => Some(res),
            _ => None,
        }
    }

    /// Returns the DrawingStyle value for this enum (if there is one)
    pub fn drawing_style(self) -> (r: Option<DrawingStyleType>)
        ensures
            r == (match self {
                DbEnum::DrawingStyle(t) => Some(t),
                _ => None,
            }),
    {
        match self {
            DbEnum::DrawingStyle(res) => Some(res),
            _ => None,
        }
    }

    /// Returns the BrushDefinition value for this enum (if there is one)
    pub fn brush_definition(self) -> (r: Option<BrushDefinitionType>)
        ensures
            r == (match self {
                DbEnum::BrushDefinition(t) => Some(t),
                _ => None,
            }),
    {
        match self {
            DbEnum::BrushDefinition(res) => Some(res),
            _ => None,
        }
    }

    /// Returns the Color value for this enum (if there is one)
    pub fn color(self) -> (r: Option<ColorType>)
        ensures
            r == (match self {
                DbEnum::Color(t) => Some(t),
                _ => None,
            }),
    {
        match self {
            DbEnum::Color(res) => Some(res),
            _ => None,
        }
    }

    /// Returns the Layer value for this enum (if there is one)
    pub fn layer(self) -> (r: Option<LayerType>)
        ensures
            r == (match self {
                DbEnum::Layer(t) => Some(t),
                _ => None,
            }),
    {
        match self {
            DbEnum::Layer(res) => Some(res),
            _ => None,
        }
    }

    /// Returns the VectorElement value for this enum (if there is one)
    pub fn vector_element(self) -> (r: Option<VectorElementType>)
        ensures
            r == (match self {
                DbEnum::VectorElement(t) => Some(t),
                _ => None,
            }),
    {
        match self {
            DbEnum::VectorElement(res) => Some(res),
            _ => None,
        }
    }

    /// Returns the MotionType value for this enum (if there is one)
    pub fn motion_type(self) -> (r: Option<MotionType>)
        ensures
            r == (match self {
                DbEnum::MotionType(t) => Some(t),
                _ => None,
            }),
    {
        match self {
            DbEnum::MotionType(res) => Some(res),
            _ => None,
        }
    }

    /// Returns the CacheType value for this enum (if there is one)
    pub fn cache_type(self) -> (r: Option<CacheType>)
        ensures
            r == (match self {
                DbEnum::CacheType(t) => Some(t),
                _ => None,
            }),
    {
        match self {
            DbEnum::CacheType(res) => Some(res),
            _ => None,
        }
    }

    /// The table of the catalogue that this tag belongs to.
    pub open spec fn spec_enum_type(self) -> DbEnumType {
        match self {
            DbEnum::EditLog(_) => DbEnumType::EditLog,
            DbEnum::DrawingStyle(_) => DbEnumType::DrawingStyle,
            DbEnum::BrushDefinition(_) => DbEnumType::BrushDefinition,
            DbEnum::Color(_) => DbEnumType::Color,
            DbEnum::Layer(_) => DbEnumType::Layer,
            DbEnum::MotionType(_) => DbEnumType::MotionType,
            DbEnum::MotionPathType(_) => DbEnumType::MotionPathType,
            DbEnum::VectorElement(_) => DbEnumType::VectorElement,
            DbEnum::PathPoint(_) => DbEnumType::PathPoint,
            DbEnum::CacheType(_) => DbEnumType::CacheType,
        }
    }

    /// The table of the catalogue that this tag belongs to.
    pub fn enum_type(self) -> (t: DbEnumType)
        ensures
            t == self.spec_enum_type(),
    {
        match self {
            DbEnum::EditLog(_) => DbEnumType::EditLog,
            DbEnum::DrawingStyle(_) => DbEnumType::DrawingStyle,
            DbEnum::BrushDefinition(_) => DbEnumType::BrushDefinition,
            DbEnum::Color(_) => DbEnumType::Color,
            DbEnum::Layer(_) => DbEnumType::Layer,
            DbEnum::MotionType(_) => DbEnumType::MotionType,
            DbEnum::MotionPathType(_) => DbEnumType::MotionPathType,
            DbEnum::VectorElement(_) => DbEnumType::VectorElement,
            DbEnum::PathPoint(_) => DbEnumType::PathPoint,
            DbEnum::CacheType(_) => DbEnumType::CacheType,
        }
    }

    /// The persisted code of this tag: its position among the values of its table.
    pub open spec fn spec_code(self) -> int {
        match self {
            DbEnum::EditLog(t) => match t {
                EditLogType::SetSize => 0,
                EditLogType::AddNewLayer => 1,
                EditLogType::RemoveLayer => 2,
                EditLogType::LayerAddKeyFrame => 3,
                EditLogType::LayerRemoveKeyFrame => 4,
                EditLogType::LayerSetName => 5,
                EditLogType::LayerSetOrdering => 6,
                EditLogType::LayerPaintSelectBrush => 7,
                EditLogType::LayerPaintBrushProperties => 8,
                EditLogType::LayerPaintBrushStroke => 9,
                EditLogType::LayerPathCreatePath => 10,
                EditLogType::LayerPathSelectBrush => 11,
                EditLogType::LayerPathBrushProperties => 12,
                EditLogType::MotionCreate => 13,
                EditLogType::MotionDelete => 14,
                EditLogType::MotionSetType => 15,
                EditLogType::MotionSetOrigin => 16,
                EditLogType::MotionSetPath => 17,
                EditLogType::ElementAddAttachment => 18,
                EditLogType::ElementRemoveAttachment => 19,
                EditLogType::ElementSetControlPoints => 20,
                EditLogType::ElementSetPath => 21,
                EditLogType::ElementOrderInFront => 22,
                EditLogType::ElementOrderBehind => 23,
                EditLogType::ElementOrderToTop => 24,
                EditLogType::ElementOrderToBottom => 25,
                EditLogType::ElementOrderBefore => 26,
                EditLogType::ElementDelete => 27,
                EditLogType::ElementDetachFromFrame => 28,
            },
            DbEnum::DrawingStyle(t) => match t {
                DrawingStyleType::Draw => 0,
                DrawingStyleType::Erase => 1,
            },
            DbEnum::BrushDefinition(t) => match t {
                BrushDefinitionType::Simple => 0,
                BrushDefinitionType::Ink => 1,
            },
            DbEnum::Color(t) => match t {
                ColorType::Rgb => 0,
                ColorType::Hsluv => 1,
            },
            DbEnum::Layer(t) => match t {
                LayerType::Vector => 0,
            },
            DbEnum::MotionType(t) => match t {
                MotionType::Stationary => 0,
                MotionType::Translate => 1,
                MotionType::Reverse => 2,
            },
            DbEnum::MotionPathType(t) => match t {
                MotionPathType::Position => 0,
            },
            DbEnum::VectorElement(t) => match t {
                VectorElementType::BrushDefinition => 0,
                VectorElementType::BrushProperties => 1,
                VectorElementType::BrushStroke => 2,
                VectorElementType::Path => 3,
                VectorElementType::Motion => 4,
            },
            DbEnum::PathPoint(t) => match t {
                PathPointType::MoveTo => 0,
                PathPointType::LineTo => 1,
                PathPointType::ControlPoint => 2,
                PathPointType::BezierTo => 3,
                PathPointType::Close => 4,
            },
            DbEnum::CacheType(t) => match t {
                CacheType::OnionSkinLayer => 0,
            },
        }
    }

    /// The tag of table `t` with the persisted code `code`, if there is one.
    pub open spec fn spec_from_code(t: DbEnumType, code: int) -> Option<DbEnum> {
        if 0 <= code < db_enum_values(t).len() {
            Some(db_enum_values(t)[code])
        } else {
            None
        }
    }

    /// The persisted code of this tag.
    pub fn code(self) -> (c: i64)
        ensures
            c == self.spec_code(),
            Self::spec_from_code(self.spec_enum_type(), c as int) == Some(self),
    {
        let values = Vec::<DbEnum>::from(self.enum_type());
        let mut i: usize = 0;
        proof {
            lemma_code_identifies(self);
        }
        while i < values.len()
            invariant
                values@ == db_enum_values(self.spec_enum_type()),
                0 <= self.spec_code() < values@.len(),
                values@[self.spec_code()] == self,
                i <= self.spec_code(),
                values@.len() <= 29,
            decreases values.len() - i,
        {
            if values[i] == self {
                proof {
                    lemma_values_in_code_order(self.spec_enum_type(), i as int);
                }
                return i as i64;
            }
            i += 1;
        }
        0
    }

    /// The tag of table `t` with the persisted code `code`, if there is one.
    pub fn from_code(t: DbEnumType, code: i64) -> (r: Option<DbEnum>)
        ensures
            r == Self::spec_from_code(t, code as int),
            r matches Some(e) ==> e.spec_enum_type() == t && e.spec_code() == code,
    {
        let values = Vec::<DbEnum>::from(t);
        if 0 <= code && code < values.len() as i64 {
            proof {
                lemma_values_in_code_order(t, code as int);
            }
            Some(values[code as usize])
        } else {
            None
        }
    }
}

/// The values of one table of the catalogue, in the order of their codes.
pub open spec fn db_enum_values(t: DbEnumType) -> Seq<DbEnum> {
    match t {
        DbEnumType::EditLog => seq![
            DbEnum::EditLog(EditLogType::SetSize),
            DbEnum::EditLog(EditLogType::AddNewLayer),
            DbEnum::EditLog(EditLogType::RemoveLayer),
            DbEnum::EditLog(EditLogType::LayerAddKeyFrame),
            DbEnum::EditLog(EditLogType::LayerRemoveKeyFrame),
            DbEnum::EditLog(EditLogType::LayerSetName),
            DbEnum::EditLog(EditLogType::LayerSetOrdering),
            DbEnum::EditLog(EditLogType::LayerPaintSelectBrush),
            DbEnum::EditLog(EditLogType::LayerPaintBrushProperties),
            DbEnum::EditLog(EditLogType::LayerPaintBrushStroke),
            DbEnum::EditLog(EditLogType::LayerPathCreatePath),
            DbEnum::EditLog(EditLogType::LayerPathSelectBrush),
            DbEnum::EditLog(EditLogType::LayerPathBrushProperties),
            DbEnum::EditLog(EditLogType::MotionCreate),
            DbEnum::EditLog(EditLogType::MotionDelete),
            DbEnum::EditLog(EditLogType::MotionSetType),
            DbEnum::EditLog(EditLogType::MotionSetOrigin),
            DbEnum::EditLog(EditLogType::MotionSetPath),
            DbEnum::EditLog(EditLogType::ElementAddAttachment),
            DbEnum::EditLog(EditLogType::ElementRemoveAttachment),
            DbEnum::EditLog(EditLogType::ElementSetControlPoints),
            DbEnum::EditLog(EditLogType::ElementSetPath),
            DbEnum::EditLog(EditLogType::ElementOrderInFront),
            DbEnum::EditLog(EditLogType::ElementOrderBehind),
            DbEnum::EditLog(EditLogType::ElementOrderToTop),
            DbEnum::EditLog(EditLogType::ElementOrderToBottom),
            DbEnum::EditLog(EditLogType::ElementOrderBefore),
            DbEnum::EditLog(EditLogType::ElementDelete),
            DbEnum::EditLog(EditLogType::ElementDetachFromFrame),
        ],
        DbEnumType::DrawingStyle => seq![
            DbEnum::DrawingStyle(DrawingStyleType::Draw),
            DbEnum::DrawingStyle(DrawingStyleType::Erase),
        ],
        DbEnumType::BrushDefinition => seq![
            DbEnum::BrushDefinition(BrushDefinitionType::Simple),
            DbEnum::BrushDefinition(BrushDefinitionType::Ink),
        ],
        DbEnumType::Color => seq![DbEnum::Color(ColorType::Rgb), DbEnum::Color(ColorType::Hsluv)],
        DbEnumType::Layer => seq![DbEnum::Layer(LayerType::Vector)],
        DbEnumType::VectorElement => seq![
            DbEnum::VectorElement(VectorElementType::BrushDefinition),
            DbEnum::VectorElement(VectorElementType::BrushProperties),
            DbEnum::VectorElement(VectorElementType::BrushStroke),
            DbEnum::VectorElement(VectorElementType::Path),
            DbEnum::VectorElement(VectorElementType::Motion),
        ],
        DbEnumType::MotionType => seq![
            DbEnum::MotionType(MotionType::Stationary),
            DbEnum::MotionType(MotionType::Translate),
            DbEnum::MotionType(MotionType::Reverse),
        ],
        DbEnumType::MotionPathType => seq![DbEnum::MotionPathType(MotionPathType::Position)],
        DbEnumType::PathPoint => seq![
            DbEnum::PathPoint(PathPointType::MoveTo),
            DbEnum::PathPoint(PathPointType::LineTo),
            DbEnum::PathPoint(PathPointType::ControlPoint),
            DbEnum::PathPoint(PathPointType::BezierTo),
            DbEnum::PathPoint(PathPointType::Close),
        ],
        DbEnumType::CacheType => seq![DbEnum::CacheType(CacheType::OnionSkinLayer)],
    }
}

/// Every tag stands in the list of its table, at the position of its code: the
/// lists leave no tag out.
pub proof fn lemma_code_identifies(e: DbEnum)
    ensures
        0 <= e.spec_code() < db_enum_values(e.spec_enum_type()).len(),
        db_enum_values(e.spec_enum_type())[e.spec_code()] == e,
        DbEnum::spec_from_code(e.spec_enum_type(), e.spec_code()) == Some(e),
{
}

/// The value at position `i` of a table's list belongs to that table and has the
/// code `i`: the lists hold no tag twice and none of another table.
pub proof fn lemma_values_in_code_order(t: DbEnumType, i: int)
    requires
        0 <= i < db_enum_values(t).len(),
    ensures
        db_enum_values(t)[i].spec_enum_type() == t,
        db_enum_values(t)[i].spec_code() == i,
        db_enum_values(t).len() <= 29,
{
}

/// Two tags of one table with the same code are the same tag.
pub proof fn lemma_code_injective(a: DbEnum, b: DbEnum)
    requires
        a.spec_enum_type() == b.spec_enum_type(),
        a.spec_code() == b.spec_code(),
    ensures
        a == b,
{
    lemma_code_identifies(a);
    lemma_code_identifies(b);
}

impl From<DbEnumType> for Vec<DbEnum> {
    /// Lists the values of one table of the catalogue, in the order of their codes.
    fn from(t: DbEnumType) -> (v: Vec<DbEnum>)
        ensures
            v@ == db_enum_values(t),
    {
        match t {
            DbEnumType::EditLog => vec![
                DbEnum::EditLog(EditLogType::SetSize),
                DbEnum::EditLog(EditLogType::AddNewLayer),
                DbEnum::EditLog(EditLogType::RemoveLayer),
                DbEnum::EditLog(EditLogType::LayerAddKeyFrame),
                DbEnum::EditLog(EditLogType::LayerRemoveKeyFrame),
                DbEnum::EditLog(EditLogType::LayerSetName),
                DbEnum::EditLog(EditLogType::LayerSetOrdering),
                DbEnum::EditLog(EditLogType::LayerPaintSelectBrush),
                DbEnum::EditLog(EditLogType::LayerPaintBrushProperties),
                DbEnum::EditLog(EditLogType::LayerPaintBrushStroke),
                DbEnum::EditLog(EditLogType::LayerPathCreatePath),
                DbEnum::EditLog(EditLogType::LayerPathSelectBrush),
                DbEnum::EditLog(EditLogType::LayerPathBrushProperties),
                DbEnum::EditLog(EditLogType::MotionCreate),
                DbEnum::EditLog(EditLogType::MotionDelete),
                DbEnum::EditLog(EditLogType::MotionSetType),
                DbEnum::EditLog(EditLogType::MotionSetOrigin),
                DbEnum::EditLog(EditLogType::MotionSetPath),
                DbEnum::EditLog(EditLogType::ElementAddAttachment),
                DbEnum::EditLog(EditLogType::ElementRemoveAttachment),
                DbEnum::EditLog(EditLogType::ElementSetControlPoints),
                DbEnum::EditLog(EditLogType::ElementSetPath),
                DbEnum::EditLog(EditLogType::ElementOrderInFront),
                DbEnum::EditLog(EditLogType::ElementOrderBehind),
                DbEnum::EditLog(EditLogType::ElementOrderToTop),
                DbEnum::EditLog(EditLogType::ElementOrderToBottom),
                DbEnum::EditLog(EditLogType::ElementOrderBefore),
                DbEnum::EditLog(EditLogType::ElementDelete),
                DbEnum::EditLog(EditLogType::ElementDetachFromFrame),
            ],
            DbEnumType::DrawingStyle => vec![
                DbEnum::DrawingStyle(DrawingStyleType::Draw),
                DbEnum::DrawingStyle(DrawingStyleType::Erase),
            ],
            DbEnumType::BrushDefinition => vec![
                DbEnum::BrushDefinition(BrushDefinitionType::Simple),
                DbEnum::BrushDefinition(BrushDefinitionType::Ink),
            ],
            DbEnumType::Color => vec![DbEnum::Color(ColorType::Rgb), DbEnum::Color(ColorType::Hsluv)],
            DbEnumType::Layer => vec![DbEnum::Layer(LayerType::Vector)],
            DbEnumType::VectorElement => vec![
                DbEnum::VectorElement(VectorElementType::BrushDefinition),
                DbEnum::VectorElement(VectorElementType::BrushProperties),
                DbEnum::VectorElement(VectorElementType::BrushStroke),
                DbEnum::VectorElement(VectorElementType::Path),
                DbEnum::VectorElement(VectorElementType::Motion),
            ],
            DbEnumType::MotionType => vec![
                DbEnum::MotionType(MotionType::Stationary),
                DbEnum::MotionType(MotionType::Translate),
                DbEnum::MotionType(MotionType::Reverse),
            ],
            DbEnumType::MotionPathType => vec![DbEnum::MotionPathType(MotionPathType::Position)],
            DbEnumType::PathPoint => vec![
                DbEnum::PathPoint(PathPointType::MoveTo),
                DbEnum::PathPoint(PathPointType::LineTo),
                DbEnum::PathPoint(PathPointType::ControlPoint),
                DbEnum::PathPoint(PathPointType::BezierTo),
                DbEnum::PathPoint(PathPointType::Close),
            ],
            DbEnumType::CacheType => vec![DbEnum::CacheType(CacheType::OnionSkinLayer)],
        }
    }
}

impl vstd::std_specs::convert::FromSpecImpl<DbEnumType> for Vec<DbEnum> {
    /// A vector is known by its view alone, so the conversion is specified by the
    /// `ensures` of `from` rather than by a value.
    open spec fn obeys_from_spec() -> bool {
        false
    }

    open spec fn from_spec(t: DbEnumType) -> Vec<DbEnum> {
        arbitrary()
    }
}

/// The tag under which an edit is written to the edit log.
pub open spec fn edit_log_type(edit: AnimationEditView) -> EditLogType {
    match edit {
        AnimationEditView::SetSize(_, _) => EditLogType::SetSize,
        AnimationEditView::AddNewLayer(_) => EditLogType::AddNewLayer,
        AnimationEditView::RemoveLayer(_) => EditLogType::RemoveLayer,
        AnimationEditView::Layer(_, layer_edit) => match layer_edit {
            LayerEditView::AddKeyFrame(_) => EditLogType::LayerAddKeyFrame,
            LayerEditView::RemoveKeyFrame(_) => EditLogType::LayerRemoveKeyFrame,
            LayerEditView::SetName(_) => EditLogType::LayerSetName,
            LayerEditView::SetOrdering(_) => EditLogType::LayerSetOrdering,
            LayerEditView::Paint(_, paint) => match paint {
                PaintEditView::SelectBrush(_, _, _) => EditLogType::LayerPaintSelectBrush,
                PaintEditView::BrushProperties(_, _) => EditLogType::LayerPaintBrushProperties,
                PaintEditView::BrushStroke(_, _) => EditLogType::LayerPaintBrushStroke,
            },
            LayerEditView::Path(_, path) => match path {
                PathEditView::CreatePath(_, _) => EditLogType::LayerPathCreatePath,
                PathEditView::SelectBrush(_, _, _) => EditLogType::LayerPathSelectBrush,
                PathEditView::BrushProperties(_, _) => EditLogType::LayerPathBrushProperties,
            },
        },
        AnimationEditView::Motion(_, motion_edit) => match motion_edit {
            MotionEditView::Create => EditLogType::MotionCreate,
            MotionEditView::Delete => EditLogType::MotionDelete,
            MotionEditView::SetType(_) => EditLogType::MotionSetType,
            MotionEditView::SetOrigin(_, _) => EditLogType::MotionSetOrigin,
            MotionEditView::SetPath(_) => EditLogType::MotionSetPath,
        },
        AnimationEditView::Element(_, element_edit) => match element_edit {
            ElementEditView::AddAttachment(_) => EditLogType::ElementAddAttachment,
            ElementEditView::RemoveAttachment(_) => EditLogType::ElementRemoveAttachment,
            ElementEditView::SetControlPoints(_) => EditLogType::ElementSetControlPoints,
            ElementEditView::SetPath(_) => EditLogType::ElementSetPath,
            ElementEditView::Order(ordering) => match ordering {
                ElementOrdering::InFront => EditLogType::ElementOrderInFront,
                ElementOrdering::Behind => EditLogType::ElementOrderBehind,
                ElementOrdering::ToTop => EditLogType::ElementOrderToTop,
                ElementOrdering::ToBottom => EditLogType::ElementOrderToBottom,
                ElementOrdering::Before(_) => EditLogType::ElementOrderBefore,
            },
            ElementEditView::Delete => EditLogType::ElementDelete,
            ElementEditView::DetachFromFrame => EditLogType::ElementDetachFromFrame,
        },
    }
}

impl<'a> From<&'a AnimationEdit> for EditLogType {
    /// The tag under which an edit is written to the edit log.
    fn from(t: &'a AnimationEdit) -> (r: EditLogType) {
        match t {
            AnimationEdit::SetSize(_, _) => EditLogType::SetSize,
            AnimationEdit::AddNewLayer(_) => EditLogType::AddNewLayer,
            AnimationEdit::RemoveLayer(_) => EditLogType::RemoveLayer,
            AnimationEdit::Layer(_, LayerEdit::AddKeyFrame(_)) => EditLogType::LayerAddKeyFrame,
            AnimationEdit::Layer(_, LayerEdit::RemoveKeyFrame(_)) => EditLogType::LayerRemoveKeyFrame,
            AnimationEdit::Layer(_, LayerEdit::SetName(_)) => EditLogType::LayerSetName,
            AnimationEdit::Layer(_, LayerEdit::Paint(_, PaintEdit::SelectBrush(_, _, _))) => EditLogType::LayerPaintSelectBrush,
            AnimationEdit::Layer(_, LayerEdit::Paint(_, PaintEdit::BrushProperties(_, _))) => EditLogType::LayerPaintBrushProperties,
            AnimationEdit::Layer(_, LayerEdit::Paint(_, PaintEdit::BrushStroke(_, _))) => EditLogType::LayerPaintBrushStroke,
            AnimationEdit::Layer(_, LayerEdit::SetOrdering(_)) => EditLogType::LayerSetOrdering,
            AnimationEdit::Layer(_, LayerEdit::Path(_, PathEdit::CreatePath(_, _))) => EditLogType::LayerPathCreatePath,
            AnimationEdit::Layer(_, LayerEdit::Path(_, PathEdit::SelectBrush(_, _, _))) => EditLogType::LayerPathSelectBrush,
            AnimationEdit::Layer(_, LayerEdit::Path(_, PathEdit::BrushProperties(_, _))) => EditLogType::LayerPathBrushProperties,
            AnimationEdit::Motion(_, MotionEdit::Create) => EditLogType::MotionCreate,
            AnimationEdit::Motion(_, MotionEdit::Delete) => EditLogType::MotionDelete,
            AnimationEdit::Motion(_, MotionEdit::SetType(_)) => EditLogType::MotionSetType,
            AnimationEdit::Motion(_, MotionEdit::SetOrigin(_, _)) => EditLogType::MotionSetOrigin,
            AnimationEdit::Motion(_, MotionEdit::SetPath(_)) => EditLogType::MotionSetPath,
            AnimationEdit::Element(_, ElementEdit::AddAttachment(_)) => EditLogType::ElementAddAttachment,
            AnimationEdit::Element(_, ElementEdit::RemoveAttachment(_)) => EditLogType::ElementRemoveAttachment,
            AnimationEdit::Element(_, ElementEdit::SetControlPoints(_)) => EditLogType::ElementSetControlPoints,
            AnimationEdit::Element(_, ElementEdit::SetPath(_)) => EditLogType::ElementSetPath,
            AnimationEdit::Element(_, ElementEdit::Order(ElementOrdering::InFront)) => EditLogType::ElementOrderInFront,
            AnimationEdit::Element(_, ElementEdit::Order(ElementOrdering::Behind)) => EditLogType::ElementOrderBehind,
            AnimationEdit::Element(_, ElementEdit::Order(ElementOrdering::ToTop)) => EditLogType::ElementOrderToTop,
            AnimationEdit::Element(_, ElementEdit::Order(ElementOrdering::ToBottom)) => EditLogType::ElementOrderToBottom,
            AnimationEdit::Element(_, ElementEdit::Order(ElementOrdering::Before(_))) => EditLogType::ElementOrderBefore,
            AnimationEdit::Element(_, ElementEdit::Delete) => EditLogType::ElementDelete,
            AnimationEdit::Element(_, ElementEdit::DetachFromFrame) => EditLogType::ElementDetachFromFrame,
        }
    }
}

impl<'a> vstd::std_specs::convert::FromSpecImpl<&'a AnimationEdit> for EditLogType {
    open spec fn obeys_from_spec() -> bool {
        true
    }

    open spec fn from_spec(t: &'a AnimationEdit) -> EditLogType {
        edit_log_type(t@)
    }
}

impl<'a> From<&'a BrushDrawingStyle> for DrawingStyleType {
    fn from(t: &'a BrushDrawingStyle) -> (r: DrawingStyleType) {
        match t {
            BrushDrawingStyle::Draw => DrawingStyleType::Draw,
            BrushDrawingStyle::Erase => DrawingStyleType::Erase,
        }
    }
}

impl<'a> vstd::std_specs::convert::FromSpecImpl<&'a BrushDrawingStyle> for DrawingStyleType {
    open spec fn obeys_from_spec() -> bool {
        true
    }

    open spec fn from_spec(t: &'a BrushDrawingStyle) -> DrawingStyleType {
        drawing_style_type(*t)
    }
}

/// The persisted tag of a drawing style.
pub open spec fn drawing_style_type(style: BrushDrawingStyle) -> DrawingStyleType {
    match style {
        BrushDrawingStyle::Draw => DrawingStyleType::Draw,
        BrushDrawingStyle::Erase => DrawingStyleType::Erase,
    }
}

/// The drawing style that a persisted tag stands for.
pub open spec fn drawing_style_of(t: DrawingStyleType) -> BrushDrawingStyle {
    match t {
        DrawingStyleType::Draw => BrushDrawingStyle::Draw,
        DrawingStyleType::Erase => BrushDrawingStyle::Erase,
    }
}

impl From<DrawingStyleType> for BrushDrawingStyle {
    fn from(t: DrawingStyleType) -> (r: BrushDrawingStyle) {
        match t {
            DrawingStyleType::Draw => BrushDrawingStyle::Draw,
            DrawingStyleType::Erase => BrushDrawingStyle::Erase,
        }
    }
}

impl vstd::std_specs::convert::FromSpecImpl<DrawingStyleType> for BrushDrawingStyle {
    open spec fn obeys_from_spec() -> bool {
        true
    }

    open spec fn from_spec(t: DrawingStyleType) -> BrushDrawingStyle {
        drawing_style_of(t)
    }
}

/// A drawing style comes back from its persisted tag, and a tag from its style.
pub proof fn lemma_drawing_style_round_trip(style: BrushDrawingStyle, t: DrawingStyleType)
    ensures
        drawing_style_of(drawing_style_type(style)) == style,
        drawing_style_type(drawing_style_of(t)) == t,
{
}

/// The kind of element that a paint edit creates.
pub open spec fn paint_element_type(edit: PaintEditView) -> VectorElementType {
    match edit {
        PaintEditView::SelectBrush(_, _, _) => VectorElementType::BrushDefinition,
        PaintEditView::BrushProperties(_, _) => VectorElementType::BrushProperties,
        PaintEditView::BrushStroke(_, _) => VectorElementType::BrushStroke,
    }
}

impl<'a> From<&'a PaintEdit> for VectorElementType {
    fn from(t: &'a PaintEdit) -> (r: VectorElementType) {
        match t {
            PaintEdit::SelectBrush(_, _, _) => VectorElementType::BrushDefinition,
            PaintEdit::BrushProperties(_, _) => VectorElementType::BrushProperties,
            PaintEdit::BrushStroke(_, _) => VectorElementType::BrushStroke,
        }
    }
}

impl<'a> vstd::std_specs::convert::FromSpecImpl<&'a PaintEdit> for VectorElementType {
    open spec fn obeys_from_spec() -> bool {
        true
    }

    open spec fn from_spec(t: &'a PaintEdit) -> VectorElementType {
        paint_element_type(t@)
    }
}

/// The persisted tag of a brush definition.
pub open spec fn brush_definition_type(defn: BrushDefinition) -> BrushDefinitionType {
    match defn {
        BrushDefinition::Simple => BrushDefinitionType::Simple,
        BrushDefinition::Ink(_) => BrushDefinitionType::Ink,
    }
}

impl<'a> From<&'a BrushDefinition> for BrushDefinitionType {
    fn from(t: &'a BrushDefinition) -> (r: BrushDefinitionType) {
        match t {
            BrushDefinition::Simple => BrushDefinitionType::Simple,
            BrushDefinition::Ink(_) => BrushDefinitionType::Ink,
        }
    }
}

impl<'a> vstd::std_specs::convert::FromSpecImpl<&'a BrushDefinition> for BrushDefinitionType {
    open spec fn obeys_from_spec() -> bool {
        true
    }

    open spec fn from_spec(t: &'a BrushDefinition) -> BrushDefinitionType {
        brush_definition_type(*t)
    }
}

/// The kind of element that a persisted element tag stands for.
pub open spec fn vector_type_of(t: VectorElementType) -> VectorType {
    match t {
        VectorElementType::BrushDefinition => VectorType::BrushDefinition,
        VectorElementType::BrushProperties => VectorType::BrushProperties,
        VectorElementType::BrushStroke => VectorType::BrushStroke,
        VectorElementType::Path => VectorType::Path,
        VectorElementType::Motion => VectorType::Motion,
    }
}

impl From<VectorElementType> for VectorType {
    fn from(t: VectorElementType) -> (r: VectorType) {
        match t {
            VectorElementType::BrushDefinition => VectorType::BrushDefinition,
            VectorElementType::BrushProperties => VectorType::BrushProperties,
            VectorElementType::BrushStroke => VectorType::BrushStroke,
            VectorElementType::Path => VectorType::Path,
            VectorElementType::Motion => VectorType::Motion,
        }
    }
}

impl vstd::std_specs::convert::FromSpecImpl<VectorElementType> for VectorType {
    open spec fn obeys_from_spec() -> bool {
        true
    }

    open spec fn from_spec(t: VectorElementType) -> VectorType {
        vector_type_of(t)
    }
}

} // verus!
