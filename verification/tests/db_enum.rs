use flo_anim_store::animation::brush::{BrushDefinition, BrushDrawingStyle, BrushProperties, Color, InkDefinition};
use flo_anim_store::animation::cache_type::CacheType;
use flo_anim_store::animation::edit::{AnimationEdit, ElementEdit, ElementOrdering, LayerEdit, MotionEdit, PaintEdit, PathEdit};
use flo_anim_store::animation::element_id::ElementId;
use flo_anim_store::animation::motion::{MotionType, TimeCurve};
use flo_anim_store::animation::vector_type::VectorType;
use flo_anim_store::db::db_enum::{BrushDefinitionType, ColorType, DbEnum, DbEnumType, DrawingStyleType, EditLogType, LayerType, PathPointType, VectorElementType};
use flo_anim_store::db::db_enum_name::DbEnumName;
use flo_anim_store::db::motion_path_type::MotionPathType;

fn all_types() -> Vec<DbEnumType> {
    vec![
        DbEnumType::EditLog,
        DbEnumType::DrawingStyle,
        DbEnumType::BrushDefinition,
        DbEnumType::Color,
        DbEnumType::Layer,
        DbEnumType::VectorElement,
        DbEnumType::MotionType,
        DbEnumType::MotionPathType,
        DbEnumType::PathPoint,
        DbEnumType::CacheType,
    ]
}

#[test]
fn every_table_lists_its_values_in_code_order() {
    for enum_type in all_types() {
        let values = Vec::<DbEnum>::from(enum_type);
        assert!(!values.is_empty());
        for (index, value) in values.iter().enumerate() {
            assert_eq!(value.enum_type(), enum_type);
            assert_eq!(value.code(), index as i64);
            assert_eq!(DbEnum::from_code(enum_type, index as i64), Some(*value));
        }
        assert_eq!(DbEnum::from_code(enum_type, values.len() as i64), None);
        assert_eq!(DbEnum::from_code(enum_type, -1), None);
    }
}

#[test]
fn table_sizes_are_as_catalogued() {
    assert_eq!(Vec::<DbEnum>::from(DbEnumType::EditLog).len(), 29);
    assert_eq!(Vec::<DbEnum>::from(DbEnumType::DrawingStyle).len(), 2);
    assert_eq!(Vec::<DbEnum>::from(DbEnumType::BrushDefinition).len(), 2);
    assert_eq!(Vec::<DbEnum>::from(DbEnumType::Color).len(), 2);
    assert_eq!(Vec::<DbEnum>::from(DbEnumType::Layer).len(), 1);
    assert_eq!(Vec::<DbEnum>::from(DbEnumType::VectorElement).len(), 5);
    assert_eq!(Vec::<DbEnum>::from(DbEnumType::MotionType).len(), 3);
    assert_eq!(Vec::<DbEnum>::from(DbEnumType::MotionPathType).len(), 1);
    assert_eq!(Vec::<DbEnum>::from(DbEnumType::PathPoint).len(), 5);
    assert_eq!(Vec::<DbEnum>::from(DbEnumType::CacheType).len(), 1);
}

#[test]
fn persisted_codes_are_stable() {
    assert_eq!(DbEnum::EditLog(EditLogType::SetSize).code(), 0);
    assert_eq!(DbEnum::EditLog(EditLogType::LayerSetOrdering).code(), 6);
    assert_eq!(DbEnum::EditLog(EditLogType::LayerPaintSelectBrush).code(), 7);
    assert_eq!(DbEnum::EditLog(EditLogType::ElementDetachFromFrame).code(), 28);
    assert_eq!(DbEnum::DrawingStyle(DrawingStyleType::Erase).code(), 1);
    assert_eq!(DbEnum::MotionType(MotionType::Stationary).code(), 0);
    assert_eq!(DbEnum::MotionType(MotionType::Translate).code(), 1);
    assert_eq!(DbEnum::MotionType(MotionType::Reverse).code(), 2);
    assert_eq!(DbEnum::PathPoint(PathPointType::Close).code(), 4);
    assert_eq!(DbEnum::VectorElement(VectorElementType::Motion).code(), 4);
}

#[test]
fn names_are_as_catalogued() {
    assert_eq!(DbEnumName::from(EditLogType::SetSize), DbEnumName("Edit", "SetSize"));
    assert_eq!(
        DbEnumName::from(EditLogType::LayerPaintBrushStroke),
        DbEnumName("Edit", "Layer::Paint::BrushStroke")
    );
    assert_eq!(DbEnumName::from(EditLogType::ElementOrderBefore), DbEnumName("Edit", "Element::OrderBefore"));
    assert_eq!(DbEnumName::from(DrawingStyleType::Draw), DbEnumName("DrawingStyle", "Draw"));
    assert_eq!(DbEnumName::from(BrushDefinitionType::Ink), DbEnumName("BrushType", "Ink"));
    assert_eq!(DbEnumName::from(ColorType::Rgb), DbEnumName("ColorType", "RGB"));
    assert_eq!(DbEnumName::from(ColorType::Hsluv), DbEnumName("ColorType", "HSLUV"));
    assert_eq!(DbEnumName::from(LayerType::Vector), DbEnumName("LayerType", "Vector"));
    assert_eq!(DbEnumName::from(VectorElementType::Path), DbEnumName("VectorElementType", "Path"));
    assert_eq!(DbEnumName::from(MotionType::Stationary), DbEnumName("MotionType", "None"));
    assert_eq!(DbEnumName::from(MotionType::Reverse), DbEnumName("MotionType", "Reverse"));
    assert_eq!(DbEnumName::from(MotionPathType::Position), DbEnumName("MotionPathType", "Position"));
    assert_eq!(DbEnumName::from(PathPointType::BezierTo), DbEnumName("PathPointType", "BezierTo"));
    assert_eq!(DbEnumName::from(CacheType::OnionSkinLayer), DbEnumName("CacheType", "OnionSkinLayer"));
    assert_eq!(
        DbEnumName::from(DbEnum::EditLog(EditLogType::MotionSetPath)),
        DbEnumName("Edit", "Motion::SetPath")
    );
    assert_eq!(DbEnumName::from(DbEnum::CacheType(CacheType::OnionSkinLayer)), DbEnumName("CacheType", "OnionSkinLayer"));
}

#[test]
fn names_within_a_table_differ() {
    for enum_type in all_types() {
        let values = Vec::<DbEnum>::from(enum_type);
        for a in 0..values.len() {
            for b in (a + 1)..values.len() {
                assert_ne!(DbEnumName::from(values[a]), DbEnumName::from(values[b]));
            }
        }
    }
}

#[test]
fn accessors_pick_their_own_table() {
    let value = DbEnum::EditLog(EditLogType::AddNewLayer);
    assert_eq!(value.edit_log(), Some(EditLogType::AddNewLayer));
    assert_eq!(value.drawing_style(), None);
    assert_eq!(value.brush_definition(), None);
    assert_eq!(value.color(), None);
    assert_eq!(value.layer(), None);
    assert_eq!(value.vector_element(), None);
    assert_eq!(value.motion_type(), None);
    assert_eq!(value.cache_type(), None);
    assert_eq!(DbEnum::DrawingStyle(DrawingStyleType::Erase).drawing_style(), Some(DrawingStyleType::Erase));
    assert_eq!(DbEnum::BrushDefinition(BrushDefinitionType::Ink).brush_definition(), Some(BrushDefinitionType::Ink));
    assert_eq!(DbEnum::Color(ColorType::Hsluv).color(), Some(ColorType::Hsluv));
    assert_eq!(DbEnum::Layer(LayerType::Vector).layer(), Some(LayerType::Vector));
    assert_eq!(DbEnum::VectorElement(VectorElementType::Path).vector_element(), Some(VectorElementType::Path));
    assert_eq!(DbEnum::MotionType(MotionType::Translate).motion_type(), Some(MotionType::Translate));
    assert_eq!(DbEnum::CacheType(CacheType::OnionSkinLayer).cache_type(), Some(CacheType::OnionSkinLayer));
}

fn properties() -> BrushProperties {
    BrushProperties { size: 1, opacity: 2, color: Color::Rgba(0, 0, 0, 0) }
}

#[test]
fn every_edit_has_its_tag() {
    let id = ElementId::Assigned(1);
    let cases: Vec<(AnimationEdit, EditLogType)> = vec![
        (AnimationEdit::SetSize(1, 2), EditLogType::SetSize),
        (AnimationEdit::AddNewLayer(1), EditLogType::AddNewLayer),
        (AnimationEdit::RemoveLayer(1), EditLogType::RemoveLayer),
        (AnimationEdit::Layer(1, LayerEdit::AddKeyFrame(0)), EditLogType::LayerAddKeyFrame),
        (AnimationEdit::Layer(1, LayerEdit::RemoveKeyFrame(0)), EditLogType::LayerRemoveKeyFrame),
        (AnimationEdit::Layer(1, LayerEdit::SetName("a".to_string())), EditLogType::LayerSetName),
        (AnimationEdit::Layer(1, LayerEdit::SetOrdering(3)), EditLogType::LayerSetOrdering),
        (
            AnimationEdit::Layer(
                1,
                LayerEdit::Paint(0, PaintEdit::SelectBrush(id, BrushDefinition::Simple, BrushDrawingStyle::Draw)),
            ),
            EditLogType::LayerPaintSelectBrush,
        ),
        (
            AnimationEdit::Layer(1, LayerEdit::Paint(0, PaintEdit::BrushProperties(id, properties()))),
            EditLogType::LayerPaintBrushProperties,
        ),
        (
            AnimationEdit::Layer(1, LayerEdit::Paint(0, PaintEdit::BrushStroke(id, vec![]))),
            EditLogType::LayerPaintBrushStroke,
        ),
        (
            AnimationEdit::Layer(1, LayerEdit::Path(0, PathEdit::CreatePath(id, vec![]))),
            EditLogType::LayerPathCreatePath,
        ),
        (
            AnimationEdit::Layer(
                1,
                LayerEdit::Path(0, PathEdit::SelectBrush(id, BrushDefinition::Simple, BrushDrawingStyle::Erase)),
            ),
            EditLogType::LayerPathSelectBrush,
        ),
        (
            AnimationEdit::Layer(1, LayerEdit::Path(0, PathEdit::BrushProperties(id, properties()))),
            EditLogType::LayerPathBrushProperties,
        ),
        (AnimationEdit::Motion(id, MotionEdit::Create), EditLogType::MotionCreate),
        (AnimationEdit::Motion(id, MotionEdit::Delete), EditLogType::MotionDelete),
        (AnimationEdit::Motion(id, MotionEdit::SetType(MotionType::Translate)), EditLogType::MotionSetType),
        (AnimationEdit::Motion(id, MotionEdit::SetOrigin(1, 2)), EditLogType::MotionSetOrigin),
        (
            AnimationEdit::Motion(id, MotionEdit::SetPath(TimeCurve { points: vec![] })),
            EditLogType::MotionSetPath,
        ),
        (AnimationEdit::Element(vec![id], ElementEdit::AddAttachment(id)), EditLogType::ElementAddAttachment),
        (
            AnimationEdit::Element(vec![id], ElementEdit::RemoveAttachment(id)),
            EditLogType::ElementRemoveAttachment,
        ),
        (
            AnimationEdit::Element(vec![id], ElementEdit::SetControlPoints(vec![])),
            EditLogType::ElementSetControlPoints,
        ),
        (AnimationEdit::Element(vec![id], ElementEdit::SetPath(vec![])), EditLogType::ElementSetPath),
        (
            AnimationEdit::Element(vec![id], ElementEdit::Order(ElementOrdering::InFront)),
            EditLogType::ElementOrderInFront,
        ),
        (
            AnimationEdit::Element(vec![id], ElementEdit::Order(ElementOrdering::Behind)),
            EditLogType::ElementOrderBehind,
        ),
        (
            AnimationEdit::Element(vec![id], ElementEdit::Order(ElementOrdering::ToTop)),
            EditLogType::ElementOrderToTop,
        ),
        (
            AnimationEdit::Element(vec![id], ElementEdit::Order(ElementOrdering::ToBottom)),
            EditLogType::ElementOrderToBottom,
        ),
        (
            AnimationEdit::Element(vec![id], ElementEdit::Order(ElementOrdering::Before(id))),
            EditLogType::ElementOrderBefore,
        ),
        (AnimationEdit::Element(vec![id], ElementEdit::Delete), EditLogType::ElementDelete),
        (AnimationEdit::Element(vec![id], ElementEdit::DetachFromFrame), EditLogType::ElementDetachFromFrame),
    ];
    assert_eq!(cases.len(), 29);
    for (edit, expected) in cases.iter() {
        assert_eq!(EditLogType::from(edit), *expected);
    }
}

#[test]
fn tags_convert_to_and_from_what_they_stand_for() {
    assert_eq!(DrawingStyleType::from(&BrushDrawingStyle::Draw), DrawingStyleType::Draw);
    assert_eq!(DrawingStyleType::from(&BrushDrawingStyle::Erase), DrawingStyleType::Erase);
    assert_eq!(BrushDrawingStyle::from(DrawingStyleType::Draw), BrushDrawingStyle::Draw);
    assert_eq!(BrushDrawingStyle::from(DrawingStyleType::Erase), BrushDrawingStyle::Erase);
    assert_eq!(BrushDefinitionType::from(&BrushDefinition::Simple), BrushDefinitionType::Simple);
    assert_eq!(
        BrushDefinitionType::from(&BrushDefinition::Ink(InkDefinition::default())),
        BrushDefinitionType::Ink
    );
    assert_eq!(VectorType::from(VectorElementType::BrushDefinition), VectorType::BrushDefinition);
    assert_eq!(VectorType::from(VectorElementType::BrushProperties), VectorType::BrushProperties);
    assert_eq!(VectorType::from(VectorElementType::BrushStroke), VectorType::BrushStroke);
    assert_eq!(VectorType::from(VectorElementType::Path), VectorType::Path);
    assert_eq!(VectorType::from(VectorElementType::Motion), VectorType::Motion);
    let into: VectorType = VectorElementType::Motion.into();
    assert_eq!(into, VectorType::Motion);
    let id = ElementId::Unassigned;
    assert_eq!(
        VectorElementType::from(&PaintEdit::SelectBrush(id, BrushDefinition::Simple, BrushDrawingStyle::Draw)),
        VectorElementType::BrushDefinition
    );
    assert_eq!(
        VectorElementType::from(&PaintEdit::BrushProperties(id, properties())),
        VectorElementType::BrushProperties
    );
    assert_eq!(VectorElementType::from(&PaintEdit::BrushStroke(id, vec![])), VectorElementType::BrushStroke);
}

#[test]
fn defaults_are_the_documented_values() {
    let ink = InkDefinition::default();
    assert_eq!(f32::from_bits(ink.min_width), 0.25);
    assert_eq!(f32::from_bits(ink.max_width), 5.0);
    assert_eq!(f32::from_bits(ink.scale_up_distance), 80.0);
    let properties = BrushProperties::new();
    assert_eq!(f32::from_bits(properties.size), 50.0);
    assert_eq!(f32::from_bits(properties.opacity), 1.0);
    assert_eq!(properties.color, Color::Rgba(0, 0, 0, 1.0f32.to_bits()));
}

#[test]
fn element_ids_know_whether_they_are_assigned() {
    assert!(ElementId::Assigned(3).is_assigned());
    assert!(!ElementId::Assigned(3).is_unassigned());
    assert!(ElementId::Unassigned.is_unassigned());
    assert!(!ElementId::Unassigned.is_assigned());
    assert_eq!(ElementId::Assigned(3).id(), Some(3));
    assert_eq!(ElementId::Unassigned.id(), None);
}
