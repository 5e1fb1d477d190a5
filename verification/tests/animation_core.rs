use flo_anim_store::animation::brush::{BrushDefinition, BrushDrawingStyle, BrushPoint, BrushProperties, Color, InkDefinition, RawPoint};
use flo_anim_store::animation::brushes::UnfittedBrush;
use flo_anim_store::animation::cache_type::CacheType;
use flo_anim_store::animation::edit::{AnimationEdit, ElementEdit, ElementOrdering, LayerEdit, MotionEdit, PaintEdit, PathEdit};
use flo_anim_store::animation::element_id::ElementId;
use flo_anim_store::animation::motion::{MotionType, TimeControlPoint, TimeCurve, TimePoint};
use flo_anim_store::animation::path::{PathComponent, PathPoint};
use flo_anim_store::animation::vector::VectorProperties;
use flo_anim_store::db::animation_core::{ActiveBrush, AnimationDbCore, EditOutcome, SkipReason};
use flo_anim_store::db::db_enum::{DrawingStyleType, VectorElementType};
use flo_anim_store::db::edit_sink::{count_wanted_ids, wants_id};
use flo_anim_store::db::error::{StoreError, UnsupportedOperation};
use flo_anim_store::db::flo_file::{FloQuery, FloStore};
use flo_anim_store::db::flo_memory::FloMemory;
use flo_anim_store::db::flo_store::DatabaseUpdate;
use flo_anim_store::db::rows::ElementDetail;

type Core = AnimationDbCore<FloMemory, UnfittedBrush>;

fn bits(value: f32) -> u32 {
    value.to_bits()
}

fn black() -> Color {
    Color::Rgba(bits(0.0), bits(0.0), bits(0.0), bits(1.0))
}

fn plain_properties() -> BrushProperties {
    BrushProperties { size: bits(1.0), opacity: bits(1.0), color: black() }
}

fn raw(x: f32, y: f32, pressure: f32) -> RawPoint {
    RawPoint { position: (bits(x), bits(y)), pressure: bits(pressure), tilt: (bits(0.0), bits(0.0)) }
}

fn new_core() -> Core {
    AnimationDbCore::new(FloMemory::new(), UnfittedBrush)
}

fn layer_id(core: &Core, assigned: u64) -> i64 {
    core.db.query_layer_id_for_assigned_id(assigned).unwrap().0
}

fn core_with_layer() -> Core {
    let mut core = new_core();
    core.perform_edits(vec![AnimationEdit::AddNewLayer(1), AnimationEdit::Layer(1, LayerEdit::AddKeyFrame(0))])
        .unwrap();
    core
}

fn paint(edit: PaintEdit) -> AnimationEdit {
    AnimationEdit::Layer(1, LayerEdit::Paint(0, edit))
}

fn path(edit: PathEdit) -> AnimationEdit {
    AnimationEdit::Layer(1, LayerEdit::Path(0, edit))
}

fn basic_stroke() -> Vec<AnimationEdit> {
    vec![
        AnimationEdit::AddNewLayer(1),
        AnimationEdit::Layer(1, LayerEdit::AddKeyFrame(0)),
        paint(PaintEdit::SelectBrush(ElementId::Unassigned, BrushDefinition::Simple, BrushDrawingStyle::Draw)),
        paint(PaintEdit::BrushProperties(ElementId::Unassigned, plain_properties())),
        paint(PaintEdit::BrushStroke(
            ElementId::Unassigned,
            vec![raw(0.0, 0.0, 0.5), raw(10.0, 5.0, 0.75), raw(20.0, 0.0, 1.0)],
        )),
    ]
}

#[test]
fn basic_stroke_shows_in_the_frame_with_its_properties() {
    let mut core = new_core();
    assert_eq!(core.perform_edits(basic_stroke()), Ok(()));

    let frame = core.get_frame_at_time(layer_id(&core, 1), 0);
    assert_eq!(frame.len(), 1);
    assert_eq!(frame[0].element.element_type, VectorElementType::BrushStroke);
    assert_eq!(frame[0].element.assigned, Some(2));
    assert_eq!(f32::from_bits(frame[0].properties.brush_properties.size), 1.0);
    assert_eq!(f32::from_bits(frame[0].properties.brush_properties.opacity), 1.0);
    assert_eq!(frame[0].properties.brush_properties.color, black());
    assert_eq!(frame[0].properties.brush, BrushDefinition::Simple);
    assert_eq!(frame[0].properties.drawing_style, BrushDrawingStyle::Draw);

    let points = core.db.query_brush_points(frame[0].element.id).unwrap();
    assert_eq!(
        points,
        vec![
            BrushPoint {
                position: (bits(0.0), bits(0.0)),
                cp1: (bits(0.0), bits(0.0)),
                cp2: (bits(0.0), bits(0.0)),
                width: bits(0.5)
            },
            BrushPoint {
                position: (bits(10.0), bits(5.0)),
                cp1: (bits(10.0), bits(5.0)),
                cp2: (bits(10.0), bits(5.0)),
                width: bits(0.75)
            },
            BrushPoint {
                position: (bits(20.0), bits(0.0)),
                cp1: (bits(20.0), bits(0.0)),
                cp2: (bits(20.0), bits(0.0)),
                width: bits(1.0)
            },
        ]
    );
    assert_eq!(core.get_num_edits(), 5);
}

#[test]
fn attached_properties_come_back_exactly() {
    let mut core = core_with_layer();
    let ink = BrushDefinition::Ink(InkDefinition { min_width: bits(0.5), max_width: bits(7.5), scale_up_distance: bits(33.0) });
    let properties = BrushProperties {
        size: bits(12.25),
        opacity: bits(0.125),
        color: Color::Hsluv(bits(200.0), bits(50.0), bits(25.0), bits(0.5)),
    };
    core.perform_edits(vec![
        paint(PaintEdit::SelectBrush(ElementId::Unassigned, ink, BrushDrawingStyle::Erase)),
        paint(PaintEdit::BrushProperties(ElementId::Unassigned, properties)),
        paint(PaintEdit::BrushStroke(ElementId::Unassigned, vec![raw(1.0, 1.0, 1.0)])),
    ])
    .unwrap();
    let frame = core.get_frame_at_time(layer_id(&core, 1), 0);
    assert_eq!(frame.len(), 1);
    assert_eq!(
        frame[0].properties,
        VectorProperties { brush: ink, drawing_style: BrushDrawingStyle::Erase, brush_properties: properties }
    );
    assert_eq!(core.get_element_properties(&frame[0].element), frame[0].properties);
}

#[test]
fn a_stroke_without_selections_is_drawn_with_the_default_properties() {
    let mut core = core_with_layer();
    core.perform_edits(vec![paint(PaintEdit::BrushStroke(ElementId::Unassigned, vec![raw(1.0, 1.0, 1.0)]))])
        .unwrap();
    let frame = core.get_frame_at_time(layer_id(&core, 1), 0);
    assert_eq!(frame.len(), 1);
    assert_eq!(frame[0].properties, VectorProperties::default());
    assert_eq!(core.db.query_brush_points(frame[0].element.id), None);
}

#[test]
fn path_needs_both_selections() {
    let mut core = core_with_layer();
    let components = vec![PathComponent::Move(PathPoint { position: (1, 2) }), PathComponent::Close];
    let create = path(PathEdit::CreatePath(ElementId::Unassigned, components.clone()));

    assert_eq!(core.perform_edit(&create), Ok(EditOutcome::Skipped(SkipReason::PathBrushNotSelected)));
    assert_eq!(core.get_frame_at_time(layer_id(&core, 1), 0), vec![]);

    let select = path(PathEdit::SelectBrush(ElementId::Assigned(50), BrushDefinition::Simple, BrushDrawingStyle::Draw));
    assert_eq!(core.perform_edit(&select), Ok(EditOutcome::Applied));
    assert_eq!(core.perform_edit(&create), Ok(EditOutcome::Skipped(SkipReason::PathPropertiesNotSelected)));
    assert_eq!(core.get_frame_at_time(layer_id(&core, 1), 0), vec![]);

    let properties = path(PathEdit::BrushProperties(ElementId::Assigned(51), plain_properties()));
    assert_eq!(core.perform_edit(&properties), Ok(EditOutcome::Applied));
    let create = path(PathEdit::CreatePath(ElementId::Assigned(52), components.clone()));
    assert_eq!(core.perform_edit(&create), Ok(EditOutcome::Applied));

    let frame = core.get_frame_at_time(layer_id(&core, 1), 0);
    assert_eq!(frame.len(), 1);
    assert_eq!(frame[0].element.element_type, VectorElementType::Path);
    assert_eq!(frame[0].properties.brush_properties, plain_properties());
    assert_eq!(frame[0].properties.brush, BrushDefinition::Simple);
    let entry = core.db.query_path_element(frame[0].element.id).unwrap();
    assert_eq!(core.db.query_path_components(entry.path_id), Some(components));
}

#[test]
fn a_skipped_path_is_written_to_the_log_all_the_same() {
    let mut core = core_with_layer();
    let create = path(PathEdit::CreatePath(ElementId::Unassigned, vec![PathComponent::Close]));
    assert_eq!(core.perform_edits(vec![create]), Ok(()));
    assert_eq!(core.get_num_edits(), 3);
    assert_eq!(core.get_frame_at_time(layer_id(&core, 1), 0), vec![]);
}

#[test]
fn detach_from_frame_keeps_the_element() {
    let mut core = new_core();
    core.perform_edits(basic_stroke()).unwrap();
    let layer = layer_id(&core, 1);
    let before = core.get_frame_at_time(layer, 0)[0].element;

    core.perform_edits(vec![AnimationEdit::Element(vec![ElementId::Assigned(2)], ElementEdit::DetachFromFrame)])
        .unwrap();

    assert_eq!(core.get_frame_at_time(layer, 0), vec![]);
    let id = core.db.query_vector_element_id(&ElementId::Assigned(2)).unwrap();
    assert_eq!(id, before.id);
    let row = core.db.query_vector_element(id).unwrap();
    assert_eq!(row.element_type, VectorElementType::BrushStroke);
    assert_eq!(row.detail, before.detail);
    assert_eq!(row.frame, None);
    assert_eq!(core.db.query_brush_points(id).unwrap().len(), 3);
}

#[test]
fn a_failing_batch_leaves_no_trace() {
    let mut core = new_core();
    core.perform_edits(vec![AnimationEdit::SetSize(1, 2)]).unwrap();

    let result = core.perform_edits(vec![
        AnimationEdit::AddNewLayer(1),
        AnimationEdit::Layer(1, LayerEdit::AddKeyFrame(0)),
        AnimationEdit::Layer(2, LayerEdit::AddKeyFrame(0)),
    ]);

    assert_eq!(result, Err(StoreError::MissingLayer));
    assert_eq!(core.get_num_edits(), 1);
    assert_eq!(core.db.query_layer_id_for_assigned_id(1), None);
    assert_eq!(core.db.query_size(), Some((1, 2)));
    assert!(core.layer_id_for_assigned_id.is_empty());
}

#[test]
fn an_error_blocks_edits_until_it_is_taken_away() {
    let mut core = new_core();
    assert_eq!(
        core.perform_edits(vec![AnimationEdit::Layer(9, LayerEdit::AddKeyFrame(0))]),
        Err(StoreError::MissingLayer)
    );
    assert_eq!(core.perform_edits(vec![AnimationEdit::AddNewLayer(1)]), Err(StoreError::MissingLayer));
    assert_eq!(core.db.query_layer_id_for_assigned_id(1), None);
    assert_eq!(core.get_num_edits(), 0);

    assert_eq!(core.retrieve_and_clear_error(), Some(StoreError::MissingLayer));
    assert_eq!(core.retrieve_and_clear_error(), None);
    assert_eq!(core.perform_edits(vec![AnimationEdit::AddNewLayer(1)]), Ok(()));
    assert!(core.db.query_layer_id_for_assigned_id(1).is_some());
}

#[test]
fn bookkeeping_goes_back_when_a_batch_fails() {
    let mut core = core_with_layer();
    core.perform_edits(vec![paint(PaintEdit::SelectBrush(
        ElementId::Unassigned,
        BrushDefinition::Simple,
        BrushDrawingStyle::Draw,
    ))])
    .unwrap();
    let layer = layer_id(&core, 1);
    let selected = core.brush_properties_for_layer.get(&layer).cloned();
    let active = core.active_brush_for_layer.get(&layer).cloned();
    assert_eq!(
        active,
        Some(ActiveBrush { when: 0, definition: BrushDefinition::Simple, drawing_style: BrushDrawingStyle::Draw })
    );

    let result = core.perform_edits(vec![
        paint(PaintEdit::SelectBrush(
            ElementId::Unassigned,
            BrushDefinition::Ink(InkDefinition::default()),
            BrushDrawingStyle::Erase,
        )),
        AnimationEdit::Layer(1, LayerEdit::SetOrdering(3)),
    ]);

    assert_eq!(result, Err(StoreError::Unsupported(UnsupportedOperation::LayerOrdering)));
    assert_eq!(core.brush_properties_for_layer.get(&layer).cloned(), selected);
    assert_eq!(core.active_brush_for_layer.get(&layer).cloned(), active);
    assert_eq!(core.get_num_edits(), 3);
}

#[test]
fn ids_are_assigned_in_increasing_order_where_elements_are_made() {
    let mut core = new_core();
    let edits = vec![
        paint(PaintEdit::SelectBrush(ElementId::Unassigned, BrushDefinition::Simple, BrushDrawingStyle::Draw)),
        AnimationEdit::Element(vec![ElementId::Unassigned], ElementEdit::AddAttachment(ElementId::Unassigned)),
        paint(PaintEdit::BrushStroke(ElementId::Assigned(77), vec![])),
        path(PathEdit::CreatePath(ElementId::Unassigned, vec![])),
        AnimationEdit::Motion(ElementId::Unassigned, MotionEdit::Create),
        path(PathEdit::BrushProperties(ElementId::Unassigned, plain_properties())),
    ];
    let assigned = core.assign_element_ids(edits.clone());
    assert_eq!(
        assigned,
        vec![
            paint(PaintEdit::SelectBrush(ElementId::Assigned(0), BrushDefinition::Simple, BrushDrawingStyle::Draw)),
            AnimationEdit::Element(vec![ElementId::Unassigned], ElementEdit::AddAttachment(ElementId::Unassigned)),
            paint(PaintEdit::BrushStroke(ElementId::Assigned(77), vec![])),
            path(PathEdit::CreatePath(ElementId::Assigned(1), vec![])),
            AnimationEdit::Motion(ElementId::Unassigned, MotionEdit::Create),
            path(PathEdit::BrushProperties(ElementId::Assigned(2), plain_properties())),
        ]
    );
    assert_eq!(core.next_element_id, 3);
    assert_eq!(core.assign_element_ids(assigned.clone()), assigned);
    assert_eq!(core.next_element_id, 3);
    assert_eq!(core.next_element_id(), 3);
    assert_eq!(core.next_element_id(), 4);
    let more = core.assign_element_ids(vec![paint(PaintEdit::BrushStroke(ElementId::Unassigned, vec![]))]);
    assert_eq!(more, vec![paint(PaintEdit::BrushStroke(ElementId::Assigned(5), vec![]))]);
}

#[test]
fn a_reopened_store_hands_out_ids_from_the_length_of_its_log() {
    let mut core = new_core();
    core.perform_edits(basic_stroke()).unwrap();
    assert_eq!(core.next_element_id, 3);
    let reopened: Core = AnimationDbCore::new(core.db, UnfittedBrush);
    assert_eq!(reopened.next_element_id, 5);
    assert_eq!(reopened.get_num_edits(), 5);
}

#[test]
fn a_core_that_has_no_ids_left_says_so() {
    let mut core = new_core();
    core.next_element_id = i64::MAX;
    assert_eq!(
        core.perform_edits(vec![
            AnimationEdit::AddNewLayer(1),
            paint(PaintEdit::BrushStroke(ElementId::Unassigned, vec![])),
        ]),
        Err(StoreError::OutOfIds)
    );
    assert_eq!(core.db.query_layer_id_for_assigned_id(1), None);
    assert_eq!(core.get_num_edits(), 0);
    assert_eq!(core.retrieve_and_clear_error(), Some(StoreError::OutOfIds));
    assert_eq!(core.perform_edits(vec![]), Ok(()));
}

#[test]
fn editing_a_layer_forgets_what_is_cached_for_it_at_that_time() {
    let mut core = new_core();
    core.perform_edits(vec![
        AnimationEdit::AddNewLayer(1),
        AnimationEdit::Layer(1, LayerEdit::AddKeyFrame(0)),
        AnimationEdit::AddNewLayer(2),
        AnimationEdit::Layer(2, LayerEdit::AddKeyFrame(0)),
    ])
    .unwrap();
    let first = layer_id(&core, 1);
    let second = layer_id(&core, 2);
    let kind = CacheType::OnionSkinLayer;
    let mut generated = 0;

    let value = core.retrieve_or_generate(kind, first, 0, || {
        generated += 1;
        "outline 1".to_string()
    });
    assert_eq!(value, Ok("outline 1".to_string()));
    let value = core.retrieve_or_generate(kind, second, 0, || "other layer".to_string());
    assert_eq!(value, Ok("other layer".to_string()));
    let value = core.retrieve_or_generate(kind, first, 0, || {
        generated += 1;
        "never made".to_string()
    });
    assert_eq!(value, Ok("outline 1".to_string()));
    assert_eq!(generated, 1);

    core.perform_edits(vec![paint(PaintEdit::BrushStroke(ElementId::Unassigned, vec![raw(1.0, 1.0, 1.0)]))])
        .unwrap();
    assert_eq!(core.retrieve_cached(kind, first, 0), None);

    let value = core.retrieve_or_generate(kind, first, 0, || {
        generated += 1;
        "outline 2".to_string()
    });
    assert_eq!(value, Ok("outline 2".to_string()));
    assert_eq!(generated, 2);
    let value = core.retrieve_or_generate(kind, second, 0, || {
        generated += 1;
        "never made".to_string()
    });
    assert_eq!(value, Ok("other layer".to_string()));
    assert_eq!(generated, 2);

    core.perform_edits(vec![AnimationEdit::Layer(
        2,
        LayerEdit::Path(0, PathEdit::CreatePath(ElementId::Unassigned, vec![])),
    )])
    .unwrap();
    assert_eq!(core.retrieve_cached(kind, second, 0), None);
    assert_eq!(core.retrieve_cached(kind, first, 0), Some("outline 2".to_string()));

    core.store_cached(kind, first, 10, "later".to_string()).unwrap();
    core.perform_edits(vec![AnimationEdit::Layer(1, LayerEdit::AddKeyFrame(5))]).unwrap();
    assert_eq!(core.retrieve_cached(kind, first, 10), Some("later".to_string()));
    core.invalidate_cached(kind, first, 10).unwrap();
    assert_eq!(core.retrieve_cached(kind, first, 10), None);
}

#[test]
fn control_points_of_a_brush_stroke_are_set_in_segments() {
    let mut core = new_core();
    core.perform_edits(basic_stroke()).unwrap();
    let positions: Vec<(u32, u32)> = vec![(1, 1), (2, 2), (3, 3), (4, 4), (5, 5), (6, 6), (7, 7)];
    let edit = AnimationEdit::Element(vec![ElementId::Assigned(2)], ElementEdit::SetControlPoints(positions));
    assert_eq!(core.perform_edit(&edit), Ok(EditOutcome::Applied));

    let id = core.db.query_vector_element_id(&ElementId::Assigned(2)).unwrap();
    assert_eq!(
        core.db.query_brush_points(id),
        Some(vec![
            BrushPoint { position: (1, 1), cp1: (1, 1), cp2: (1, 1), width: bits(0.5) },
            BrushPoint { position: (4, 4), cp1: (2, 2), cp2: (3, 3), width: bits(0.75) },
            BrushPoint { position: (7, 7), cp1: (5, 5), cp2: (6, 6), width: bits(1.0) },
        ])
    );

    let short = AnimationEdit::Element(vec![ElementId::Assigned(2)], ElementEdit::SetControlPoints(vec![(9, 9)]));
    assert_eq!(core.perform_edit(&short), Ok(EditOutcome::Applied));
    assert_eq!(core.db.query_brush_points(id).unwrap()[0].position, (9, 9));
    assert_eq!(core.db.query_brush_points(id).unwrap()[1].position, (4, 4));

    let none = AnimationEdit::Element(vec![ElementId::Assigned(2)], ElementEdit::SetControlPoints(vec![]));
    assert_eq!(core.perform_edit(&none), Ok(EditOutcome::Applied));
    assert_eq!(core.db.query_brush_points(id).unwrap().len(), 3);
}

fn core_with_path(components: Vec<PathComponent>) -> Core {
    let mut core = core_with_layer();
    core.perform_edits(vec![
        path(PathEdit::SelectBrush(ElementId::Unassigned, BrushDefinition::Simple, BrushDrawingStyle::Draw)),
        path(PathEdit::BrushProperties(ElementId::Unassigned, plain_properties())),
        path(PathEdit::CreatePath(ElementId::Unassigned, components)),
    ])
    .unwrap();
    core
}

fn components_of(core: &Core, assigned: i64) -> Option<Vec<PathComponent>> {
    let id = core.db.query_vector_element_id(&ElementId::Assigned(assigned)).unwrap();
    let entry = core.db.query_path_element(id).unwrap();
    core.db.query_path_components(entry.path_id)
}

fn at(x: u32, y: u32) -> PathPoint {
    PathPoint { position: (x, y) }
}

#[test]
fn a_path_is_replaced_as_a_whole() {
    let first_path = vec![
        PathComponent::Move(at(1, 1)),
        PathComponent::Bezier(at(2, 2), at(3, 3), at(4, 4)),
        PathComponent::Close,
    ];
    let mut core = core_with_path(first_path.clone());
    assert_eq!(components_of(&core, 2), Some(first_path));

    let replacement = vec![PathComponent::Move(at(9, 9)), PathComponent::Line(at(8, 8))];
    let edit = AnimationEdit::Element(vec![ElementId::Assigned(2)], ElementEdit::SetPath(replacement.clone()));
    assert_eq!(core.perform_edits(vec![edit]), Ok(()));
    assert_eq!(components_of(&core, 2), Some(replacement));

    let moved = AnimationEdit::Element(
        vec![ElementId::Assigned(2)],
        ElementEdit::SetControlPoints(vec![(5, 5), (6, 6), (7, 7)]),
    );
    assert_eq!(core.perform_edits(vec![moved]), Ok(()));
    assert_eq!(components_of(&core, 2), Some(vec![PathComponent::Move(at(5, 5)), PathComponent::Line(at(6, 6))]));
}

#[test]
fn edits_that_an_element_has_no_handler_for_change_nothing() {
    let mut core = new_core();
    core.perform_edits(basic_stroke()).unwrap();
    let stroke = ElementId::Assigned(2);
    let definition = ElementId::Assigned(0);
    assert_eq!(
        core.perform_edit(&AnimationEdit::Element(vec![stroke], ElementEdit::SetPath(vec![PathComponent::Close]))),
        Ok(EditOutcome::Skipped(SkipReason::NoHandler))
    );
    assert_eq!(
        core.perform_edit(&AnimationEdit::Element(vec![definition], ElementEdit::SetControlPoints(vec![(1, 1)]))),
        Ok(EditOutcome::Skipped(SkipReason::NoHandler))
    );
    assert_eq!(
        core.perform_edit(&AnimationEdit::Element(vec![ElementId::Assigned(404)], ElementEdit::Delete)),
        Ok(EditOutcome::Skipped(SkipReason::MissingElement))
    );
    assert_eq!(
        core.perform_edit(&AnimationEdit::Element(vec![ElementId::Unassigned], ElementEdit::Delete)),
        Ok(EditOutcome::Skipped(SkipReason::UnassignedElement))
    );
    assert_eq!(
        core.perform_edit(&AnimationEdit::Element(vec![stroke], ElementEdit::AddAttachment(ElementId::Unassigned))),
        Ok(EditOutcome::Skipped(SkipReason::UnassignedAttachment))
    );
    assert_eq!(
        core.perform_edit(&AnimationEdit::Element(vec![stroke], ElementEdit::RemoveAttachment(ElementId::Unassigned))),
        Ok(EditOutcome::Skipped(SkipReason::UnassignedAttachment))
    );
    assert_eq!(
        core.perform_edit(&AnimationEdit::Element(vec![], ElementEdit::Delete)),
        Ok(EditOutcome::Skipped(SkipReason::NoElements))
    );
    assert_eq!(
        core.perform_edit(&AnimationEdit::Element(vec![ElementId::Unassigned, stroke], ElementEdit::DetachFromFrame)),
        Ok(EditOutcome::Applied)
    );
    assert_eq!(core.get_frame_at_time(layer_id(&core, 1), 0), vec![]);
}

#[test]
fn unsupported_operations_fail_as_such() {
    let mut core = new_core();
    core.perform_edits(basic_stroke()).unwrap();
    assert_eq!(
        core.perform_edit(&AnimationEdit::Layer(1, LayerEdit::SetOrdering(0))),
        Err(StoreError::Unsupported(UnsupportedOperation::LayerOrdering))
    );
    assert_eq!(core.retrieve_and_clear_error(), Some(StoreError::Unsupported(UnsupportedOperation::LayerOrdering)));
    assert_eq!(
        core.perform_edit(&AnimationEdit::Element(
            vec![ElementId::Assigned(2)],
            ElementEdit::Order(ElementOrdering::Before(ElementId::Assigned(1)))
        )),
        Err(StoreError::Unsupported(UnsupportedOperation::OrderBefore))
    );
}

#[test]
fn a_path_whose_points_spell_no_components_cannot_be_replaced() {
    let mut core = core_with_layer();
    let layer = layer_id(&core, 1);
    core.db
        .update(vec![
            DatabaseUpdate::PushLayerId(layer),
            DatabaseUpdate::PushNearestKeyFrame(0),
            DatabaseUpdate::PushVectorElementType(VectorElementType::Path),
            DatabaseUpdate::PushVectorElementTime(0),
            DatabaseUpdate::PushElementAssignId(30),
            DatabaseUpdate::PushLayerId(-1),
            DatabaseUpdate::PushLayerId(-1),
            DatabaseUpdate::PushPath(vec![(1, 1)]),
            DatabaseUpdate::PopVectorPathElement,
            DatabaseUpdate::Pop,
            DatabaseUpdate::Pop,
        ])
        .unwrap();
    assert_eq!(
        core.perform_edit(&AnimationEdit::Element(vec![ElementId::Assigned(30)], ElementEdit::SetPath(vec![]))),
        Err(StoreError::BrokenReference)
    );
    assert_eq!(core.retrieve_and_clear_error(), Some(StoreError::BrokenReference));
    core.db
        .update(vec![
            DatabaseUpdate::PushVectorElementType(VectorElementType::Path),
            DatabaseUpdate::PushElementAssignId(31),
            DatabaseUpdate::Pop,
        ])
        .unwrap();
    assert_eq!(
        core.perform_edit(&AnimationEdit::Element(vec![ElementId::Assigned(31)], ElementEdit::SetPath(vec![]))),
        Err(StoreError::UnexpectedElementType)
    );
}

#[test]
fn elements_are_ordered_attached_and_deleted() {
    let mut core = new_core();
    core.perform_edits(basic_stroke()).unwrap();
    core.perform_edits(vec![
        paint(PaintEdit::BrushStroke(ElementId::Unassigned, vec![raw(1.0, 1.0, 1.0)])),
        paint(PaintEdit::BrushStroke(ElementId::Unassigned, vec![raw(2.0, 2.0, 1.0)])),
    ])
    .unwrap();
    let layer = layer_id(&core, 1);
    let order = |core: &Core| {
        core.get_frame_at_time(layer, 0).iter().map(|e| e.element.assigned.unwrap()).collect::<Vec<_>>()
    };
    let edit = |core: &mut Core, id: i64, edit: ElementEdit| {
        core.perform_edits(vec![AnimationEdit::Element(vec![ElementId::Assigned(id)], edit)]).unwrap();
    };
    assert_eq!(order(&core), vec![2, 3, 4]);
    edit(&mut core, 2, ElementEdit::Order(ElementOrdering::InFront));
    assert_eq!(order(&core), vec![3, 2, 4]);
    edit(&mut core, 4, ElementEdit::Order(ElementOrdering::Behind));
    assert_eq!(order(&core), vec![3, 4, 2]);
    edit(&mut core, 3, ElementEdit::Order(ElementOrdering::ToTop));
    assert_eq!(order(&core), vec![4, 2, 3]);
    edit(&mut core, 3, ElementEdit::Order(ElementOrdering::ToBottom));
    assert_eq!(order(&core), vec![3, 4, 2]);

    let stroke = core.db.query_vector_element_id(&ElementId::Assigned(2)).unwrap();
    let attached_before = core.db.query_attached_elements(stroke);
    assert_eq!(attached_before.len(), 2);
    edit(&mut core, 2, ElementEdit::RemoveAttachment(ElementId::Assigned(1)));
    assert_eq!(core.db.query_attached_elements(stroke), vec![attached_before[0]]);
    assert_eq!(core.get_element_properties(&core.db.query_vector_element(stroke).unwrap()).brush_properties, BrushProperties::new());
    edit(&mut core, 2, ElementEdit::AddAttachment(ElementId::Assigned(1)));
    assert_eq!(core.db.query_attached_elements(stroke), attached_before);

    edit(&mut core, 4, ElementEdit::Delete);
    assert_eq!(order(&core), vec![3, 2]);
    assert_eq!(core.db.query_vector_element_id(&ElementId::Assigned(4)), None);
}

#[test]
fn motions_are_created_edited_and_attached() {
    let mut core = new_core();
    core.perform_edits(basic_stroke()).unwrap();
    let motion = ElementId::Assigned(100);
    let curve = TimeCurve {
        points: vec![
            TimeControlPoint { point: TimePoint(1, 2, 3), past: TimePoint(4, 5, 6), future: TimePoint(7, 8, 9) },
            TimeControlPoint { point: TimePoint(10, 11, 12), past: TimePoint(13, 14, 15), future: TimePoint(16, 17, 18) },
        ],
    };
    assert_eq!(
        core.perform_edit(&AnimationEdit::Motion(ElementId::Unassigned, MotionEdit::Create)),
        Ok(EditOutcome::Skipped(SkipReason::UnassignedMotion))
    );
    core.perform_edits(vec![
        AnimationEdit::Motion(motion, MotionEdit::Create),
        AnimationEdit::Motion(motion, MotionEdit::SetType(MotionType::Translate)),
        AnimationEdit::Motion(motion, MotionEdit::SetOrigin(20, 30)),
        AnimationEdit::Motion(motion, MotionEdit::SetPath(curve)),
        AnimationEdit::Element(vec![ElementId::Assigned(2)], ElementEdit::AddAttachment(motion)),
    ])
    .unwrap();

    let row = core.db.query_motion(100).unwrap();
    assert_eq!(row.motion_type, MotionType::Translate);
    assert_eq!(row.origin, Some((20, 30)));
    assert_eq!(
        core.db.query_motion_path(&row),
        Some(vec![
            TimePoint(1, 2, 3),
            TimePoint(4, 5, 6),
            TimePoint(7, 8, 9),
            TimePoint(10, 11, 12),
            TimePoint(13, 14, 15),
            TimePoint(16, 17, 18),
        ])
    );
    assert_eq!(core.db.query_vector_element_type_from_assigned_id(100), Some(VectorElementType::Motion));
    let motion_element = core.db.query_vector_element_id(&motion).unwrap();
    let stroke = core.db.query_vector_element_id(&ElementId::Assigned(2)).unwrap();
    assert!(core.db.query_attached_elements(stroke).contains(&motion_element));
    assert_eq!(core.db.query_elements_attached_to(motion_element), vec![stroke]);

    let read = core.get_motion(motion).unwrap();
    assert_eq!(read.motion_type, MotionType::Translate);
    assert_eq!(read.origin, Some((20, 30)));
    assert_eq!(read.path.unwrap().points.len(), 2);
    assert_eq!(core.get_motion(ElementId::Unassigned), None);
    assert_eq!(core.get_motion(ElementId::Assigned(101)), None);
    assert_eq!(core.get_motions_for_element(ElementId::Assigned(2)), vec![motion]);
    assert_eq!(core.get_motions_for_element(ElementId::Assigned(0)), vec![]);
    assert_eq!(core.get_motions_for_element(ElementId::Unassigned), vec![]);
    assert_eq!(core.get_elements_for_motion(motion), vec![ElementId::Assigned(2)]);
    assert_eq!(core.get_elements_for_motion(ElementId::Assigned(404)), vec![]);

    core.perform_edits(vec![AnimationEdit::Motion(motion, MotionEdit::Delete)]).unwrap();
    assert_eq!(core.db.query_motion(100), None);
    assert_eq!(core.get_motion(motion), None);
}

#[test]
fn layers_are_named_resized_and_removed() {
    let mut core = core_with_layer();
    core.perform_edits(vec![
        AnimationEdit::SetSize(800.0f64.to_bits(), 600.0f64.to_bits()),
        AnimationEdit::Layer(1, LayerEdit::SetName("Background".to_string())),
        AnimationEdit::Layer(1, LayerEdit::AddKeyFrame(100)),
        AnimationEdit::Layer(1, LayerEdit::RemoveKeyFrame(0)),
    ])
    .unwrap();
    let layer = layer_id(&core, 1);
    assert_eq!(core.db.query_size(), Some((800.0f64.to_bits(), 600.0f64.to_bits())));
    assert_eq!(core.db.query_layer_id_for_assigned_id(1), Some((layer, Some("Background".to_string()))));
    assert_eq!(core.db.query_key_frame_times(layer), vec![100]);
    assert_eq!(core.layer_id_for_assigned_id.get(&1), Some(&layer));

    core.perform_edits(vec![AnimationEdit::RemoveLayer(1)]).unwrap();
    assert_eq!(core.db.query_layer_id_for_assigned_id(1), None);
    assert_eq!(core.layer_id_for_assigned_id.get(&1), None);
    assert_eq!(
        core.perform_edits(vec![AnimationEdit::RemoveLayer(1)]),
        Err(StoreError::MissingLayer)
    );
}

#[test]
fn the_active_brush_follows_the_selection() {
    let mut core = core_with_layer();
    let layer = layer_id(&core, 1);
    assert_eq!(core.get_active_brush_for_layer(layer, 0), None);
    core.perform_edits(vec![paint(PaintEdit::BrushProperties(ElementId::Unassigned, plain_properties()))])
        .unwrap();
    assert_eq!(core.get_active_brush_for_layer(layer, 0), None);
    core.perform_edits(vec![paint(PaintEdit::SelectBrush(
        ElementId::Unassigned,
        BrushDefinition::Simple,
        BrushDrawingStyle::Erase,
    ))])
    .unwrap();
    let expected = |when| ActiveBrush { when, definition: BrushDefinition::Simple, drawing_style: BrushDrawingStyle::Erase };
    assert_eq!(core.get_active_brush_for_layer(layer, 0), Some(expected(0)));
    assert_eq!(core.get_active_brush_for_layer(layer, 500), Some(expected(500)));
    let brush = core.db.query_vector_element(core.db.query_vector_element_id(&ElementId::Assigned(1)).unwrap()).unwrap();
    assert_eq!(brush.detail, ElementDetail::BrushDefinition(BrushDefinition::Simple, DrawingStyleType::Erase));
}

#[test]
fn a_single_edit_does_nothing_while_an_error_is_recorded() {
    let mut core = core_with_layer();
    core.perform_edits(vec![AnimationEdit::SetSize(1, 2)]).unwrap();
    core.record_failure(StoreError::StorageFailure);

    assert_eq!(core.perform_edit(&AnimationEdit::SetSize(3, 4)), Err(StoreError::StorageFailure));
    assert_eq!(core.db.query_size(), Some((1, 2)));
    assert_eq!(core.perform_edit(&AnimationEdit::AddNewLayer(7)), Err(StoreError::StorageFailure));
    assert_eq!(core.db.query_layer_id_for_assigned_id(7), None);
    assert_eq!(core.failure, Some(StoreError::StorageFailure));

    let layer = layer_id(&core, 1);
    assert_eq!(core.edit_vector_layer(layer, &LayerEdit::AddKeyFrame(5)), Err(StoreError::StorageFailure));
    assert_eq!(core.db.query_key_frame_times(layer), vec![0]);
    assert_eq!(core.insert_edits(&vec![AnimationEdit::SetSize(3, 4)]), Err(StoreError::StorageFailure));
    assert_eq!(core.get_num_edits(), 3);

    assert_eq!(core.retrieve_and_clear_error(), Some(StoreError::StorageFailure));
    assert_eq!(core.perform_edit(&AnimationEdit::SetSize(3, 4)), Ok(EditOutcome::Applied));
    assert_eq!(core.db.query_size(), Some((3, 4)));
    assert_eq!(core.edit_vector_layer(layer, &LayerEdit::AddKeyFrame(5)), Ok(EditOutcome::Applied));
    assert_eq!(core.db.query_key_frame_times(layer), vec![0, 5]);
}

#[test]
fn a_single_edit_that_fails_leaves_its_error_with_the_core() {
    let mut core = core_with_layer();
    assert_eq!(core.failure, None);
    assert_eq!(
        core.perform_edit(&AnimationEdit::Layer(9, LayerEdit::AddKeyFrame(0))),
        Err(StoreError::MissingLayer)
    );
    assert_eq!(core.failure, Some(StoreError::MissingLayer));
    assert_eq!(core.perform_edit(&AnimationEdit::SetSize(3, 4)), Err(StoreError::MissingLayer));
    assert_eq!(core.db.query_size(), None);
    assert_eq!(core.perform_edits(vec![AnimationEdit::SetSize(3, 4)]), Err(StoreError::MissingLayer));
    assert_eq!(core.get_num_edits(), 2);

    assert_eq!(core.retrieve_and_clear_error(), Some(StoreError::MissingLayer));
    assert_eq!(core.perform_edit(&AnimationEdit::SetSize(3, 4)), Ok(EditOutcome::Applied));
    assert_eq!(core.failure, None);
}

#[test]
fn an_edit_that_is_skipped_records_no_error() {
    let mut core = core_with_layer();
    let create = path(PathEdit::CreatePath(ElementId::Assigned(4), vec![PathComponent::Close]));
    assert_eq!(core.perform_edit(&create), Ok(EditOutcome::Skipped(SkipReason::PathBrushNotSelected)));
    assert_eq!(core.failure, None);
}

#[test]
fn a_replayed_log_hands_out_no_id_again() {
    let mut first = new_core();
    first.perform_edits(basic_stroke()).unwrap();
    assert_eq!(first.next_element_id, 3);
    let log = first.read_edit_log(0, first.get_num_edits()).unwrap();

    let mut replayed = new_core();
    assert_eq!(replayed.replay_edits(log.clone()), Ok(()));
    assert_eq!(replayed.get_num_edits(), 5);
    assert_eq!(replayed.next_element_id, 5);
    assert!(replayed.next_element_id >= first.next_element_id);

    let mut plain = new_core();
    plain.perform_edits(log).unwrap();
    assert_eq!(plain.next_element_id, 0);
    assert_eq!(plain.db.query_edit_log_length(), replayed.db.query_edit_log_length());

    let more = replayed.assign_element_ids(vec![paint(PaintEdit::BrushStroke(ElementId::Unassigned, vec![]))]);
    assert_eq!(more, vec![paint(PaintEdit::BrushStroke(ElementId::Assigned(5), vec![]))]);
    replayed.perform_edits(vec![paint(PaintEdit::BrushStroke(ElementId::Unassigned, vec![raw(1.0, 1.0, 1.0)]))]).unwrap();
    let layer = layer_id(&replayed, 1);
    let ids: Vec<i64> = replayed.get_frame_at_time(layer, 0).iter().map(|e| e.element.assigned.unwrap()).collect();
    assert_eq!(ids, vec![2, 6]);
}

#[test]
fn a_replay_that_fails_keeps_the_ids_that_were_used() {
    let mut core = new_core();
    core.next_element_id = 40;
    assert_eq!(
        core.replay_edits(vec![AnimationEdit::Layer(9, LayerEdit::AddKeyFrame(0))]),
        Err(StoreError::MissingLayer)
    );
    assert_eq!(core.next_element_id, 40);
    assert_eq!(core.get_num_edits(), 0);
    assert_eq!(core.failure, Some(StoreError::MissingLayer));
}

#[test]
fn only_edits_that_want_an_id_count_towards_the_ids_that_are_left() {
    let mut core = new_core();
    core.next_element_id = i64::MAX;
    let given = core.assign_element_ids(vec![
        AnimationEdit::AddNewLayer(1),
        AnimationEdit::Layer(1, LayerEdit::AddKeyFrame(0)),
        paint(PaintEdit::BrushStroke(ElementId::Assigned(3), vec![])),
    ]);
    assert_eq!(given.len(), 3);
    assert_eq!(core.next_element_id, i64::MAX);
    assert_eq!(
        core.perform_edits(vec![AnimationEdit::AddNewLayer(1), AnimationEdit::Layer(1, LayerEdit::AddKeyFrame(0))]),
        Ok(())
    );
    assert_eq!(core.next_element_id, i64::MAX);
    assert_eq!(
        core.perform_edits(vec![paint(PaintEdit::BrushStroke(ElementId::Unassigned, vec![]))]),
        Err(StoreError::OutOfIds)
    );

    let mut last = new_core();
    last.next_element_id = i64::MAX - 1;
    assert_eq!(
        last.assign_element_ids(vec![
            AnimationEdit::SetSize(1, 1),
            paint(PaintEdit::BrushStroke(ElementId::Unassigned, vec![])),
            AnimationEdit::SetSize(2, 2),
        ]),
        vec![
            AnimationEdit::SetSize(1, 1),
            paint(PaintEdit::BrushStroke(ElementId::Assigned(i64::MAX - 1), vec![])),
            AnimationEdit::SetSize(2, 2),
        ]
    );
    assert_eq!(last.next_element_id, i64::MAX);
}

#[test]
fn ids_are_given_in_the_order_of_the_edits() {
    let mut core = new_core();
    core.next_element_id = 10;
    let given = core.assign_element_ids(vec![
        paint(PaintEdit::SelectBrush(ElementId::Unassigned, BrushDefinition::Simple, BrushDrawingStyle::Draw)),
        AnimationEdit::AddNewLayer(1),
        path(PathEdit::BrushProperties(ElementId::Unassigned, plain_properties())),
        paint(PaintEdit::BrushStroke(ElementId::Assigned(99), vec![])),
        path(PathEdit::CreatePath(ElementId::Unassigned, vec![])),
    ]);
    assert_eq!(
        given,
        vec![
            paint(PaintEdit::SelectBrush(ElementId::Assigned(10), BrushDefinition::Simple, BrushDrawingStyle::Draw)),
            AnimationEdit::AddNewLayer(1),
            path(PathEdit::BrushProperties(ElementId::Assigned(11), plain_properties())),
            paint(PaintEdit::BrushStroke(ElementId::Assigned(99), vec![])),
            path(PathEdit::CreatePath(ElementId::Assigned(12), vec![])),
        ]
    );
    assert_eq!(core.next_element_id, 13);
}

#[test]
fn edits_read_back_from_the_log_replay_to_the_same_frames() {
    let edits = vec![
        AnimationEdit::AddNewLayer(1),
        AnimationEdit::Layer(1, LayerEdit::AddKeyFrame(0)),
        paint(PaintEdit::SelectBrush(ElementId::Assigned(0), BrushDefinition::Simple, BrushDrawingStyle::Erase)),
        paint(PaintEdit::BrushProperties(ElementId::Assigned(1), plain_properties())),
        paint(PaintEdit::BrushStroke(ElementId::Assigned(2), vec![raw(1.0, 2.0, 0.5), raw(3.0, 4.0, 0.5)])),
    ];

    let mut performed = new_core();
    for edit in &edits {
        assert_eq!(performed.perform_edit(edit), Ok(EditOutcome::Applied));
    }
    assert_eq!(performed.get_num_edits(), 0);

    let mut logged = new_core();
    assert_eq!(logged.insert_edits(&edits), Ok(()));
    assert_eq!(logged.db.query_layer_id_for_assigned_id(1), None);
    let read = logged.read_edit_log(0, logged.get_num_edits()).unwrap();
    assert_eq!(read, edits);

    let mut replayed = new_core();
    for edit in &read {
        assert_eq!(replayed.perform_edit(edit), Ok(EditOutcome::Applied));
    }

    let first = performed.get_frame_at_time(layer_id(&performed, 1), 0);
    let second = replayed.get_frame_at_time(layer_id(&replayed, 1), 0);
    assert_eq!(first, second);
    assert_eq!(first.len(), 1);
    assert_eq!(first[0].element.assigned, Some(2));
    assert_eq!(
        first[0].properties,
        VectorProperties {
            brush: BrushDefinition::Simple,
            drawing_style: BrushDrawingStyle::Erase,
            brush_properties: plain_properties(),
        }
    );
    assert_eq!(performed.db.query_size(), replayed.db.query_size());
    assert_eq!(performed.db.query_key_frame_times(layer_id(&performed, 1)), vec![0]);
    assert_eq!(replayed.db.query_key_frame_times(layer_id(&replayed, 1)), vec![0]);
}

#[test]
fn a_stroke_has_exactly_the_two_selected_elements_attached() {
    let mut core = new_core();
    core.perform_edits(basic_stroke()).unwrap();
    let definition = core.db.query_vector_element_id(&ElementId::Assigned(0)).unwrap();
    let properties = core.db.query_vector_element_id(&ElementId::Assigned(1)).unwrap();
    let stroke = core.db.query_vector_element_id(&ElementId::Assigned(2)).unwrap();
    assert_eq!(core.db.query_attached_elements(stroke), vec![definition, properties]);
    assert_eq!(core.db.query_attached_elements(definition), vec![]);
    assert_eq!(core.db.query_elements_attached_to(definition), vec![stroke]);
}

#[test]
fn an_element_taken_from_its_frame_leaves_the_others_in_their_order() {
    let mut core = new_core();
    core.perform_edits(basic_stroke()).unwrap();
    core.perform_edits(vec![
        paint(PaintEdit::BrushStroke(ElementId::Unassigned, vec![raw(1.0, 1.0, 1.0)])),
        paint(PaintEdit::BrushStroke(ElementId::Unassigned, vec![raw(2.0, 2.0, 1.0)])),
    ])
    .unwrap();
    let layer = layer_id(&core, 1);
    let before: Vec<Option<i64>> = core.get_frame_at_time(layer, 0).iter().map(|e| e.element.assigned).collect();
    assert_eq!(before, vec![Some(2), Some(3), Some(4)]);

    assert_eq!(
        core.perform_edit(&AnimationEdit::Element(vec![ElementId::Assigned(3)], ElementEdit::DetachFromFrame)),
        Ok(EditOutcome::Applied)
    );
    let after: Vec<Option<i64>> = core.get_frame_at_time(layer, 0).iter().map(|e| e.element.assigned).collect();
    assert_eq!(after, vec![Some(2), Some(4)]);
    let detached = core.db.query_vector_element_id(&ElementId::Assigned(3)).unwrap();
    let row = core.db.query_vector_element(detached).unwrap();
    assert_eq!(row.frame, None);
    assert_eq!(row.element_type, VectorElementType::BrushStroke);
    assert_eq!(core.db.query_brush_points(detached).unwrap().len(), 1);
}

#[test]
fn edits_that_make_elements_without_an_id_want_one() {
    assert!(wants_id(&paint(PaintEdit::BrushStroke(ElementId::Unassigned, vec![]))));
    assert!(wants_id(&path(PathEdit::CreatePath(ElementId::Unassigned, vec![]))));
    assert!(!wants_id(&paint(PaintEdit::BrushStroke(ElementId::Assigned(1), vec![]))));
    assert!(!wants_id(&AnimationEdit::AddNewLayer(1)));
    assert!(!wants_id(&AnimationEdit::Element(vec![ElementId::Unassigned], ElementEdit::Delete)));
    assert!(!wants_id(&AnimationEdit::Motion(ElementId::Unassigned, MotionEdit::Create)));
    assert_eq!(count_wanted_ids(&vec![]), 0);
    assert_eq!(count_wanted_ids(&basic_stroke()), 3);
}

#[test]
fn elements_keep_ids_of_their_own_through_edits() {
    let mut core = new_core();
    core.perform_edits(basic_stroke()).unwrap();
    core.perform_edits(vec![
        paint(PaintEdit::BrushStroke(ElementId::Unassigned, vec![raw(1.0, 1.0, 1.0)])),
        paint(PaintEdit::BrushStroke(ElementId::Unassigned, vec![raw(2.0, 2.0, 1.0)])),
        AnimationEdit::Element(vec![ElementId::Assigned(2)], ElementEdit::Order(ElementOrdering::ToTop)),
        AnimationEdit::Element(vec![ElementId::Assigned(3)], ElementEdit::Delete),
        paint(PaintEdit::BrushStroke(ElementId::Unassigned, vec![raw(3.0, 3.0, 1.0)])),
    ])
    .unwrap();
    let mut ids: Vec<i64> = vec![0, 1, 2, 4, 5]
        .into_iter()
        .map(|assigned| core.db.query_vector_element_id(&ElementId::Assigned(assigned)).unwrap())
        .collect();
    assert_eq!(core.db.query_vector_element_id(&ElementId::Assigned(3)), None);
    ids.sort();
    ids.dedup();
    assert_eq!(ids.len(), 5);
    let layer = layer_id(&core, 1);
    let shown: Vec<Option<i64>> = core.get_frame_at_time(layer, 0).iter().map(|e| e.element.assigned).collect();
    assert_eq!(shown, vec![Some(4), Some(2), Some(5)]);
    let newest = core.db.query_vector_element_id(&ElementId::Assigned(5)).unwrap();
    assert_eq!(core.db.query_attached_elements(newest).len(), 2);
}
