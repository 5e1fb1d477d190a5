use flo_anim_store::animation::brush::{BrushPoint, RawPoint};
use flo_anim_store::animation::cache_type::CacheType;
use flo_anim_store::animation::element_id::ElementId;
use flo_anim_store::animation::motion::{MotionType, TimePoint};
use flo_anim_store::animation::path::{PathComponent, PathPoint};
use flo_anim_store::db::db_enum::{BrushDefinitionType, ColorType, DrawingStyleType, EditLogType, LayerType, VectorElementType};
use flo_anim_store::db::error::StoreError;
use flo_anim_store::db::flo_file::{FloQuery, FloStore};
use flo_anim_store::db::flo_memory::FloMemory;
use flo_anim_store::db::flo_store::{DatabaseUpdate, DbElementMove};
use flo_anim_store::db::motion_path_type::MotionPathType;
use flo_anim_store::db::rows::{EditLogParam, ElementDetail};

use flo_anim_store::db::flo_store::DatabaseUpdate::{Pop, Duplicate, UpdateCanvasSize, PushEditType, PopEditLogSetSize, PushEditLogLayer, PushEditLogWhen, PushEditLogElementId, PopEditLogBrush, PushRawPoints, PopEditLogString, PushPathComponents, PushTimePoint, PushBrushType, PushInkBrush, PushColorType, PushRgb, PushHsluv, PushBrushProperties, PushLayerType, PushAssignLayer, PushLayerId, PushLayerForAssignedId, PopDeleteLayer, PopLayerName, PopAddKeyFrame, PopRemoveKeyFrame, PopStoreLayerCache, PopDeleteLayerCache, PushNearestKeyFrame, PushVectorElementType, PushVectorElementTime, PushElementAssignId, PushElementIdForAssignedId, PushKeyFrameIdForElementId, PushPathIdForElementId, PushAttachElements, PushDetachElements, PopVectorBrushPropertiesElement, PopBrushPoints, PopVectorPathElement, UpdateBrushPointCoords, UpdatePathPointCoords, PopRemovePathPoints, PopInsertPathComponents, PopVectorElementMove, PopDeleteVectorElement, CreateMotion, DeleteMotion, SetMotionType, SetMotionOrigin, SetMotionPath};

fn layer_with_key_frame(db: &mut FloMemory, assigned: u64, when: i64) -> i64 {
    db.update(vec![PushLayerType(LayerType::Vector), PushAssignLayer(assigned), PopAddKeyFrame(when)])
        .unwrap();
    db.query_layer_id_for_assigned_id(assigned).unwrap().0
}

fn element(db: &mut FloMemory, layer: i64, when: i64, assigned: i64, element_type: VectorElementType) -> i64 {
    db.update(vec![
        PushLayerId(layer),
        PushNearestKeyFrame(when),
        PushVectorElementType(element_type),
        PushVectorElementTime(when),
        PushElementAssignId(assigned),
        Pop,
        Pop,
        Pop,
    ])
    .unwrap();
    db.query_vector_element_id(&ElementId::Assigned(assigned)).unwrap()
}

#[test]
fn a_new_store_holds_nothing() {
    let db = FloMemory::new();
    assert_eq!(db.query_edit_log_length(), 0);
    assert_eq!(db.query_size(), None);
    assert_eq!(db.query_layer_id_for_assigned_id(1), None);
    assert_eq!(db.query_vector_element(0), None);
    assert_eq!(db.query_frame_elements(0, 0), vec![]);
    assert_eq!(db.query_edit_log_entry(0), None);
    assert_eq!(db.query_string(0), None);
}

#[test]
fn canvas_size_is_kept() {
    let mut db = FloMemory::new();
    db.update(vec![UpdateCanvasSize(1920.0f64.to_bits(), 1080.0f64.to_bits())]).unwrap();
    assert_eq!(db.query_size(), Some((1920.0f64.to_bits(), 1080.0f64.to_bits())));
}

#[test]
fn layers_are_found_by_their_assigned_id_and_named() {
    let mut db = FloMemory::new();
    let layer = layer_with_key_frame(&mut db, 7, 0);
    assert_eq!(db.query_layer_id_for_assigned_id(7), Some((layer, None)));
    db.update(vec![PushLayerForAssignedId(7), PopLayerName("Ink".to_string())]).unwrap();
    assert_eq!(db.query_layer_id_for_assigned_id(7), Some((layer, Some("Ink".to_string()))));
    db.update(vec![PushLayerForAssignedId(7), PopDeleteLayer]).unwrap();
    assert_eq!(db.query_layer_id_for_assigned_id(7), None);
    assert_eq!(db.query_key_frame_times(layer), vec![]);
}

#[test]
fn the_nearest_key_frame_is_at_or_before_the_time() {
    let mut db = FloMemory::new();
    let layer = layer_with_key_frame(&mut db, 1, 1000);
    db.update(vec![PushLayerId(layer), PopAddKeyFrame(3000)]).unwrap();
    db.update(vec![PushLayerId(layer), PopAddKeyFrame(2000)]).unwrap();
    assert_eq!(db.query_key_frame_times(layer), vec![1000, 3000, 2000]);
    assert_eq!(db.query_nearest_key_frame(layer, 999), None);
    assert_eq!(db.query_nearest_key_frame(layer, 1000).unwrap().when, 1000);
    assert_eq!(db.query_nearest_key_frame(layer, 2500).unwrap().when, 2000);
    assert_eq!(db.query_nearest_key_frame(layer, 3000).unwrap().when, 3000);
    assert_eq!(db.query_nearest_key_frame(layer, i64::MAX).unwrap().when, 3000);
    db.update(vec![PushLayerId(layer), PopRemoveKeyFrame(3000)]).unwrap();
    assert_eq!(db.query_nearest_key_frame(layer, 3000).unwrap().when, 2000);
}

#[test]
fn a_failing_batch_leaves_the_tables_as_they_were() {
    let mut db = FloMemory::new();
    let result = db.update(vec![
        PushLayerType(LayerType::Vector),
        PushAssignLayer(1),
        Pop,
        PushLayerForAssignedId(2),
    ]);
    assert_eq!(result, Err(StoreError::MissingLayer));
    assert_eq!(db.query_layer_id_for_assigned_id(1), None);
}

#[test]
fn queued_batches_take_effect_together_or_not_at_all() {
    let mut db = FloMemory::new();
    db.begin_queuing();
    db.update(vec![PushLayerType(LayerType::Vector), PushAssignLayer(1), Pop]).unwrap();
    assert!(db.query_layer_id_for_assigned_id(1).is_some());
    assert_eq!(db.update(vec![PushLayerForAssignedId(9)]), Err(StoreError::MissingLayer));
    assert_eq!(db.query_layer_id_for_assigned_id(1), None);

    db.begin_queuing();
    db.update(vec![PushLayerType(LayerType::Vector), PushAssignLayer(1), Pop]).unwrap();
    db.update(vec![PushLayerType(LayerType::Vector), PushAssignLayer(2), Pop]).unwrap();
    assert_eq!(db.execute_queue(), Ok(()));
    assert!(db.query_layer_id_for_assigned_id(1).is_some());
    assert!(db.query_layer_id_for_assigned_id(2).is_some());

    db.begin_queuing();
    db.update(vec![PushLayerType(LayerType::Vector), PushAssignLayer(3), Pop]).unwrap();
    db.abandon_queue();
    assert_eq!(db.query_layer_id_for_assigned_id(3), None);
    assert!(db.query_layer_id_for_assigned_id(2).is_some());
}

#[test]
fn duplicate_leaves_a_copy_on_the_stack() {
    let mut db = FloMemory::new();
    db.update(vec![
        PushLayerType(LayerType::Vector),
        Duplicate,
        PopAddKeyFrame(10),
        PopAddKeyFrame(20),
    ])
    .unwrap();
    db.update(vec![PushLayerType(LayerType::Vector), PushAssignLayer(4), Pop]).unwrap();
    let other = db.query_layer_id_for_assigned_id(4).unwrap().0;
    assert_eq!(db.query_key_frame_times(other), vec![]);
    assert_eq!(db.query_key_frame_times(other - 3), vec![10, 20]);
}

#[test]
fn the_edit_log_holds_what_is_recorded() {
    let mut db = FloMemory::new();
    db.update(vec![PushEditType(EditLogType::SetSize), PopEditLogSetSize(1, 2)]).unwrap();
    db.update(vec![
        PushEditType(EditLogType::LayerSetName),
        PushEditLogLayer(3),
        PopEditLogString(0, "Sky".to_string()),
    ])
    .unwrap();
    db.update(vec![
        PushEditType(EditLogType::LayerPaintBrushStroke),
        PushEditLogLayer(3),
        PushEditLogWhen(40),
        PushEditLogElementId(0, ElementId::Assigned(8)),
        PushRawPoints(vec![RawPoint { position: (1, 2), pressure: 3, tilt: (4, 5) }]),
        Pop,
    ])
    .unwrap();
    assert_eq!(db.query_edit_log_length(), 3);
    assert_eq!(db.query_edit_log_entry(0), Some((EditLogType::SetSize, vec![EditLogParam::Size(1, 2)])));
    assert_eq!(
        db.query_edit_log_entry(1),
        Some((EditLogType::LayerSetName, vec![EditLogParam::Layer(3), EditLogParam::Text(0, 0)]))
    );
    assert_eq!(db.query_string(0), Some("Sky".to_string()));
    assert_eq!(
        db.query_edit_log_entry(2),
        Some((
            EditLogType::LayerPaintBrushStroke,
            vec![
                EditLogParam::Layer(3),
                EditLogParam::When(40),
                EditLogParam::ElementId(0, ElementId::Assigned(8)),
                EditLogParam::RawPoint(RawPoint { position: (1, 2), pressure: 3, tilt: (4, 5) }),
            ]
        ))
    );
    assert_eq!(db.query_edit_log_entry(3), None);
}

#[test]
fn elements_show_in_their_key_frame_from_their_time_on() {
    let mut db = FloMemory::new();
    let layer = layer_with_key_frame(&mut db, 1, 0);
    let first = element(&mut db, layer, 0, 10, VectorElementType::BrushStroke);
    let second = element(&mut db, layer, 500, 11, VectorElementType::BrushStroke);
    let ids = |rows: Vec<flo_anim_store::db::rows::ElementRow>| rows.iter().map(|row| row.id).collect::<Vec<_>>();
    assert_eq!(ids(db.query_frame_elements(layer, 0)), vec![first]);
    assert_eq!(ids(db.query_frame_elements(layer, 499)), vec![first]);
    assert_eq!(ids(db.query_frame_elements(layer, 500)), vec![first, second]);
    assert_eq!(ids(db.query_frame_elements(layer, -1)), vec![]);
    assert_eq!(db.query_vector_element_type_from_assigned_id(10), Some(VectorElementType::BrushStroke));
    assert_eq!(db.query_vector_element_type_from_assigned_id(12), None);
    assert_eq!(db.query_vector_element_id(&ElementId::Unassigned), None);
}

#[test]
fn elements_move_in_the_drawing_order() {
    let mut db = FloMemory::new();
    let layer = layer_with_key_frame(&mut db, 1, 0);
    let a = element(&mut db, layer, 0, 10, VectorElementType::BrushStroke);
    let b = element(&mut db, layer, 0, 11, VectorElementType::BrushStroke);
    let c = element(&mut db, layer, 0, 12, VectorElementType::BrushStroke);
    let order = |db: &FloMemory| db.query_frame_elements(layer, 0).iter().map(|row| row.id).collect::<Vec<_>>();
    let moved = |db: &mut FloMemory, assigned: i64, how: DbElementMove| {
        db.update(vec![
            PushElementIdForAssignedId(assigned),
            PushKeyFrameIdForElementId,
            PopVectorElementMove(how),
        ])
        .unwrap();
    };
    assert_eq!(order(&db), vec![a, b, c]);
    moved(&mut db, 10, DbElementMove::Up);
    assert_eq!(order(&db), vec![b, a, c]);
    moved(&mut db, 12, DbElementMove::Down);
    assert_eq!(order(&db), vec![b, c, a]);
    moved(&mut db, 11, DbElementMove::ToTop);
    assert_eq!(order(&db), vec![c, a, b]);
    moved(&mut db, 11, DbElementMove::ToBottom);
    assert_eq!(order(&db), vec![b, c, a]);
    moved(&mut db, 10, DbElementMove::Up);
    assert_eq!(order(&db), vec![b, c, a]);
    moved(&mut db, 11, DbElementMove::Down);
    assert_eq!(order(&db), vec![b, c, a]);
}

#[test]
fn attachments_are_listed_in_the_order_they_were_made() {
    let mut db = FloMemory::new();
    let layer = layer_with_key_frame(&mut db, 1, 0);
    let stroke = element(&mut db, layer, 0, 10, VectorElementType::BrushStroke);
    let a = element(&mut db, layer, 0, 11, VectorElementType::BrushDefinition);
    let b = element(&mut db, layer, 0, 12, VectorElementType::BrushProperties);
    db.update(vec![
        PushElementIdForAssignedId(10),
        PushElementIdForAssignedId(11),
        PushElementIdForAssignedId(12),
        PushAttachElements(2),
        Pop,
    ])
    .unwrap();
    assert_eq!(db.query_attached_elements(stroke), vec![a, b]);
    assert_eq!(db.query_elements_attached_to(a), vec![stroke]);
    db.update(vec![
        PushElementIdForAssignedId(10),
        PushElementIdForAssignedId(11),
        PushDetachElements(1),
        Pop,
    ])
    .unwrap();
    assert_eq!(db.query_attached_elements(stroke), vec![b]);
    db.update(vec![PushElementIdForAssignedId(12), PopDeleteVectorElement]).unwrap();
    assert_eq!(db.query_attached_elements(stroke), vec![]);
    assert_eq!(db.query_vector_element(b), None);
}

#[test]
fn brush_points_keep_their_width_when_they_are_moved() {
    let mut db = FloMemory::new();
    let layer = layer_with_key_frame(&mut db, 1, 0);
    let stroke = element(&mut db, layer, 0, 10, VectorElementType::BrushStroke);
    let points = vec![
        BrushPoint { position: (1, 1), cp1: (2, 2), cp2: (3, 3), width: 9 },
        BrushPoint { position: (4, 4), cp1: (5, 5), cp2: (6, 6), width: 8 },
    ];
    db.update(vec![PushElementIdForAssignedId(10), PopBrushPoints(points.clone())]).unwrap();
    assert_eq!(db.query_brush_points(stroke), Some(points));
    db.update(vec![
        PushElementIdForAssignedId(10),
        UpdateBrushPointCoords(vec![((10, 10), (20, 20), (30, 30))]),
    ])
    .unwrap();
    assert_eq!(
        db.query_brush_points(stroke),
        Some(vec![
            BrushPoint { position: (30, 30), cp1: (10, 10), cp2: (20, 20), width: 9 },
            BrushPoint { position: (4, 4), cp1: (5, 5), cp2: (6, 6), width: 8 },
        ])
    );
}

fn point(x: u32, y: u32) -> PathPoint {
    PathPoint { position: (x, y) }
}

#[test]
fn paths_keep_their_components() {
    let mut db = FloMemory::new();
    let layer = layer_with_key_frame(&mut db, 1, 0);
    let components = vec![
        PathComponent::Move(point(1, 2)),
        PathComponent::Line(point(3, 4)),
        PathComponent::Bezier(point(5, 6), point(7, 8), point(9, 10)),
        PathComponent::Close,
    ];
    db.update(vec![
        PushLayerId(layer),
        PushNearestKeyFrame(0),
        PushVectorElementType(VectorElementType::Path),
        PushVectorElementTime(0),
        PushElementAssignId(20),
        PushLayerId(-1),
        PushLayerId(-1),
        PushPathComponents(components.clone()),
        PopVectorPathElement,
        Pop,
        Pop,
    ])
    .unwrap();
    let id = db.query_vector_element_id(&ElementId::Assigned(20)).unwrap();
    let entry = db.query_path_element(id).unwrap();
    assert_eq!(entry.element_id, id);
    assert_eq!(db.query_path_components(entry.path_id), Some(components));

    db.update(vec![
        PushElementIdForAssignedId(20),
        PushPathIdForElementId,
        UpdatePathPointCoords(vec![(11, 12), (13, 14)]),
        Pop,
    ])
    .unwrap();
    assert_eq!(
        db.query_path_components(entry.path_id),
        Some(vec![
            PathComponent::Move(point(11, 12)),
            PathComponent::Line(point(13, 14)),
            PathComponent::Bezier(point(5, 6), point(7, 8), point(9, 10)),
            PathComponent::Close,
        ])
    );

    db.update(vec![
        PushElementIdForAssignedId(20),
        PushPathIdForElementId,
        Duplicate,
        PopRemovePathPoints(1, 5),
        PopInsertPathComponents(1, vec![PathComponent::Line(point(0, 0))]),
        Pop,
    ])
    .unwrap();
    assert_eq!(
        db.query_path_components(entry.path_id),
        Some(vec![
            PathComponent::Move(point(11, 12)),
            PathComponent::Line(point(0, 0)),
            PathComponent::Close,
        ])
    );
}

#[test]
fn motions_keep_their_type_origin_and_path() {
    let mut db = FloMemory::new();
    db.update(vec![CreateMotion(5)]).unwrap();
    let motion = db.query_motion(5).unwrap();
    assert_eq!(motion.motion_type, MotionType::Stationary);
    assert_eq!(motion.origin, None);
    assert_eq!(db.query_motion_path(&motion), None);
    db.update(vec![
        SetMotionType(5, MotionType::Translate),
        SetMotionOrigin(5, 1, 2),
        PushTimePoint(1, 2, 3),
        PushTimePoint(4, 5, 6),
        PushTimePoint(7, 8, 9),
        SetMotionPath(5, MotionPathType::Position, 3),
    ])
    .unwrap();
    let motion = db.query_motion(5).unwrap();
    assert_eq!(motion.motion_type, MotionType::Translate);
    assert_eq!(motion.origin, Some((1, 2)));
    assert_eq!(
        db.query_motion_path(&motion),
        Some(vec![TimePoint(1, 2, 3), TimePoint(4, 5, 6), TimePoint(7, 8, 9)])
    );
    db.update(vec![SetMotionType(6, MotionType::Reverse)]).unwrap();
    assert_eq!(db.query_motion(6), None);
    db.update(vec![DeleteMotion(5)]).unwrap();
    assert_eq!(db.query_motion(5), None);
}

#[test]
fn caches_are_kept_per_layer_time_and_kind() {
    let mut db = FloMemory::new();
    let layer = layer_with_key_frame(&mut db, 1, 0);
    let kind = CacheType::OnionSkinLayer;
    assert_eq!(db.query_layer_cache(kind, layer, 0), None);
    db.update(vec![PushLayerId(layer), PopStoreLayerCache(0, kind, "first".to_string())]).unwrap();
    db.update(vec![PushLayerId(layer), PopStoreLayerCache(10, kind, "later".to_string())]).unwrap();
    assert_eq!(db.query_layer_cache(kind, layer, 0), Some("first".to_string()));
    assert_eq!(db.query_layer_cache(kind, layer, 10), Some("later".to_string()));
    db.update(vec![PushLayerId(layer), PopStoreLayerCache(0, kind, "second".to_string())]).unwrap();
    assert_eq!(db.query_layer_cache(kind, layer, 0), Some("second".to_string()));
    db.update(vec![PushLayerId(layer), PopDeleteLayerCache(0, kind)]).unwrap();
    assert_eq!(db.query_layer_cache(kind, layer, 0), None);
    assert_eq!(db.query_layer_cache(kind, layer, 10), Some("later".to_string()));
}

#[test]
fn every_store_error_has_an_input_that_gives_it() {
    let run = |updates: Vec<DatabaseUpdate>| FloMemory::new().update(updates);
    assert_eq!(
        run(vec![
            PushEditType(EditLogType::SetSize),
            Pop,
            PushEditType(EditLogType::SetSize),
            Pop,
            PushLayerId(0),
            PushEditLogLayer(5),
        ]),
        Err(StoreError::EditNotOpen)
    );
    assert_eq!(run(vec![PushLayerId(99), PushInkBrush(1, 2, 3)]), Err(StoreError::MissingBrush));
    assert_eq!(
        run(vec![
            PushEditType(EditLogType::LayerPaintSelectBrush),
            PushBrushType(BrushDefinitionType::Ink),
            PopEditLogBrush(DrawingStyleType::Draw),
        ]),
        Err(StoreError::IncompleteBrush)
    );
    assert_eq!(
        run(vec![PushBrushType(BrushDefinitionType::Simple), PushInkBrush(1, 2, 3)]),
        Err(StoreError::BrushTypeMismatch)
    );
    assert_eq!(run(vec![PushLayerId(99), PushRgb(1, 2, 3, 4)]), Err(StoreError::MissingColor));
    assert_eq!(
        run(vec![PushColorType(ColorType::Rgb), PushBrushProperties(1, 2)]),
        Err(StoreError::IncompleteColor)
    );
    assert_eq!(
        run(vec![PushColorType(ColorType::Rgb), PushHsluv(1, 2, 3, 4)]),
        Err(StoreError::ColorTypeMismatch)
    );
    assert_eq!(
        run(vec![
            PushVectorElementType(VectorElementType::BrushProperties),
            PushLayerId(99),
            PopVectorBrushPropertiesElement,
        ]),
        Err(StoreError::MissingBrushProperties)
    );
    assert_eq!(run(vec![PushLayerId(99), UpdatePathPointCoords(vec![])]), Err(StoreError::MissingPath));
    assert_eq!(
        run(vec![PushLayerId(99), SetMotionPath(1, MotionPathType::Position, 1)]),
        Err(StoreError::MissingTimePoint)
    );
    assert_eq!(run(vec![PushLayerForAssignedId(7)]), Err(StoreError::MissingLayer));
    assert_eq!(run(vec![PushLayerId(3), PopAddKeyFrame(0)]), Err(StoreError::MissingLayer));
    assert_eq!(
        run(vec![PushLayerType(LayerType::Vector), PushNearestKeyFrame(0)]),
        Err(StoreError::MissingKeyFrame)
    );
    assert_eq!(run(vec![PushElementIdForAssignedId(5)]), Err(StoreError::MissingElement));
    assert_eq!(
        run(vec![PushVectorElementType(VectorElementType::BrushStroke), PushPathIdForElementId]),
        Err(StoreError::UnexpectedElementType)
    );
    assert_eq!(
        run(vec![PushVectorElementType(VectorElementType::BrushStroke), PushKeyFrameIdForElementId]),
        Err(StoreError::MissingKeyFrame)
    );
}

#[test]
fn brushes_and_colours_are_copied_into_what_takes_them() {
    let mut db = FloMemory::new();
    db.update(vec![
        PushVectorElementType(VectorElementType::BrushProperties),
        PushElementAssignId(1),
        PushColorType(ColorType::Hsluv),
        PushHsluv(1, 2, 3, 4),
        PushBrushProperties(5, 6),
        PopVectorBrushPropertiesElement,
    ])
    .unwrap();
    let id = db.query_vector_element_id(&ElementId::Assigned(1)).unwrap();
    let row = db.query_vector_element(id).unwrap();
    assert_eq!(
        row.detail,
        ElementDetail::BrushProperties(flo_anim_store::animation::brush::BrushProperties {
            size: 5,
            opacity: 6,
            color: flo_anim_store::animation::brush::Color::Hsluv(1, 2, 3, 4),
        })
    );
}
