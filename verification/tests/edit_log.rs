use flo_anim_store::animation::brush::{BrushDefinition, BrushDrawingStyle, BrushProperties, Color, InkDefinition, RawPoint};
use flo_anim_store::animation::brushes::UnfittedBrush;
use flo_anim_store::animation::edit::{AnimationEdit, ElementEdit, ElementOrdering, LayerEdit, MotionEdit, PaintEdit, PathEdit};
use flo_anim_store::animation::element_id::ElementId;
use flo_anim_store::animation::motion::{MotionType, TimeControlPoint, TimeCurve, TimePoint};
use flo_anim_store::animation::path::{PathComponent, PathPoint};
use flo_anim_store::db::animation_core::AnimationDbCore;
use flo_anim_store::db::batch::Batch;
use flo_anim_store::db::db_enum::EditLogType;
use flo_anim_store::db::flo_file::{FloQuery, FloStore};
use flo_anim_store::db::flo_memory::FloMemory;
use flo_anim_store::db::flo_store::DatabaseUpdate;
use flo_anim_store::db::rows::EditLogParam;

type Core = AnimationDbCore<FloMemory, UnfittedBrush>;

fn new_core() -> Core {
    AnimationDbCore::new(FloMemory::new(), UnfittedBrush)
}

fn properties() -> BrushProperties {
    BrushProperties { size: 11, opacity: 12, color: Color::Hsluv(1, 2, 3, 4) }
}

fn ink() -> BrushDefinition {
    BrushDefinition::Ink(InkDefinition { min_width: 5, max_width: 6, scale_up_distance: 7 })
}

fn at(x: u32, y: u32) -> PathPoint {
    PathPoint { position: (x, y) }
}

fn components() -> Vec<PathComponent> {
    vec![
        PathComponent::Move(at(1, 2)),
        PathComponent::Bezier(at(3, 4), at(5, 6), at(7, 8)),
        PathComponent::Line(at(9, 10)),
        PathComponent::Close,
    ]
}

fn curve() -> TimeCurve {
    TimeCurve {
        points: vec![
            TimeControlPoint { point: TimePoint(1, 2, 3), past: TimePoint(4, 5, 6), future: TimePoint(7, 8, 9) },
            TimeControlPoint { point: TimePoint(10, 11, 12), past: TimePoint(13, 14, 15), future: TimePoint(16, 17, 18) },
        ],
    }
}

fn every_kind_of_edit() -> Vec<AnimationEdit> {
    let a = ElementId::Assigned(3);
    let b = ElementId::Assigned(4);
    let none = ElementId::Unassigned;
    vec![
        AnimationEdit::SetSize(1920.0f64.to_bits(), 1080.5f64.to_bits()),
        AnimationEdit::AddNewLayer(2),
        AnimationEdit::RemoveLayer(u64::MAX),
        AnimationEdit::Layer(2, LayerEdit::AddKeyFrame(1_000_000)),
        AnimationEdit::Layer(2, LayerEdit::RemoveKeyFrame(-5)),
        AnimationEdit::Layer(2, LayerEdit::SetName("Layer \u{e9}".to_string())),
        AnimationEdit::Layer(2, LayerEdit::SetName(String::new())),
        AnimationEdit::Layer(2, LayerEdit::SetOrdering(u32::MAX)),
        AnimationEdit::Layer(2, LayerEdit::Paint(7, PaintEdit::SelectBrush(a, ink(), BrushDrawingStyle::Erase))),
        AnimationEdit::Layer(2, LayerEdit::Paint(7, PaintEdit::SelectBrush(none, BrushDefinition::Simple, BrushDrawingStyle::Draw))),
        AnimationEdit::Layer(2, LayerEdit::Paint(7, PaintEdit::BrushProperties(b, properties()))),
        AnimationEdit::Layer(
            2,
            LayerEdit::Paint(
                7,
                PaintEdit::BrushStroke(
                    a,
                    vec![
                        RawPoint { position: (1, 2), pressure: 3, tilt: (4, 5) },
                        RawPoint { position: (6, 7), pressure: 8, tilt: (9, 10) },
                    ],
                ),
            ),
        ),
        AnimationEdit::Layer(2, LayerEdit::Paint(7, PaintEdit::BrushStroke(none, vec![]))),
        AnimationEdit::Layer(2, LayerEdit::Path(8, PathEdit::CreatePath(a, components()))),
        AnimationEdit::Layer(2, LayerEdit::Path(8, PathEdit::SelectBrush(b, BrushDefinition::Simple, BrushDrawingStyle::Draw))),
        AnimationEdit::Layer(2, LayerEdit::Path(8, PathEdit::BrushProperties(none, properties()))),
        AnimationEdit::Motion(a, MotionEdit::Create),
        AnimationEdit::Motion(none, MotionEdit::Delete),
        AnimationEdit::Motion(a, MotionEdit::SetType(MotionType::Reverse)),
        AnimationEdit::Motion(a, MotionEdit::SetOrigin(21, 22)),
        AnimationEdit::Motion(a, MotionEdit::SetPath(curve())),
        AnimationEdit::Motion(a, MotionEdit::SetPath(TimeCurve { points: vec![] })),
        AnimationEdit::Element(vec![a, none, b], ElementEdit::AddAttachment(b)),
        AnimationEdit::Element(vec![], ElementEdit::AddAttachment(none)),
        AnimationEdit::Element(vec![a, b, none], ElementEdit::RemoveAttachment(a)),
        AnimationEdit::Element(vec![a], ElementEdit::SetControlPoints(vec![(1, 2), (3, 4), (5, 6)])),
        AnimationEdit::Element(vec![none, none], ElementEdit::SetPath(components())),
        AnimationEdit::Element(vec![a], ElementEdit::Order(ElementOrdering::InFront)),
        AnimationEdit::Element(vec![a], ElementEdit::Order(ElementOrdering::Behind)),
        AnimationEdit::Element(vec![a], ElementEdit::Order(ElementOrdering::ToTop)),
        AnimationEdit::Element(vec![a], ElementEdit::Order(ElementOrdering::ToBottom)),
        AnimationEdit::Element(vec![a], ElementEdit::Order(ElementOrdering::Before(b))),
        AnimationEdit::Element(vec![a], ElementEdit::Order(ElementOrdering::Before(none))),
        AnimationEdit::Element(vec![a, b], ElementEdit::Delete),
        AnimationEdit::Element(vec![none], ElementEdit::DetachFromFrame),
    ]
}

#[test]
fn every_kind_of_edit_is_read_back_as_it_was_written() {
    let mut core = new_core();
    let edits = every_kind_of_edit();
    assert_eq!(core.insert_edits(&edits), Ok(()));
    assert_eq!(core.get_num_edits(), edits.len());
    assert_eq!(core.read_edit_log(0, edits.len()), Some(edits.clone()));
    for (index, edit) in edits.iter().enumerate() {
        assert_eq!(core.read_edit_log(index, index + 1), Some(vec![edit.clone()]));
        let (edit_type, params) = core.db.query_edit_log_entry(index).unwrap();
        assert_eq!(edit_type, EditLogType::from(edit));
        assert_eq!(core.read_edit(edit_type, &params), Some(edit.clone()));
    }
}

#[test]
fn ranges_of_the_log_are_read_in_order() {
    let mut core = new_core();
    let edits = every_kind_of_edit();
    core.insert_edits(&edits[0..4].to_vec()).unwrap();
    core.insert_edits(&edits[4..10].to_vec()).unwrap();
    assert_eq!(core.read_edit_log(2, 7), Some(edits[2..7].to_vec()));
    assert_eq!(core.read_edit_log(8, 100), Some(edits[8..10].to_vec()));
    assert_eq!(core.read_edit_log(5, 5), Some(vec![]));
    assert_eq!(core.read_edit_log(7, 3), Some(vec![]));
    assert_eq!(core.read_edit_log(20, 30), Some(vec![]));
}

#[test]
fn an_attachment_is_recorded_as_the_first_element() {
    let mut core = new_core();
    core.insert_edits(&vec![AnimationEdit::Element(
        vec![ElementId::Assigned(7), ElementId::Unassigned],
        ElementEdit::AddAttachment(ElementId::Assigned(9)),
    )])
    .unwrap();
    assert_eq!(
        core.db.query_edit_log_entry(0),
        Some((
            EditLogType::ElementAddAttachment,
            vec![
                EditLogParam::ElementCount(3),
                EditLogParam::ElementId(0, ElementId::Assigned(9)),
                EditLogParam::ElementId(1, ElementId::Assigned(7)),
                EditLogParam::ElementId(2, ElementId::Unassigned),
            ]
        ))
    );
}

#[test]
fn entries_that_spell_no_edit_are_not_read() {
    let mut core = new_core();
    core.db
        .update(vec![
            DatabaseUpdate::PushEditType(EditLogType::SetSize),
            DatabaseUpdate::PushEditLogLayer(1),
            DatabaseUpdate::Pop,
        ])
        .unwrap();
    assert_eq!(core.get_num_edits(), 1);
    assert_eq!(core.read_edit_log(0, 1), None);
    assert_eq!(core.read_edit(EditLogType::LayerSetName, &vec![EditLogParam::Layer(1), EditLogParam::Text(0, 99)]), None);
    assert_eq!(core.read_edit(EditLogType::LayerSetOrdering, &vec![EditLogParam::Layer(1), EditLogParam::Int(0, -1)]), None);
    assert_eq!(
        core.read_edit(EditLogType::ElementDelete, &vec![EditLogParam::ElementCount(2), EditLogParam::ElementId(0, ElementId::Unassigned)]),
        None
    );
    assert_eq!(
        core.read_edit(
            EditLogType::ElementDelete,
            &vec![EditLogParam::ElementCount(1), EditLogParam::ElementId(1, ElementId::Unassigned)]
        ),
        None
    );
    assert_eq!(
        core.read_edit(EditLogType::MotionSetPath, &vec![
            EditLogParam::ElementId(0, ElementId::Assigned(1)),
            EditLogParam::TimePoint(TimePoint(1, 2, 3)),
        ]),
        None
    );
}

#[test]
fn the_writer_spells_an_edit_in_instructions() {
    let mut batch = Batch::new();
    Core::insert_edit_log(&mut batch, &AnimationEdit::Layer(3, LayerEdit::AddKeyFrame(20)));
    assert_eq!(
        batch.into_updates(),
        vec![
            DatabaseUpdate::PushEditType(EditLogType::LayerAddKeyFrame),
            DatabaseUpdate::PushEditLogLayer(3),
            DatabaseUpdate::PushEditLogWhen(20),
            DatabaseUpdate::Pop,
        ]
    );
    let mut batch = Batch::new();
    Core::insert_brush(&mut batch, &ink());
    Core::insert_brush_properties(&mut batch, &properties());
    assert_eq!(batch.len(), 5);
}

fn drawing() -> Vec<AnimationEdit> {
    let stroke = |points: Vec<(u32, u32)>| {
        PaintEdit::BrushStroke(
            ElementId::Unassigned,
            points.into_iter().map(|p| RawPoint { position: p, pressure: 9, tilt: (0, 0) }).collect(),
        )
    };
    vec![
        AnimationEdit::SetSize(640.0f64.to_bits(), 480.0f64.to_bits()),
        AnimationEdit::AddNewLayer(1),
        AnimationEdit::AddNewLayer(2),
        AnimationEdit::Layer(1, LayerEdit::SetName("Ink".to_string())),
        AnimationEdit::Layer(1, LayerEdit::AddKeyFrame(0)),
        AnimationEdit::Layer(1, LayerEdit::AddKeyFrame(1000)),
        AnimationEdit::Layer(2, LayerEdit::AddKeyFrame(0)),
        AnimationEdit::Layer(1, LayerEdit::Paint(0, PaintEdit::SelectBrush(ElementId::Unassigned, ink(), BrushDrawingStyle::Draw))),
        AnimationEdit::Layer(1, LayerEdit::Paint(0, PaintEdit::BrushProperties(ElementId::Unassigned, properties()))),
        AnimationEdit::Layer(1, LayerEdit::Paint(0, stroke(vec![(1, 1), (2, 2)]))),
        AnimationEdit::Layer(1, LayerEdit::Paint(500, stroke(vec![(3, 3)]))),
        AnimationEdit::Layer(1, LayerEdit::Paint(1500, stroke(vec![(4, 4), (5, 5), (6, 6)]))),
        AnimationEdit::Layer(2, LayerEdit::Path(0, PathEdit::SelectBrush(ElementId::Unassigned, BrushDefinition::Simple, BrushDrawingStyle::Erase))),
        AnimationEdit::Layer(2, LayerEdit::Path(0, PathEdit::BrushProperties(ElementId::Unassigned, properties()))),
        AnimationEdit::Layer(2, LayerEdit::Path(0, PathEdit::CreatePath(ElementId::Unassigned, components()))),
        AnimationEdit::Element(vec![ElementId::Assigned(2)], ElementEdit::Order(ElementOrdering::InFront)),
        AnimationEdit::Element(vec![ElementId::Assigned(3)], ElementEdit::SetControlPoints(vec![(8, 8)])),
        AnimationEdit::Element(vec![ElementId::Assigned(7)], ElementEdit::SetPath(vec![PathComponent::Move(at(0, 0))])),
        AnimationEdit::Motion(ElementId::Assigned(90), MotionEdit::Create),
        AnimationEdit::Motion(ElementId::Assigned(90), MotionEdit::SetPath(curve())),
        AnimationEdit::Element(vec![ElementId::Assigned(4)], ElementEdit::AddAttachment(ElementId::Assigned(90))),
        AnimationEdit::Element(vec![ElementId::Assigned(4)], ElementEdit::Delete),
    ]
}

#[test]
fn replaying_the_log_makes_the_same_animation() {
    let mut first = new_core();
    assert_eq!(first.perform_edits(drawing()), Ok(()));
    let log = first.read_edit_log(0, first.get_num_edits()).unwrap();
    assert_eq!(log.len(), drawing().len());
    assert_eq!(log, first.assign_element_ids(log.clone()));
    assert_ne!(log, drawing());

    let mut second = new_core();
    assert_eq!(second.perform_edits(log.clone()), Ok(()));

    assert_eq!(second.read_edit_log(0, second.get_num_edits()), Some(log));
    assert_eq!(second.db.query_size(), first.db.query_size());
    for assigned in [1u64, 2] {
        let a = first.db.query_layer_id_for_assigned_id(assigned).unwrap();
        let b = second.db.query_layer_id_for_assigned_id(assigned).unwrap();
        assert_eq!(a, b);
        assert_eq!(first.db.query_key_frame_times(a.0), second.db.query_key_frame_times(b.0));
        for when in [0i64, 499, 500, 999, 1000, 1500, 2000] {
            let frame = first.get_frame_at_time(a.0, when);
            assert_eq!(frame, second.get_frame_at_time(b.0, when));
            for element in frame.iter() {
                assert_eq!(
                    first.db.query_brush_points(element.element.id),
                    second.db.query_brush_points(element.element.id)
                );
                assert_eq!(
                    first.db.query_attached_elements(element.element.id),
                    second.db.query_attached_elements(element.element.id)
                );
            }
        }
    }
    let layer = first.db.query_layer_id_for_assigned_id(1).unwrap().0;
    assert_eq!(first.get_frame_at_time(layer, 0).len(), 1);
    assert_eq!(first.get_frame_at_time(layer, 999).len(), 2);
    assert_eq!(first.get_frame_at_time(layer, 2000).len(), 0);
    let motion = first.db.query_motion(90).unwrap();
    assert_eq!(second.db.query_motion(90), Some(motion));
    assert_eq!(first.db.query_motion_path(&motion), second.db.query_motion_path(&motion));
    assert_eq!(first.path_properties_for_layer, second.path_properties_for_layer);
    assert_eq!(first.brush_properties_for_layer, second.brush_properties_for_layer);
    assert_eq!(first.active_brush_for_layer, second.active_brush_for_layer);
}
