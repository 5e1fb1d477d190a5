use flo_anim_store::animation::brush::{BrushDefinition, BrushProperties, Color, InkDefinition, RawPoint};
use flo_anim_store::animation::brushes::UnfittedBrush;
use flo_anim_store::animation::edit::{AnimationEdit, LayerEdit};
use flo_anim_store::animation::element_id::ElementId;
use flo_anim_store::animation::motion::{MotionType, TimePoint};
use flo_anim_store::db::animation_core::AnimationDbCore;
use flo_anim_store::db::db_enum::{DrawingStyleType, EditLogType, PathPointType};
use flo_anim_store::db::error::StoreError;
use flo_anim_store::db::flo_file::FloQuery;
use flo_anim_store::db::flo_memory::FloMemory;
use flo_anim_store::db::record::ParamRecord;
use flo_anim_store::db::rows::{EditLogParam, PathPointRow};

fn every_kind_of_parameter() -> Vec<EditLogParam> {
    vec![
        EditLogParam::Size(u64::MAX, 0),
        EditLogParam::Size(0x1_0000_0000, 0xffff_ffff),
        EditLogParam::Layer(0x1234_5678_9abc_def0),
        EditLogParam::When(i64::MIN),
        EditLogParam::When(i64::MAX),
        EditLogParam::ElementCount(usize::MAX),
        EditLogParam::ElementCount(0),
        EditLogParam::ElementId(3, ElementId::Assigned(-7)),
        EditLogParam::ElementId(usize::MAX, ElementId::Unassigned),
        EditLogParam::Brush(BrushDefinition::Simple, DrawingStyleType::Erase),
        EditLogParam::Brush(
            BrushDefinition::Ink(InkDefinition { min_width: 0, max_width: u32::MAX, scale_up_distance: 7 }),
            DrawingStyleType::Draw,
        ),
        EditLogParam::BrushProperties(BrushProperties { size: 1, opacity: 2, color: Color::Rgba(3, 4, 5, u32::MAX) }),
        EditLogParam::BrushProperties(BrushProperties { size: 1, opacity: 2, color: Color::Hsluv(3, 4, 5, 6) }),
        EditLogParam::RawPoint(RawPoint { position: (1, 2), pressure: 3, tilt: (4, u32::MAX) }),
        EditLogParam::Text(u32::MAX, 12),
        EditLogParam::Int(0, i64::MIN),
        EditLogParam::MotionType(MotionType::Stationary),
        EditLogParam::MotionType(MotionType::Reverse),
        EditLogParam::MotionOrigin(9, 10),
        EditLogParam::TimePoint(TimePoint(1, 2, 3)),
        EditLogParam::PathPoint(PathPointRow { position: (1, 2), kind: PathPointType::BezierTo }),
    ]
}

#[test]
fn every_parameter_comes_back_from_its_record() {
    for param in every_kind_of_parameter() {
        let record = param.to_record();
        assert!(record.fields.len() <= 7);
        assert_eq!(EditLogParam::from_record(&record), Some(param));
    }
}

#[test]
fn halves_of_a_wide_value_are_recorded_as_such() {
    assert_eq!(
        EditLogParam::Size(0x1_0000_0002, 3).to_record(),
        ParamRecord { kind: 0, fields: vec![1, 2, 0, 3] }
    );
    assert_eq!(EditLogParam::When(-5).to_record(), ParamRecord { kind: 2, fields: vec![-5] });
    assert_eq!(
        EditLogParam::ElementId(1, ElementId::Assigned(9)).to_record(),
        ParamRecord { kind: 4, fields: vec![0, 1, 1, 9] }
    );
    assert_eq!(
        EditLogParam::PathPoint(PathPointRow { position: (5, 6), kind: PathPointType::Close }).to_record(),
        ParamRecord { kind: 13, fields: vec![5, 6, 4] }
    );
}

#[test]
fn records_that_were_written_for_nothing_are_not_read() {
    let read = |kind: i64, fields: Vec<i64>| EditLogParam::from_record(&ParamRecord { kind, fields });
    assert_eq!(read(14, vec![]), None);
    assert_eq!(read(-1, vec![0]), None);
    assert_eq!(read(0, vec![0, 0, 0]), None);
    assert_eq!(read(0, vec![0x1_0000_0000, 0, 0, 0]), None);
    assert_eq!(read(0, vec![0, -1, 0, 0]), None);
    assert_eq!(read(2, vec![]), None);
    assert_eq!(read(4, vec![0, 0, 2, 0]), None);
    assert_eq!(read(4, vec![0, 0, 0, 5]), None);
    assert_eq!(read(5, vec![2, 0, 0, 0, 0]), None);
    assert_eq!(read(5, vec![0, 0, 1, 0, 0]), None);
    assert_eq!(read(5, vec![0, 1, -1, 0, 0]), None);
    assert_eq!(read(6, vec![0, 0, 2, 0, 0, 0, 0]), None);
    assert_eq!(read(7, vec![0, 0, 0, 0, 0x1_0000_0000]), None);
    assert_eq!(read(10, vec![3]), None);
    assert_eq!(read(13, vec![0, 0, 5]), None);
    assert_eq!(read(1, vec![0, 7]), Some(EditLogParam::Layer(7)));
}

#[test]
fn an_edit_log_that_was_put_back_reads_as_it_was_written() {
    let mut written = AnimationDbCore::new(FloMemory::new(), UnfittedBrush);
    let edits = vec![
        AnimationEdit::AddNewLayer(1),
        AnimationEdit::Layer(1, LayerEdit::SetName("One".to_string())),
        AnimationEdit::Layer(1, LayerEdit::AddKeyFrame(0)),
    ];
    written.perform_edits(edits.clone()).unwrap();

    let mut restored = FloMemory::new();
    let mut at = 0;
    while let Some(text) = written.db.query_string(at) {
        restored.restore_string(text);
        at += 1;
    }
    for index in 0..written.get_num_edits() {
        let (edit_type, params) = written.db.query_edit_log_entry(index).unwrap();
        let records = params.iter().map(|p| p.to_record()).collect::<Vec<_>>();
        let params = records.iter().map(|r| EditLogParam::from_record(r).unwrap()).collect();
        restored.restore_edit_log_entry(edit_type, params);
    }
    assert_eq!(restored.query_layer_id_for_assigned_id(1), None);
    assert_eq!(restored.query_edit_log_entry(1).unwrap().0, EditLogType::LayerSetName);

    let reader = AnimationDbCore::new(restored, UnfittedBrush);
    assert_eq!(reader.next_element_id, 3);
    assert_eq!(reader.read_edit_log(0, 3), Some(edits.clone()));

    let mut replayed = AnimationDbCore::new(FloMemory::new(), UnfittedBrush);
    replayed.perform_edits(edits).unwrap();
    assert_eq!(replayed.db.query_layer_id_for_assigned_id(1), written.db.query_layer_id_for_assigned_id(1));
}

#[test]
fn a_failure_from_outside_stays_until_it_is_taken_away() {
    let mut core = AnimationDbCore::new(FloMemory::new(), UnfittedBrush);
    core.record_failure(StoreError::StorageFailure);
    core.record_failure(StoreError::MissingLayer);
    assert_eq!(core.perform_edits(vec![AnimationEdit::AddNewLayer(1)]), Err(StoreError::StorageFailure));
    assert_eq!(core.retrieve_and_clear_error(), Some(StoreError::StorageFailure));
    assert_eq!(core.perform_edits(vec![AnimationEdit::AddNewLayer(1)]), Ok(()));
}
