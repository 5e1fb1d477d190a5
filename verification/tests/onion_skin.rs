use flo_anim_store::animation::brush::{BrushDefinition, BrushDrawingStyle, BrushProperties, RawPoint};
use flo_anim_store::animation::brushes::UnfittedBrush;
use flo_anim_store::animation::edit::{AnimationEdit, LayerEdit, PaintEdit};
use flo_anim_store::animation::element_id::ElementId;
use flo_anim_store::animation::onion_skin::{onion_skin_drawing, onion_skin_steps, Combine, Draw, OutlinePath};
use flo_anim_store::db::animation_core::AnimationDbCore;
use flo_anim_store::db::db_enum::VectorElementType;
use flo_anim_store::db::flo_file::FloQuery;
use flo_anim_store::db::flo_memory::FloMemory;

fn stroke() -> AnimationEdit {
    AnimationEdit::Layer(
        1,
        LayerEdit::Paint(
            0,
            PaintEdit::BrushStroke(ElementId::Unassigned, vec![RawPoint { position: (1, 1), pressure: 1, tilt: (0, 0) }]),
        ),
    )
}

fn select(style: BrushDrawingStyle) -> AnimationEdit {
    AnimationEdit::Layer(
        1,
        LayerEdit::Paint(0, PaintEdit::SelectBrush(ElementId::Unassigned, BrushDefinition::Simple, style)),
    )
}

#[test]
fn what_draws_is_added_and_what_erases_is_taken_away() {
    let mut core = AnimationDbCore::new(FloMemory::new(), UnfittedBrush);
    core.perform_edits(vec![
        AnimationEdit::AddNewLayer(1),
        AnimationEdit::Layer(1, LayerEdit::AddKeyFrame(0)),
        select(BrushDrawingStyle::Draw),
        AnimationEdit::Layer(1, LayerEdit::Paint(0, PaintEdit::BrushProperties(ElementId::Unassigned, BrushProperties::new()))),
        stroke(),
        select(BrushDrawingStyle::Erase),
        stroke(),
        stroke(),
    ])
    .unwrap();
    let layer = core.db.query_layer_id_for_assigned_id(1).unwrap().0;
    let frame = core.get_frame_at_time(layer, 0);
    let steps = onion_skin_steps(&frame);
    assert_eq!(steps.len(), 3);
    assert_eq!(steps.iter().map(|s| s.combine).collect::<Vec<_>>(), vec![Combine::Add, Combine::Subtract, Combine::Subtract]);
    assert_eq!(steps.iter().map(|s| s.element.assigned.unwrap()).collect::<Vec<_>>(), vec![2, 4, 5]);
    assert!(steps.iter().all(|s| s.element.element_type == VectorElementType::BrushStroke));
    assert_eq!(steps[0].properties, frame[0].properties);

    let mut handed = 0;
    let skin = core.onion_skin_for_layer(layer, 0, |steps| {
        handed = steps.len();
        "skin".to_string()
    });
    assert_eq!(skin, Ok("skin".to_string()));
    assert_eq!(handed, 3);
    let skin = core.onion_skin_for_layer(layer, 0, |_| "never made".to_string());
    assert_eq!(skin, Ok("skin".to_string()));
    core.perform_edits(vec![stroke()]).unwrap();
    let skin = core.onion_skin_for_layer(layer, 0, |steps| format!("{} steps", steps.len()));
    assert_eq!(skin, Ok("4 steps".to_string()));
}

#[test]
fn an_outline_is_drawn_as_a_move_its_curves_and_a_close() {
    let paths = vec![
        OutlinePath { start: (1, 2), curves: vec![((3, 4), (5, 6), (7, 8)), ((9, 10), (11, 12), (13, 14))] },
        OutlinePath { start: (20, 21), curves: vec![] },
    ];
    assert_eq!(
        onion_skin_drawing(&paths),
        vec![
            Draw::Move((1, 2)),
            Draw::BezierCurve((7, 8), (3, 4), (5, 6)),
            Draw::BezierCurve((13, 14), (9, 10), (11, 12)),
            Draw::ClosePath,
            Draw::Move((20, 21)),
            Draw::ClosePath,
        ]
    );
    assert_eq!(onion_skin_drawing(&vec![]), vec![]);
    assert_eq!(onion_skin_steps(&vec![]), vec![]);
}
