use flo_anim_store::animation::brush::{BrushDefinition, BrushDrawingStyle, BrushPoint, BrushProperties, Color, RawPoint};
use flo_anim_store::animation::brushes::{Brush, UnfittedBrush};
use flo_anim_store::animation::edit::{LayerEdit, PaintEdit, PathEdit};
use flo_anim_store::animation::element_id::ElementId;
use flo_anim_store::animation::inmemory::vector_keyframe::{VectorKeyFrame, VectorKeyFrameCore};
use flo_anim_store::animation::inmemory::vector_layer::VectorLayer;
use flo_anim_store::animation::layer::Layer;
use flo_anim_store::animation::path::{PathComponent, PathPoint};
use flo_anim_store::animation::vector::{BrushDefinitionElement, BrushElement, BrushPropertiesElement, PathElement, Vector, VectorProperties};

fn properties() -> BrushProperties {
    BrushProperties { size: 3, opacity: 4, color: Color::Rgba(1, 2, 3, 4) }
}

fn definition_element() -> Vector {
    Vector::BrushDefinition(BrushDefinitionElement {
        id: ElementId::Assigned(1),
        definition: BrushDefinition::Simple,
        drawing_style: BrushDrawingStyle::Erase,
    })
}

#[test]
fn a_new_key_frame_is_empty() {
    let frame = VectorKeyFrame::new(250);
    assert_eq!(frame.start_time(), 250);
    assert!(frame.elements().is_empty());
    assert_eq!(frame.active_properties(), VectorProperties::default());
    let core = VectorKeyFrameCore::new(250);
    assert_eq!(core.start_time(), 250);
    assert!(core.elements().is_empty());
    assert_eq!(*core.active_properties(), VectorProperties::default());
}

#[test]
fn elements_set_the_properties_for_those_after_them() {
    let mut frame = VectorKeyFrame::new(0);
    frame.add_element(10, definition_element());
    assert_eq!(
        frame.active_properties(),
        VectorProperties {
            brush: BrushDefinition::Simple,
            drawing_style: BrushDrawingStyle::Erase,
            brush_properties: BrushProperties::new(),
        }
    );
    frame.add_element(20, Vector::BrushProperties(BrushPropertiesElement { id: ElementId::Assigned(2), properties: properties() }));
    frame.add_element(30, Vector::BrushStroke(BrushElement::new(ElementId::Assigned(3), vec![])));
    frame.add_element(40, Vector::Path(PathElement::new(ElementId::Assigned(4), vec![PathComponent::Close])));
    assert_eq!(
        frame.active_properties(),
        VectorProperties {
            brush: BrushDefinition::Simple,
            drawing_style: BrushDrawingStyle::Erase,
            brush_properties: properties(),
        }
    );
    let elements = frame.elements();
    assert_eq!(elements.len(), 4);
    assert_eq!(elements.iter().map(|(when, _)| *when).collect::<Vec<_>>(), vec![10, 20, 30, 40]);
    assert_eq!(
        elements.iter().map(|(_, element)| element.id()).collect::<Vec<_>>(),
        vec![ElementId::Assigned(1), ElementId::Assigned(2), ElementId::Assigned(3), ElementId::Assigned(4)]
    );
}

#[test]
fn the_core_of_a_key_frame_adds_elements_at_the_front() {
    let mut core = VectorKeyFrameCore::new(0);
    core.add_element(5, definition_element());
    core.add_element(6, Vector::BrushStroke(BrushElement::new(ElementId::Unassigned, vec![])));
    assert_eq!(core.elements().len(), 2);
    assert_eq!(core.elements()[1].0, 6);
    assert_eq!(core.active_properties().drawing_style, BrushDrawingStyle::Erase);
}

struct WideBrush;

impl Brush for WideBrush {
    fn brush_points_for_raw_points(
        &self,
        _definition: &BrushDefinition,
        _drawing_style: BrushDrawingStyle,
        raw_points: &Vec<RawPoint>,
    ) -> Vec<BrushPoint> {
        raw_points
            .iter()
            .map(|p| BrushPoint { position: p.position, cp1: p.tilt, cp2: p.tilt, width: p.pressure + 1 })
            .collect()
    }
}

#[test]
fn a_layer_draws_with_the_brush_it_is_given() {
    let mut layer = VectorLayer::new(1);
    layer.apply_new_edits(
        &WideBrush,
        &vec![
            LayerEdit::AddKeyFrame(0),
            LayerEdit::Paint(
                0,
                PaintEdit::BrushStroke(
                    ElementId::Assigned(1),
                    vec![RawPoint { position: (1, 2), pressure: 3, tilt: (4, 5) }],
                ),
            ),
        ],
    );
    let frame = layer.get_frame_at_time(0).unwrap();
    match &frame.elements()[0].1 {
        Vector::BrushStroke(stroke) => {
            assert_eq!(stroke.points(), &vec![BrushPoint { position: (1, 2), cp1: (4, 5), cp2: (4, 5), width: 4 }]);
        }
        _ => panic!("a brush stroke was painted"),
    }
}

#[test]
fn an_unfitted_brush_keeps_the_points_it_is_given() {
    let raw = vec![
        RawPoint { position: (1, 2), pressure: 3, tilt: (4, 5) },
        RawPoint { position: (6, 7), pressure: 8, tilt: (9, 10) },
    ];
    let points = UnfittedBrush.brush_points_for_raw_points(&BrushDefinition::Simple, BrushDrawingStyle::Draw, &raw);
    assert_eq!(
        points,
        vec![
            BrushPoint { position: (1, 2), cp1: (1, 2), cp2: (1, 2), width: 3 },
            BrushPoint { position: (6, 7), cp1: (6, 7), cp2: (6, 7), width: 8 },
        ]
    );
}

#[test]
fn a_layer_puts_what_is_painted_into_the_nearest_key_frame() {
    let mut layer = VectorLayer::new(42);
    assert_eq!(layer.id(), 42);
    assert!(layer.get_frame_at_time(0).is_none());

    let stroke = |id| PaintEdit::BrushStroke(ElementId::Assigned(id), vec![RawPoint { position: (1, 1), pressure: 2, tilt: (0, 0) }]);
    layer.apply_new_edits(
        &UnfittedBrush,
        &vec![
            LayerEdit::Paint(5, stroke(0)),
            LayerEdit::AddKeyFrame(100),
            LayerEdit::AddKeyFrame(300),
            LayerEdit::AddKeyFrame(100),
            LayerEdit::Paint(50, stroke(1)),
            LayerEdit::Paint(150, PaintEdit::SelectBrush(ElementId::Assigned(2), BrushDefinition::Simple, BrushDrawingStyle::Erase)),
            LayerEdit::Paint(299, stroke(3)),
            LayerEdit::Paint(300, PaintEdit::BrushProperties(ElementId::Assigned(4), properties())),
            LayerEdit::Path(400, PathEdit::CreatePath(ElementId::Assigned(5), vec![PathComponent::Move(PathPoint { position: (1, 1) })])),
            LayerEdit::SetName("ignored".to_string()),
            LayerEdit::SetOrdering(1),
        ],
    );

    assert!(layer.get_frame_at_time(99).is_none());
    let first = layer.get_frame_at_time(299).unwrap();
    assert_eq!(first.start_time(), 100);
    assert_eq!(
        first.elements().iter().map(|(when, element)| (*when, element.id())).collect::<Vec<_>>(),
        vec![(150, ElementId::Assigned(2)), (299, ElementId::Assigned(3))]
    );
    assert_eq!(first.active_properties().drawing_style, BrushDrawingStyle::Erase);
    let second = layer.get_frame_at_time(1000).unwrap();
    assert_eq!(second.start_time(), 300);
    assert_eq!(
        second.elements().iter().map(|(_, element)| element.id()).collect::<Vec<_>>(),
        vec![ElementId::Assigned(4), ElementId::Assigned(5)]
    );
    assert_eq!(second.active_properties().brush_properties, properties());

    layer.apply_new_edits(&UnfittedBrush, &vec![LayerEdit::RemoveKeyFrame(300), LayerEdit::RemoveKeyFrame(7)]);
    assert_eq!(layer.get_frame_at_time(1000).unwrap().start_time(), 100);
    assert_eq!(layer.find_nearest_keyframe(1000), Some(0));
    assert_eq!(layer.key_frame(0).start_time(), 100);
}
