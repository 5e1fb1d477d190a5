use flo_anim_store::animation::brush::BrushPoint;
use flo_anim_store::animation::element_id::ElementId;
use flo_anim_store::animation::segments::ControlPoint;
use flo_anim_store::animation::vector::{BrushElement, Vector};

fn bits(value: f32) -> u32 {
    value.to_bits()
}

fn point(position: (f32, f32), cp1: (f32, f32), cp2: (f32, f32), width: f32) -> BrushPoint {
    BrushPoint {
        position: (bits(position.0), bits(position.1)),
        cp1: (bits(cp1.0), bits(cp1.1)),
        cp2: (bits(cp2.0), bits(cp2.1)),
        width: bits(width),
    }
}

fn bezier_point(x: f32, y: f32) -> ControlPoint {
    ControlPoint::BezierPoint(bits(x), bits(y))
}

fn bezier_control_point(x: f32, y: f32) -> ControlPoint {
    ControlPoint::BezierControlPoint(bits(x), bits(y))
}

fn three_points() -> Vec<BrushPoint> {
    vec![
        point((1.0, 2.0), (3.0, 4.0), (5.0, 6.0), 0.5),
        point((7.0, 8.0), (9.0, 10.0), (11.0, 12.0), 0.6),
        point((13.0, 14.0), (15.0, 16.0), (17.0, 18.0), 0.7),
    ]
}

#[test]
fn fetch_control_points_for_brush_stroke() {
    let element = BrushElement::new(ElementId::Assigned(5), three_points());

    let control_points = element.control_points();

    assert!(control_points[0] == bezier_point(1.0, 2.0));
    assert!(control_points[1] == bezier_control_point(9.0, 10.0));
    assert!(control_points[2] == bezier_control_point(11.0, 12.0));
    assert!(control_points[3] == bezier_point(7.0, 8.0));
    assert!(control_points[4] == bezier_control_point(15.0, 16.0));
    assert!(control_points[5] == bezier_control_point(17.0, 18.0));
    assert!(control_points[6] == bezier_point(13.0, 14.0));
    assert!(control_points.len() == 7);
}

#[test]
fn update_control_points_for_brush_stroke() {
    let element = BrushElement::new(ElementId::Assigned(5), three_points());
    let new_positions: Vec<(u32, u32)> = vec![
        (1.1f32, 1.2f32),
        (2.1, 2.2),
        (3.1, 3.2),
        (4.1, 4.2),
        (5.1, 5.2),
        (6.1, 6.2),
        (7.1, 7.2),
    ]
    .into_iter()
    .map(|(x, y)| (bits(x), bits(y)))
    .collect();
    let updated = element.with_adjusted_control_points(&new_positions);

    let control_points = match &updated {
        Vector::BrushStroke(updated) => updated.control_points(),
        _ => panic!("a brush stroke stays a brush stroke"),
    };

    assert!(control_points[0] == bezier_point(1.1, 1.2));
    assert!(control_points[1] == bezier_control_point(2.1, 2.2));
    assert!(control_points[2] == bezier_control_point(3.1, 3.2));
    assert!(control_points[3] == bezier_point(4.1, 4.2));
    assert!(control_points[4] == bezier_control_point(5.1, 5.2));
    assert!(control_points[5] == bezier_control_point(6.1, 6.2));
    assert!(control_points[6] == bezier_point(7.1, 7.2));
    assert!(control_points.len() == 7);

    if let Vector::BrushStroke(updated) = updated {
        assert!(updated.points()[0].width == bits(0.5));
        assert!(updated.points()[1].width == bits(0.6));
        assert!(updated.points()[2].width == bits(0.7));
    }
}

#[test]
fn adjusting_with_no_positions_leaves_no_points() {
    let element = BrushElement::new(ElementId::Assigned(5), three_points());
    let updated = element.with_adjusted_control_points(&vec![]);
    match updated {
        Vector::BrushStroke(updated) => {
            assert_eq!(updated.points().len(), 0);
            assert_eq!(updated.id(), ElementId::Assigned(5));
        }
        _ => panic!("a brush stroke stays a brush stroke"),
    }
}
