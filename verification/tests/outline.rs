use flo_anim_store::animation::brush::BrushPoint;
use flo_anim_store::animation::onion_skin::OutlinePath;
use flo_anim_store::animation::outline::{path_outline, stroke_outline};
use flo_anim_store::animation::path::{PathComponent, PathPoint};

fn at(x: u32, y: u32) -> PathPoint {
    PathPoint { position: (x, y) }
}

fn brush_point(n: u32) -> BrushPoint {
    BrushPoint { position: (n, n + 1), cp1: (n + 2, n + 3), cp2: (n + 4, n + 5), width: n + 6 }
}

#[test]
fn a_path_without_components_has_no_outline() {
    assert_eq!(path_outline(&vec![]), vec![]);
}

#[test]
fn what_comes_before_the_first_move_is_left_out() {
    let components = vec![
        PathComponent::Line(at(1, 1)),
        PathComponent::Bezier(at(2, 2), at(3, 3), at(4, 4)),
        PathComponent::Close,
    ];
    assert_eq!(path_outline(&components), vec![]);
}

#[test]
fn each_move_begins_an_outline() {
    let components = vec![
        PathComponent::Move(at(1, 2)),
        PathComponent::Line(at(3, 4)),
        PathComponent::Bezier(at(5, 6), at(7, 8), at(9, 10)),
        PathComponent::Line(at(11, 12)),
        PathComponent::Close,
        PathComponent::Move(at(20, 21)),
        PathComponent::Close,
        PathComponent::Move(at(30, 31)),
    ];
    assert_eq!(
        path_outline(&components),
        vec![
            OutlinePath {
                start: (1, 2),
                curves: vec![
                    ((1, 2), (3, 4), (3, 4)),
                    ((7, 8), (9, 10), (5, 6)),
                    ((5, 6), (11, 12), (11, 12)),
                    ((11, 12), (1, 2), (1, 2)),
                ],
            },
            OutlinePath { start: (20, 21), curves: vec![((20, 21), (20, 21), (20, 21))] },
            OutlinePath { start: (30, 31), curves: vec![] },
        ]
    );
}

#[test]
fn a_stroke_is_outlined_from_its_first_point() {
    assert_eq!(stroke_outline(&vec![]), vec![]);
    assert_eq!(stroke_outline(&vec![brush_point(1)]), vec![OutlinePath { start: (1, 2), curves: vec![] }]);
    assert_eq!(
        stroke_outline(&vec![brush_point(1), brush_point(10), brush_point(20)]),
        vec![OutlinePath {
            start: (1, 2),
            curves: vec![((12, 13), (14, 15), (10, 11)), ((22, 23), (24, 25), (20, 21))],
        }]
    );
}
