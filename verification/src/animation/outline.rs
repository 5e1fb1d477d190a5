//! The outline of a single element: of a brush stroke, the curve through its
//! points; of a path, one outline for each of its sub-paths.

use vstd::prelude::*;
use crate::animation::brush::{BrushPoint, Coord};
use crate::animation::onion_skin::OutlinePath;
use crate::animation::path::PathComponent;

verus! {

/// An outline as a mathematical value.
pub ghost struct OutlineView {
    pub start: Coord,
    pub curves: Seq<(Coord, Coord, Coord)>,
}

impl View for OutlinePath {
    type V = OutlineView;

    open spec fn view(&self) -> OutlineView {
        OutlineView { start: self.start, curves: self.curves@ }
    }
}

/// The outlines as mathematical values.
pub open spec fn outlines_view(paths: Seq<OutlinePath>) -> Seq<OutlineView> {
    Seq::new(paths.len(), |i: int| paths[i]@)
}

/// Where an outline has got to: the end of its last curve, or its start.
pub open spec fn end_of(path: OutlineView) -> Coord {
    if path.curves.len() == 0 {
        path.start
    } else {
        path.curves.last().2
    }
}

/// The outlines with a curve added to the last of them; without an outline
/// there is nothing to add it to.
pub open spec fn extended(paths: Seq<OutlineView>, curve: (Coord, Coord, Coord)) -> Seq<OutlineView> {
    if paths.len() == 0 {
        paths
    } else {
        paths.drop_last().push(OutlineView { start: paths.last().start, curves: paths.last().curves.push(curve) })
    }
}

/// The straight curve that takes the last of the outlines on to a point.
pub open spec fn line_to(paths: Seq<OutlineView>, to: Coord) -> (Coord, Coord, Coord) {
    if paths.len() == 0 {
        (to, to, to)
    } else {
        (end_of(paths.last()), to, to)
    }
}

/// The outlines of a path. A move begins an outline; a line, a curve and a
/// close go on with the outline begun last, a line as a straight curve from
/// where the outline has got to, a close as a straight curve back to its start.
/// What comes before the first move is left out.
pub open spec fn outline_of(components: Seq<PathComponent>) -> Seq<OutlineView>
    decreases components.len(),
{
    if components.len() == 0 {
        Seq::empty()
    } else {
        let before = outline_of(components.drop_last());
        match components.last() {
            PathComponent::Move(point) => before.push(OutlineView { start: point.position, curves: Seq::empty() }),
            PathComponent::Line(point) => extended(before, line_to(before, point.position)),
            PathComponent::Bezier(target, cp1, cp2) => extended(before, (cp1.position, cp2.position, target.position)),
            PathComponent::Close => if before.len() == 0 {
                before
            } else {
                extended(before, line_to(before, before.last().start))
            },
        }
    }
}

/// The outline of a brush stroke: it starts at the first point, and has a
/// curve to each point after it. A stroke without points has no outline.
pub open spec fn stroke_outline_of(points: Seq<BrushPoint>) -> Seq<OutlineView> {
    if points.len() == 0 {
        Seq::empty()
    } else {
        seq![
            OutlineView {
                start: points[0].position,
                curves: Seq::new(
                    (points.len() - 1) as nat,
                    |i: int| (points[i + 1].cp1, points[i + 1].cp2, points[i + 1].position),
                ),
            },
        ]
    }
}

/// Adds a curve to the last of the outlines, if there is one.
fn extend(paths: &mut Vec<OutlinePath>, curve: (Coord, Coord, Coord))
    ensures
        outlines_view(final(paths)@) == extended(outlines_view(old(paths)@), curve),
{
    match paths.pop() {
        None => {
            proof {
                assert(outlines_view(paths@) =~= extended(outlines_view(old(paths)@), curve));
            }
        },
        Some(last) => {
            let mut last = last;
            last.curves.push(curve);
            paths.push(last);
            proof {
                assert(outlines_view(paths@) =~= extended(outlines_view(old(paths)@), curve));
            }
        },
    }
}

/// The straight curve that takes the last of the outlines on to a point.
fn line(paths: &Vec<OutlinePath>, to: Coord) -> (curve: (Coord, Coord, Coord))
    ensures
        curve == line_to(outlines_view(paths@), to),
{
    if paths.len() == 0 {
        (to, to, to)
    } else {
        let last = &paths[paths.len() - 1];
        let from = if last.curves.len() == 0 {
            last.start
        } else {
            last.curves[last.curves.len() - 1].2
        };
        (from, to, to)
    }
}

/// The outlines of a path, one for each of its sub-paths.
pub fn path_outline(components: &Vec<PathComponent>) -> (paths: Vec<OutlinePath>)
    ensures
        outlines_view(paths@) == outline_of(components@),
{
    let mut paths: Vec<OutlinePath> = Vec::new();
    let mut i: usize = 0;
    proof {
        assert(components@.take(0) =~= Seq::empty());
        assert(outlines_view(paths@) =~= Seq::empty());
    }
    while i < components.len()
        invariant
            i <= components@.len(),
            outlines_view(paths@) == outline_of(components@.take(i as int)),
        decreases components.len() - i,
    {
        proof {
            assert(components@.take(i + 1).drop_last() =~= components@.take(i as int));
        }
        let ghost before = outlines_view(paths@);
        match components[i] {
            PathComponent::Move(point) => {
                paths.push(OutlinePath { start: point.position, curves: Vec::new() });
                proof {
                    assert(outlines_view(paths@) =~= before.push(
                        OutlineView { start: point.position, curves: Seq::empty() },
                    ));
                }
            },
            PathComponent::Line(point) => {
                let curve = line(&paths, point.position);
                extend(&mut paths, curve);
            },
            PathComponent::Bezier(target, cp1, cp2) => {
                extend(&mut paths, (cp1.position, cp2.position, target.position));
            },
            PathComponent::Close => {
                if paths.len() > 0 {
                    let start = paths[paths.len() - 1].start;
                    let curve = line(&paths, start);
                    extend(&mut paths, curve);
                }
            },
        }
        i += 1;
    }
    proof {
        assert(components@.take(i as int) =~= components@);
    }
    paths
}

/// The outline of a brush stroke.
pub fn stroke_outline(points: &Vec<BrushPoint>) -> (paths: Vec<OutlinePath>)
    ensures
        outlines_view(paths@) == stroke_outline_of(points@),
{
    let mut paths: Vec<OutlinePath> = Vec::new();
    if points.len() == 0 {
        proof {
            assert(outlines_view(paths@) =~= stroke_outline_of(points@));
        }
        return paths;
    }
    let mut curves: Vec<(Coord, Coord, Coord)> = Vec::new();
    let mut i: usize = 1;
    while i < points.len()
        invariant
            1 <= i <= points@.len(),
            curves@.len() == i - 1,
            forall|k: int|
                0 <= k < i - 1 ==> #[trigger] curves@[k] == (
                    points@[k + 1].cp1,
                    points@[k + 1].cp2,
                    points@[k + 1].position,
                ),
        decreases points.len() - i,
    {
        curves.push((points[i].cp1, points[i].cp2, points[i].position));
        i += 1;
    }
    let start = points[0].position;
    paths.push(OutlinePath { start, curves });
    proof {
        assert(paths@[0]@.curves =~= stroke_outline_of(points@)[0].curves);
        assert(outlines_view(paths@) =~= stroke_outline_of(points@));
    }
    paths
}

} // verus!
