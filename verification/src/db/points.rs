//! How paths, brush strokes and curves are laid out as stored points.

use vstd::prelude::*;
use crate::animation::brush::{BrushPoint, Coord};
use crate::animation::motion::{TimeControlPoint, TimePoint};
use crate::animation::path::{PathComponent, PathPoint};
use crate::db::db_enum::PathPointType;
use crate::db::flo_store::Segment;
use crate::db::matchers::PlainPoint;
use crate::db::relation::{find_key, mapped};
use crate::db::rows::{PathPointRow, TimePointRow};

verus! {

/// The stored points of one component: a curve is stored as its two control
/// points followed by its end point, a close as a point at the origin.
pub open spec fn component_points(c: PathComponent) -> Seq<PathPointRow> {
    match c {
        PathComponent::Move(p) => seq![PathPointRow { position: p.position, kind: PathPointType::MoveTo }],
        PathComponent::Line(p) => seq![PathPointRow { position: p.position, kind: PathPointType::LineTo }],
        PathComponent::Bezier(target, cp1, cp2) => seq![
            PathPointRow { position: cp1.position, kind: PathPointType::ControlPoint },
            PathPointRow { position: cp2.position, kind: PathPointType::ControlPoint },
            PathPointRow { position: target.position, kind: PathPointType::BezierTo },
        ],
        PathComponent::Close => seq![PathPointRow { position: (0, 0), kind: PathPointType::Close }],
    }
}

/// The stored points of a list of components, one component after the other.
pub open spec fn flatten_components(components: Seq<PathComponent>) -> Seq<PathPointRow>
    decreases components.len(),
{
    if components.len() == 0 {
        Seq::empty()
    } else {
        flatten_components(components.drop_last()) + component_points(components.last())
    }
}

/// The components that a list of stored points spells, if it spells any: the
/// inverse of `flatten_components`. Where a close is stored counts for nothing.
pub open spec fn parse_components(points: Seq<PathPointRow>) -> Option<Seq<PathComponent>>
    decreases points.len(),
{
    if points.len() == 0 {
        Some(Seq::empty())
    } else {
        let last = points.last();
        match last.kind {
            PathPointType::MoveTo => match parse_components(points.drop_last()) {
                Some(rest) => Some(rest.push(PathComponent::Move(PathPoint { position: last.position }))),
                None => None,
            },
            PathPointType::LineTo => match parse_components(points.drop_last()) {
                Some(rest) => Some(rest.push(PathComponent::Line(PathPoint { position: last.position }))),
                None => None,
            },
            PathPointType::Close => match parse_components(points.drop_last()) {
                Some(rest) => Some(rest.push(PathComponent::Close)),
                None => None,
            },
            PathPointType::BezierTo => if points.len() >= 3 && points[points.len() - 2].kind
                == PathPointType::ControlPoint && points[points.len() - 3].kind
                == PathPointType::ControlPoint {
                match parse_components(points.take(points.len() - 3)) {
                    Some(rest) => Some(
                        rest.push(
                            PathComponent::Bezier(
                                PathPoint { position: last.position },
                                PathPoint { position: points[points.len() - 3].position },
                                PathPoint { position: points[points.len() - 2].position },
                            ),
                        ),
                    ),
                    None => None,
                }
            } else {
                None
            },
            PathPointType::ControlPoint => None,
        }
    }
}

/// Components come back from their stored points.
pub proof fn lemma_parse_flatten(components: Seq<PathComponent>)
    ensures
        parse_components(flatten_components(components)) == Some(components),
    decreases components.len(),
{
    if components.len() > 0 {
        let rest = components.drop_last();
        let last = components.last();
        lemma_parse_flatten(rest);
        let flat = flatten_components(components);
        let head = flatten_components(rest);
        let tail = component_points(last);
        assert(flat == head + tail);
        match last {
            PathComponent::Bezier(target, cp1, cp2) => {
                assert(flat.take(flat.len() - 3) =~= head);
                assert(flat.last() == tail[2]);
                assert(flat[flat.len() - 2] == tail[1]);
                assert(flat[flat.len() - 3] == tail[0]);
            },
            _ => {
                assert(flat.drop_last() =~= head);
                assert(flat.last() == tail[0]);
            },
        }
        assert(rest.push(last) =~= components);
    }
}

/// Plain positions as stored points.
pub open spec fn plain_points(coords: Seq<Coord>) -> Seq<PathPointRow> {
    mapped(coords, PlainPoint)
}

/// The positions of stored points.
pub open spec fn point_positions(points: Seq<PathPointRow>) -> Seq<Coord> {
    points.map_values(|p: PathPointRow| p.position)
}

/// The run of `count` items of a pool that starts at `first`, if the pool holds it.
pub open spec fn run_of<T>(pool: Seq<T>, first: usize, count: usize) -> Option<Seq<T>> {
    if first + count <= pool.len() {
        Some(pool.subrange(first as int, first + count))
    } else {
        None
    }
}

/// The time points with the given ids, if every id has one.
pub open spec fn lookup_time_points(rows: Seq<TimePointRow>, ids: Seq<i64>) -> Option<Seq<TimePoint>>
    decreases ids.len(),
{
    if ids.len() == 0 {
        Some(Seq::empty())
    } else {
        match lookup_time_points(rows, ids.drop_last()) {
            Some(points) => match find_key(rows, ids.last()) {
                Some(i) => Some(points.push(rows[i].point)),
                None => None,
            },
            None => None,
        }
    }
}

/// The points of a brush stroke after its segments were given new positions: a
/// point keeps its width, and a point that no segment is given for stays.
pub open spec fn moved_brush_points(old: Seq<BrushPoint>, segments: Seq<Segment>) -> Seq<BrushPoint> {
    Seq::new(
        old.len(),
        |i: int|
            if i < segments.len() {
                BrushPoint {
                    position: segments[i].2,
                    cp1: segments[i].0,
                    cp2: segments[i].1,
                    width: old[i].width,
                }
            } else {
                old[i]
            },
    )
}

/// The points of a path after they were given new positions: a point keeps its
/// kind, and a point that no position is given for stays.
pub open spec fn moved_path_points(old: Seq<PathPointRow>, coords: Seq<Coord>) -> Seq<PathPointRow> {
    Seq::new(
        old.len(),
        |i: int|
            if i < coords.len() {
                PathPointRow { position: coords[i], kind: old[i].kind }
            } else {
                old[i]
            },
    )
}

/// The points of a path after those from `from` to before `to` were removed.
pub open spec fn points_removed(old: Seq<PathPointRow>, from: usize, to: usize) -> Seq<PathPointRow> {
    let a = if from <= old.len() { from as int } else { old.len() as int };
    let b = if to <= old.len() { to as int } else { old.len() as int };
    if a <= b {
        old.take(a) + old.skip(b)
    } else {
        old
    }
}

/// The points of a path after `added` was inserted at position `at`.
pub open spec fn points_inserted(old: Seq<PathPointRow>, at: usize, added: Seq<PathPointRow>) -> Seq<PathPointRow> {
    let k = if at <= old.len() { at as int } else { old.len() as int };
    old.take(k) + added + old.skip(k)
}

/// The points of a curve, three for each of its control points: the point, then
/// the control point before it, then the one after it.
pub open spec fn curve_points(curve: Seq<TimeControlPoint>) -> Seq<TimePoint>
    decreases curve.len(),
{
    if curve.len() == 0 {
        Seq::empty()
    } else {
        curve_points(curve.drop_last()) + seq![curve.last().point, curve.last().past, curve.last().future]
    }
}

/// The curve that a list of points spells, three points to a control point.
pub open spec fn parse_curve(points: Seq<TimePoint>) -> Option<Seq<TimeControlPoint>>
    decreases points.len(),
{
    if points.len() == 0 {
        Some(Seq::empty())
    } else if points.len() < 3 {
        None
    } else {
        match parse_curve(points.take(points.len() - 3)) {
            Some(rest) => Some(
                rest.push(
                    TimeControlPoint {
                        point: points[points.len() - 3],
                        past: points[points.len() - 2],
                        future: points[points.len() - 1],
                    },
                ),
            ),
            None => None,
        }
    }
}

/// A curve comes back from its points, and it has three points for each of its
/// control points.
pub proof fn lemma_parse_curve(curve: Seq<TimeControlPoint>)
    ensures
        parse_curve(curve_points(curve)) == Some(curve),
        curve_points(curve).len() == 3 * curve.len(),
    decreases curve.len(),
{
    if curve.len() > 0 {
        lemma_parse_curve(curve.drop_last());
        let points = curve_points(curve);
        assert(points.take(points.len() - 3) =~= curve_points(curve.drop_last()));
        assert(curve.drop_last().push(curve.last()) =~= curve);
    }
}

/// The number of stored points that a list of components occupies.
pub open spec fn total_points(components: Seq<PathComponent>) -> nat
    decreases components.len(),
{
    if components.len() == 0 {
        0
    } else {
        total_points(components.drop_last()) + components.last().spec_num_points()
    }
}

/// The components that stored points spell occupy as many points as were stored.
pub proof fn lemma_parsed_total(points: Seq<PathPointRow>)
    requires
        parse_components(points) is Some,
    ensures
        total_points(parse_components(points).unwrap()) == points.len(),
    decreases points.len(),
{
    if points.len() > 0 {
        match points.last().kind {
            PathPointType::BezierTo => {
                let rest = parse_components(points.take(points.len() - 3)).unwrap();
                lemma_parsed_total(points.take(points.len() - 3));
                let all = parse_components(points).unwrap();
                assert(all.drop_last() =~= rest);
            },
            _ => {
                let rest = parse_components(points.drop_last()).unwrap();
                lemma_parsed_total(points.drop_last());
                let all = parse_components(points).unwrap();
                assert(all.drop_last() =~= rest);
            },
        }
    }
}

/// The first components of a list occupy no more points than the whole list.
pub proof fn lemma_total_points_prefix(components: Seq<PathComponent>, k: int)
    requires
        0 <= k <= components.len(),
    ensures
        total_points(components.take(k)) <= total_points(components),
    decreases components.len(),
{
    if k == components.len() {
        assert(components.take(k) =~= components);
    } else {
        assert(components.drop_last().take(k) =~= components.take(k));
        lemma_total_points_prefix(components.drop_last(), k);
    }
}

} // verus!
