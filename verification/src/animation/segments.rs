//! The control points of a brush stroke, as a flat list and in segments.

use itertools::Itertools;
use vstd::prelude::*;
use crate::animation::brush::{Bits32, BrushPoint, Coord};
use crate::animation::element_id::ElementId;
use crate::animation::vector::{BrushElement, Vector};
use crate::db::flo_store::Segment;

verus! {

/// Positions in threes: the segments of a brush stroke as they are stored.
pub open spec fn segments_of(points: Seq<Coord>) -> Seq<Segment> {
    Seq::new(
        (points.len() / 3) as nat,
        |i: int| (points[3 * i], points[3 * i + 1], points[3 * i + 2]),
    )
}

/// The segments that the control points of a brush stroke stand for. The first
/// point has no control points of its own, so it stands in for both of them.
pub open spec fn stroke_segments(points: Seq<Coord>) -> Seq<Segment> {
    if points.len() == 0 {
        Seq::empty()
    } else {
        segments_of(seq![points[0], points[0]] + points)
    }
}

/// Groups positions in threes with `Itertools::tuples`, which hands out the
/// items it is given three at a time, in their order, and leaves out what is
/// left over at the end.
#[verifier::external_body]
fn group_segments(points: Vec<Coord>) -> (r: Vec<Segment>)
    ensures
        r@ == segments_of(points@),
{
    points.into_iter().tuples().collect()
}

/// The segments that the control points of a brush stroke stand for.
pub fn stroke_segments_of(points: &Vec<Coord>) -> (r: Vec<Segment>)
    ensures
        r@ == stroke_segments(points@),
{
    let mut all: Vec<Coord> = Vec::new();
    if points.len() > 0 {
        all.push(points[0]);
        all.push(points[0]);
        let mut i: usize = 0;
        while i < points.len()
            invariant
                i <= points@.len(),
                all@ == seq![points@[0], points@[0]] + points@.take(i as int),
            decreases points.len() - i,
        {
            all.push(points[i]);
            proof {
                assert(all@ =~= seq![points@[0], points@[0]] + points@.take(i + 1));
            }
            i += 1;
        }
        proof {
            assert(points@.take(i as int) =~= points@);
        }
    }
    let segments = group_segments(all);
    proof {
        assert(segments@ =~= stroke_segments(points@));
    }
    segments
}

/// A point that an element can be edited by.
#[derive(Clone, Copy, Debug, PartialEq, Eq, Hash)]
pub enum ControlPoint {
    /// A point on a bezier curve
    BezierPoint(Bits32, Bits32),
    /// A control point of a bezier curve
    BezierControlPoint(Bits32, Bits32),
}

impl ControlPoint {
    /// Where the point is.
    pub open spec fn spec_position(self) -> Coord {
        match self {
            ControlPoint::BezierPoint(x, y) => (x, y),
            ControlPoint::BezierControlPoint(x, y) => (x, y),
        }
    }

    /// Where the point is.
    pub fn position(&self) -> (p: Coord)
        ensures
            p == self.spec_position(),
    {
        match self {
            ControlPoint::BezierPoint(x, y) => (*x, *y),
            ControlPoint::BezierControlPoint(x, y) => (*x, *y),
        }
    }
}

/// The control points of a brush stroke: for each of its points the two control
/// points and then the point itself, but for the first point, which has no
/// control points of its own.
pub open spec fn brush_control_points(points: Seq<BrushPoint>) -> Seq<ControlPoint> {
    if points.len() == 0 {
        Seq::empty()
    } else {
        Seq::new(
            (3 * points.len() - 2) as nat,
            |i: int|
                if (i + 2) % 3 == 0 {
                    ControlPoint::BezierControlPoint(points[(i + 2) / 3].cp1.0, points[(i + 2) / 3].cp1.1)
                } else if (i + 2) % 3 == 1 {
                    ControlPoint::BezierControlPoint(points[(i + 2) / 3].cp2.0, points[(i + 2) / 3].cp2.1)
                } else {
                    ControlPoint::BezierPoint(points[(i + 2) / 3].position.0, points[(i + 2) / 3].position.1)
                },
        )
    }
}

/// The points of a brush stroke with its control points at new positions: as
/// many points as there are both points and segments, each with the width it had.
pub open spec fn adjusted_points(points: Seq<BrushPoint>, new_positions: Seq<Coord>) -> Seq<BrushPoint> {
    let segments = stroke_segments(new_positions);
    Seq::new(
        if points.len() <= segments.len() {
            points.len()
        } else {
            segments.len()
        },
        |i: int|
            BrushPoint {
                position: segments[i].2,
                cp1: segments[i].0,
                cp2: segments[i].1,
                width: points[i].width,
            },
    )
}

impl BrushElement {
    /// Fetches the control points for this element
    pub fn control_points(&self) -> (r: Vec<ControlPoint>)
        ensures
            r@ == brush_control_points(self@),
    {
        let points = self.points();
        let mut out: Vec<ControlPoint> = Vec::new();
        let mut i: usize = 0;
        while i < points.len()
            invariant
                i <= points@.len(),
                points@ == self@,
                out@.len() == (if i == 0 {
                    0
                } else {
                    3 * i - 2
                }),
                forall|k: int| 0 <= k < out@.len() ==> out@[k] == brush_control_points(self@)[k],
            decreases points.len() - i,
        {
            let p = points[i];
            if i > 0 {
                out.push(ControlPoint::BezierControlPoint(p.cp1.0, p.cp1.1));
                out.push(ControlPoint::BezierControlPoint(p.cp2.0, p.cp2.1));
            }
            out.push(ControlPoint::BezierPoint(p.position.0, p.position.1));
            i += 1;
        }
        proof {
            assert(out@ =~= brush_control_points(self@));
        }
        out
    }

    /// Creates a new vector element from this one with the control points updated to the specified set of new values
    pub fn with_adjusted_control_points(&self, new_positions: &Vec<Coord>) -> (r: Vector)
        ensures
            r matches Vector::BrushStroke(e) && e.spec_id() == self.spec_id() && e@ == adjusted_points(
                self@,
                new_positions@,
            ),
    {
        // The widths are kept the same as they are in this element
        let points = self.points();
        // The first element still has two control points, but we only actually care about its position
        let segments = stroke_segments_of(new_positions);
        // Using more elements than we already have will just clip the result to the same number of points
        // Using fewer elements will cause the result to have fewer elements
        let n = if points.len() <= segments.len() {
            points.len()
        } else {
            segments.len()
        };
        let mut out: Vec<BrushPoint> = Vec::new();
        let mut i: usize = 0;
        while i < n
            invariant
                i <= n,
                n <= points@.len(),
                n <= segments@.len(),
                points@ == self@,
                segments@ == stroke_segments(new_positions@),
                out@.len() == i,
                forall|k: int| 0 <= k < i ==> out@[k] == adjusted_points(self@, new_positions@)[k],
            decreases n - i,
        {
            let segment = segments[i];
            out.push(
                BrushPoint { position: segment.2, cp1: segment.0, cp2: segment.1, width: points[i].width },
            );
            i += 1;
        }
        proof {
            assert(out@ =~= adjusted_points(self@, new_positions@));
        }
        Vector::BrushStroke(BrushElement::new(self.id(), out))
    }
}

} // verus!
