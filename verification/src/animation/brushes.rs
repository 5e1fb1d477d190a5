use vstd::prelude::*;
use crate::animation::brush::{BrushDefinition, BrushDrawingStyle, BrushPoint, RawPoint};
use crate::db::relation::{extend_mapped, mapped, Mapper};

verus! {

/// Some segments for a brush and raw points: always the same for the same.
pub closed spec fn some_brush_points<B>(
    brush: B,
    definition: BrushDefinition,
    drawing_style: BrushDrawingStyle,
    raw_points: Seq<RawPoint>,
) -> Seq<BrushPoint> {
    let made = arbitrary::<spec_fn(B, BrushDefinition, BrushDrawingStyle, Seq<RawPoint>) -> Seq<BrushPoint>>();
    made(brush, definition, drawing_style, raw_points)
}

/// Something that can turn the points of a device into the segments of a brush
/// stroke. The segments are a function of the brush and of the points alone.
pub trait Brush: Sized {
    /// The segments that the brush makes of raw points. A brush that says
    /// nothing more of itself makes some segments of them, the same whenever it
    /// is given the same.
    open spec fn spec_brush_points(
        &self,
        definition: BrushDefinition,
        drawing_style: BrushDrawingStyle,
        raw_points: Seq<RawPoint>,
    ) -> Seq<BrushPoint> {
        some_brush_points(*self, definition, drawing_style, raw_points)
    }

    /// Returns the brush points for rendering given a particular set of raw points
    fn brush_points_for_raw_points(
        &self,
        definition: &BrushDefinition,
        drawing_style: BrushDrawingStyle,
        raw_points: &Vec<RawPoint>,
    ) -> (r: Vec<BrushPoint>)
        ensures
            r@ == self.spec_brush_points(*definition, drawing_style, raw_points@),
    ;
}

/// A brush that fits no curve: every raw point becomes a segment that ends at
/// it, with both control points on it and the pressure for its width.
#[derive(Clone, Copy, Debug)]
pub struct UnfittedBrush;

impl Mapper<RawPoint, BrushPoint> for UnfittedBrush {
    open spec fn image(&self, a: RawPoint) -> BrushPoint {
        BrushPoint { position: a.position, cp1: a.position, cp2: a.position, width: a.pressure }
    }

    fn map(&self, a: &RawPoint) -> (b: BrushPoint) {
        BrushPoint { position: a.position, cp1: a.position, cp2: a.position, width: a.pressure }
    }
}

impl Brush for UnfittedBrush {
    open spec fn spec_brush_points(
        &self,
        definition: BrushDefinition,
        drawing_style: BrushDrawingStyle,
        raw_points: Seq<RawPoint>,
    ) -> Seq<BrushPoint> {
        mapped(raw_points, *self)
    }

    fn brush_points_for_raw_points(
        &self,
        definition: &BrushDefinition,
        drawing_style: BrushDrawingStyle,
        raw_points: &Vec<RawPoint>,
    ) -> (r: Vec<BrushPoint>) {
        let mut out: Vec<BrushPoint> = Vec::new();
        extend_mapped(&mut out, raw_points, *self);
        proof {
            assert(out@ =~= mapped(raw_points@, *self));
        }
        out
    }
}

} // verus!
