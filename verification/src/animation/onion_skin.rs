//! The onion skin of a layer: the outline of what the layer shows at a time.
//!
//! The outline is made of the outlines of the elements of the frame, taken in
//! drawing order: what draws is added to the outline so far and what erases is
//! taken away from it. Which elements take part, with which properties and in
//! which way, is decided here; adding and taking away outlines is the work of
//! whoever renders.

use vstd::prelude::*;
use crate::animation::brush::{BrushDrawingStyle, Coord, TimeMicros};
use crate::animation::brushes::Brush;
use crate::animation::cache_type::CacheType;
use crate::animation::vector::VectorProperties;
use crate::db::animation_core::{submit, AnimationDbCore, CoreView};
use crate::db::db_enum::VectorElementType;
use crate::db::error::StoreError;
use crate::db::flo_file::FloFile;
use crate::db::layer_cache::store_cache_updates;
use crate::db::rows::ElementRow;
use crate::db::vector_frame::FrameElement;

verus! {

/// How the outline of an element enters the outline of the frame.
#[derive(Clone, Copy, Debug, PartialEq, Eq, Hash, Structural)]
pub enum Combine {
    /// The outline of the element is added to the outline so far
    Add,
    /// The outline of the element is taken away from the outline so far
    Subtract,
}

/// One step in making the outline of a frame.
#[derive(Clone, Copy, Debug, PartialEq, Eq)]
pub struct OnionSkinStep {
    /// The element whose outline enters
    pub element: ElementRow,
    /// The properties that the element is drawn with
    pub properties: VectorProperties,
    /// How its outline enters
    pub combine: Combine,
}

/// A closed outline: where it starts, and its curves, each with its two control
/// points and its end point.
#[derive(Debug, PartialEq, Eq)]
pub struct OutlinePath {
    pub start: Coord,
    pub curves: Vec<(Coord, Coord, Coord)>,
}

/// An instruction for drawing an outline.
#[derive(Clone, Copy, Debug, PartialEq, Eq, Hash)]
pub enum Draw {
    /// Move to a new point
    Move(Coord),
    /// Bezier curve to a point
    BezierCurve(Coord, Coord, Coord),
    /// Closes the current path
    ClosePath,
}

/// True if elements of this type have an outline.
pub open spec fn has_outline(element_type: VectorElementType) -> bool {
    element_type == VectorElementType::BrushStroke || element_type == VectorElementType::Path
}

/// How an element that is drawn in a style enters the outline.
pub open spec fn combine_for(style: BrushDrawingStyle) -> Combine {
    match style {
        BrushDrawingStyle::Draw => Combine::Add,
        BrushDrawingStyle::Erase => Combine::Subtract,
    }
}

/// The steps that make the outline of a frame: one for each element that has
/// an outline, in drawing order.
pub open spec fn onion_skin_steps_of(frame: Seq<FrameElement>) -> Seq<OnionSkinStep>
    decreases frame.len(),
{
    if frame.len() == 0 {
        Seq::empty()
    } else {
        let rest = onion_skin_steps_of(frame.drop_last());
        let last = frame.last();
        if has_outline(last.element.element_type) {
            rest.push(
                OnionSkinStep {
                    element: last.element,
                    properties: last.properties,
                    combine: combine_for(last.properties.drawing_style),
                },
            )
        } else {
            rest
        }
    }
}

/// The instructions that draw one outline: a move to its start, a curve for
/// each of its curves, with the end point first, and a close.
pub open spec fn path_drawing(start: Coord, curves: Seq<(Coord, Coord, Coord)>) -> Seq<Draw> {
    seq![Draw::Move(start)] + Seq::new(
        curves.len(),
        |i: int| Draw::BezierCurve(curves[i].2, curves[i].0, curves[i].1),
    ) + seq![Draw::ClosePath]
}

/// The instructions that draw outlines, one outline after the other.
pub open spec fn outline_drawing(paths: Seq<OutlinePath>) -> Seq<Draw>
    decreases paths.len(),
{
    if paths.len() == 0 {
        Seq::empty()
    } else {
        outline_drawing(paths.drop_last()) + path_drawing(paths.last().start, paths.last().curves@)
    }
}

/// Lists the steps that make the outline of a frame.
pub fn onion_skin_steps(frame: &Vec<FrameElement>) -> (steps: Vec<OnionSkinStep>)
    ensures
        steps@ == onion_skin_steps_of(frame@),
{
    let mut steps: Vec<OnionSkinStep> = Vec::new();
    let mut i: usize = 0;
    while i < frame.len()
        invariant
            i <= frame@.len(),
            steps@ == onion_skin_steps_of(frame@.take(i as int)),
        decreases frame.len() - i,
    {
        proof {
            assert(frame@.take(i + 1).drop_last() =~= frame@.take(i as int));
        }
        let element = frame[i];
        let outlined = match element.element.element_type {
            VectorElementType::BrushStroke => true,
            VectorElementType::Path => true,
            _ => false,
        };
        if outlined {
            let combine = match element.properties.drawing_style {
                BrushDrawingStyle::Draw => Combine::Add,
                BrushDrawingStyle::Erase => Combine::Subtract,
            };
            steps.push(OnionSkinStep { element: element.element, properties: element.properties, combine });
        }
        i += 1;
    }
    proof {
        assert(frame@.take(i as int) =~= frame@);
    }
    steps
}

/// Converts outlines to a series of drawing instructions
pub fn onion_skin_drawing(paths: &Vec<OutlinePath>) -> (drawing: Vec<Draw>)
    ensures
        drawing@ == outline_drawing(paths@),
{
    let mut drawing: Vec<Draw> = Vec::new();
    let mut i: usize = 0;
    while i < paths.len()
        invariant
            i <= paths@.len(),
            drawing@ == outline_drawing(paths@.take(i as int)),
        decreases paths.len() - i,
    {
        proof {
            assert(paths@.take(i + 1).drop_last() =~= paths@.take(i as int));
        }
        let path = &paths[i];
        let ghost before = drawing@;
        drawing.push(Draw::Move(path.start));
        let mut k: usize = 0;
        while k < path.curves.len()
            invariant
                k <= path.curves@.len(),
                drawing@ == before + seq![Draw::Move(path.start)] + Seq::new(
                    k as nat,
                    |j: int| Draw::BezierCurve(path.curves@[j].2, path.curves@[j].0, path.curves@[j].1),
                ),
            decreases path.curves.len() - k,
        {
            let (cp1, cp2, end) = path.curves[k];
            drawing.push(Draw::BezierCurve(end, cp1, cp2));
            proof {
                assert(drawing@ =~= before + seq![Draw::Move(path.start)] + Seq::new(
                    (k + 1) as nat,
                    |j: int| Draw::BezierCurve(path.curves@[j].2, path.curves@[j].0, path.curves@[j].1),
                ));
            }
            k += 1;
        }
        drawing.push(Draw::ClosePath);
        proof {
            assert(drawing@ =~= before + path_drawing(path.start, path.curves@));
        }
        i += 1;
    }
    proof {
        assert(paths@.take(i as int) =~= paths@);
    }
    drawing
}

impl<TFile: FloFile, TBrush: Brush> AnimationDbCore<TFile, TBrush> {
    /// Computes or retrieves the onion skin for a particular layer at a specified
    /// time.
    ///
    /// What is cached for the layer at that time is returned as it is. If
    /// nothing is cached, `render` is handed the steps that make the outline of
    /// the frame, and what it makes of them is cached and returned.
    pub fn onion_skin_for_layer<F: FnOnce(Vec<OnionSkinStep>) -> String>(
        &mut self,
        layer_id: i64,
        when: TimeMicros,
        render: F,
    ) -> (r: Result<String, StoreError>)
        requires
            forall|steps: Vec<OnionSkinStep>| render.requires((steps,)),
        ensures
            final(self).brushes == old(self).brushes,
            match old(self)@.store.tables().layer_cache(CacheType::OnionSkinLayer, layer_id, when) {
                Some(cached) => final(self)@ == old(self)@ && (r matches Ok(value) && value@ == cached),
                None => exists|steps: Vec<OnionSkinStep>, rendered: String|
                    {
                        &&& steps@ == onion_skin_steps_of(old(self)@.store.tables().frame(layer_id, when))
                        &&& render.ensures((steps,), rendered)
                        &&& final(self)@ == submit(
                            old(self)@,
                            store_cache_updates(CacheType::OnionSkinLayer, layer_id, when, rendered@),
                        ).0
                        &&& match r {
                            Ok(value) => value@ == rendered@ && submit(
                                old(self)@,
                                store_cache_updates(CacheType::OnionSkinLayer, layer_id, when, rendered@),
                            ).1 is Ok,
                            Err(e) => submit(
                                old(self)@,
                                store_cache_updates(CacheType::OnionSkinLayer, layer_id, when, rendered@),
                            ).1 == Err::<(), StoreError>(e),
                        }
                    },
            },
    {
        match self.retrieve_cached(CacheType::OnionSkinLayer, layer_id, when) {
            Some(value) => Ok(value),
            None => {
                // Fetch the elements for the frame
                let frame = self.get_frame_at_time(layer_id, when);
                // Generate the onion skin for this frame
                let steps = onion_skin_steps(&frame);
                let ghost handed = steps;
                let rendered = render(steps);
                let value = rendered.clone();
                match self.store_cached(CacheType::OnionSkinLayer, layer_id, when, rendered) {
                    Ok(()) => {
                        proof {
                            assert(handed@ == onion_skin_steps_of(old(self)@.store.tables().frame(layer_id, when)));
                        }
                        Ok(value)
                    },
                    Err(e) => Err(e),
                }
            },
        }
    }
}

} // verus!
