use vstd::prelude::*;
use crate::animation::brush::TimeMicros;
use crate::animation::brushes::Brush;
use crate::animation::edit::{LayerEdit, LayerEditView, PaintEdit, PaintEditView, PathEdit, PathEditView};
use crate::animation::inmemory::vector_keyframe::{KeyFrameView, VectorKeyFrame};
use crate::animation::layer::Layer;
use crate::animation::vector::{BrushDefinitionElement, BrushElement, BrushPropertiesElement, PathElement, Vector, VectorProperties, VectorView};
use crate::db::tables::copy_rows;

verus! {

/// The key frame that starts at `when`; of two, the newer.
pub open spec fn find_frame(frames: Seq<KeyFrameView>, when: TimeMicros) -> Option<int>
    decreases frames.len(),
{
    if frames.len() == 0 {
        None
    } else if frames.last().start_time == when {
        Some(frames.len() - 1)
    } else {
        find_frame(frames.drop_last(), when)
    }
}

/// The key frame that is the nearest at or before `when`; of two at the same
/// time, the newer.
pub open spec fn nearest_frame(frames: Seq<KeyFrameView>, when: TimeMicros) -> Option<int>
    decreases frames.len(),
{
    if frames.len() == 0 {
        None
    } else {
        let rest = nearest_frame(frames.drop_last(), when);
        if frames.last().start_time <= when && (match rest {
            Some(i) => frames[i].start_time <= frames.last().start_time,
            None => true,
        }) {
            Some(frames.len() - 1)
        } else {
            rest
        }
    }
}

/// The element that a paint edit makes, if it is drawn with `properties`.
pub open spec fn painted_element<B: Brush>(brushes: B, properties: VectorProperties, paint: PaintEditView) -> VectorView {
    match paint {
        PaintEditView::SelectBrush(id, definition, drawing_style) => VectorView::BrushDefinition(
            BrushDefinitionElement { id, definition, drawing_style },
        ),
        PaintEditView::BrushProperties(id, properties) => VectorView::BrushProperties(
            BrushPropertiesElement { id, properties },
        ),
        PaintEditView::BrushStroke(id, raw) => VectorView::BrushStroke(
            id,
            brushes.spec_brush_points(properties.brush, properties.drawing_style, raw),
        ),
    }
}

/// The element that an edit of a path makes.
pub open spec fn pathed_element(path: PathEditView) -> VectorView {
    match path {
        PathEditView::CreatePath(id, components) => VectorView::Path(id, components),
        PathEditView::SelectBrush(id, definition, drawing_style) => VectorView::BrushDefinition(
            BrushDefinitionElement { id, definition, drawing_style },
        ),
        PathEditView::BrushProperties(id, properties) => VectorView::BrushProperties(
            BrushPropertiesElement { id, properties },
        ),
    }
}

/// The key frames with an element added to the one that is the nearest at or
/// before `when`; unchanged if there is none.
pub open spec fn with_element_at(frames: Seq<KeyFrameView>, when: TimeMicros, element: spec_fn(VectorProperties) -> VectorView) -> Seq<
    KeyFrameView,
> {
    match nearest_frame(frames, when) {
        Some(i) => frames.update(i, frames[i].with_element(when, element(frames[i].active_properties))),
        None => frames,
    }
}

/// The key frames of a layer after an edit.
///
/// A key frame is added unless one starts at that time already, and removed if
/// one starts at that time. What is painted goes into the key frame that is the
/// nearest at or before its time. The name and the place of the layer among its
/// siblings are not kept here.
pub open spec fn apply_layer_edit<B: Brush>(brushes: B, frames: Seq<KeyFrameView>, edit: LayerEditView) -> Seq<
    KeyFrameView,
> {
    match edit {
        LayerEditView::AddKeyFrame(when) => match find_frame(frames, when) {
            Some(_) => frames,
            None => frames.push(KeyFrameView::empty(when)),
        },
        LayerEditView::RemoveKeyFrame(when) => match find_frame(frames, when) {
            Some(i) => frames.remove(i),
            None => frames,
        },
        LayerEditView::Paint(when, paint) => with_element_at(
            frames,
            when,
            |properties: VectorProperties| painted_element(brushes, properties, paint),
        ),
        LayerEditView::Path(when, path) => with_element_at(
            frames,
            when,
            |properties: VectorProperties| pathed_element(path),
        ),
        LayerEditView::SetName(_) => frames,
        LayerEditView::SetOrdering(_) => frames,
    }
}

/// The key frames of a layer after each of the edits in turn.
pub open spec fn apply_layer_edits<B: Brush>(brushes: B, frames: Seq<KeyFrameView>, edits: Seq<LayerEditView>) -> Seq<
    KeyFrameView,
>
    decreases edits.len(),
{
    if edits.len() == 0 {
        frames
    } else {
        apply_layer_edit(brushes, apply_layer_edits(brushes, frames, edits.drop_last()), edits.last())
    }
}

/// The views of a list of layer edits, one for one.
pub open spec fn layer_edits_view(edits: Seq<LayerEdit>) -> Seq<LayerEditView> {
    Seq::new(edits.len(), |i: int| edits[i]@)
}

/// Represents a vector layer. Vector layers support brush and vector objects.
pub struct VectorLayer {
    /// The id of this layer
    id: u64,
    /// The key frames of this layer
    key_frames: Vec<VectorKeyFrame>,
}

impl VectorLayer {
    /// The key frames of the layer as mathematical values.
    pub closed spec fn view(&self) -> Seq<KeyFrameView> {
        Seq::new(self.key_frames@.len(), |i: int| self.key_frames@[i]@)
    }

    /// The id of the layer.
    pub closed spec fn layer_id(&self) -> u64 {
        self.id
    }

    /// Cretes a new vector layer
    pub fn new(id: u64) -> (r: VectorLayer)
        ensures
            r.layer_id() == id,
            r@ == Seq::<KeyFrameView>::empty(),
    {
        let r = VectorLayer { id, key_frames: Vec::new() };
        proof {
            assert(r@ =~= Seq::<KeyFrameView>::empty());
        }
        r
    }

    /// Finds the key frame that starts at `when`.
    fn find_key_frame(&self, when: TimeMicros) -> (r: Option<usize>)
        ensures
            r matches Some(i) ==> i < self.key_frames@.len(),
            match r {
                Some(i) => find_frame(self@, when) == Some(i as int),
                None => find_frame(self@, when) is None,
            },
    {
        let mut found: Option<usize> = None;
        let mut i: usize = 0;
        while i < self.key_frames.len()
            invariant
                i <= self.key_frames@.len(),
                found matches Some(k) ==> k < i,
                match found {
                    Some(k) => find_frame(self@.take(i as int), when) == Some(k as int),
                    None => find_frame(self@.take(i as int), when) is None,
                },
            decreases self.key_frames.len() - i,
        {
            proof {
                assert(self@.take(i + 1).drop_last() =~= self@.take(i as int));
            }
            if self.key_frames[i].start_time() == when {
                found = Some(i);
            }
            i += 1;
        }
        proof {
            assert(self@.take(i as int) =~= self@);
        }
        found
    }

    /// Finds the key frame that is the nearest at or before `when`.
    pub fn find_nearest_keyframe(&self, when: TimeMicros) -> (r: Option<usize>)
        ensures
            r matches Some(i) ==> i < self@.len(),
            match r {
                Some(i) => nearest_frame(self@, when) == Some(i as int),
                None => nearest_frame(self@, when) is None,
            },
    {
        let mut best: Option<usize> = None;
        let mut i: usize = 0;
        while i < self.key_frames.len()
            invariant
                i <= self.key_frames@.len(),
                best matches Some(k) ==> k < i,
                match best {
                    Some(k) => nearest_frame(self@.take(i as int), when) == Some(k as int),
                    None => nearest_frame(self@.take(i as int), when) is None,
                },
            decreases self.key_frames.len() - i,
        {
            proof {
                assert(self@.take(i + 1).drop_last() =~= self@.take(i as int));
            }
            let start = self.key_frames[i].start_time();
            if start <= when {
                let better = match best {
                    Some(k) => self.key_frames[k].start_time() <= start,
                    None => true,
                };
                if better {
                    best = Some(i);
                }
            }
            i += 1;
        }
        proof {
            assert(self@.take(i as int) =~= self@);
        }
        best
    }

    /// The key frame at a position.
    pub fn key_frame(&self, i: usize) -> (r: &VectorKeyFrame)
        requires
            i < self@.len(),
        ensures
            r@ == self@[i as int],
    {
        &self.key_frames[i]
    }

    /// Adds an element to the key frame at a position.
    fn add_element(&mut self, i: usize, when: TimeMicros, element: Vector)
        requires
            i < old(self)@.len(),
        ensures
            final(self)@ == old(self)@.update(i as int, old(self)@[i as int].with_element(when, element@)),
            final(self).layer_id() == old(self).layer_id(),
    {
        let mut frame = self.key_frames.remove(i);
        frame.add_element(when, element);
        self.key_frames.insert(i, frame);
        proof {
            assert(self@ =~= old(self)@.update(i as int, old(self)@[i as int].with_element(when, element@)));
        }
    }

    /// Applies an edit to this layer
    pub fn apply_edit<B: Brush>(&mut self, brushes: &B, edit: &LayerEdit)
        ensures
            final(self)@ == apply_layer_edit(*brushes, old(self)@, edit@),
            final(self).layer_id() == old(self).layer_id(),
    {
        match edit {
            LayerEdit::AddKeyFrame(when) => {
                match self.find_key_frame(*when) {
                    Some(_) => {},
                    None => {
                        self.key_frames.push(VectorKeyFrame::new(*when));
                        proof {
                            assert(self@ =~= old(self)@.push(KeyFrameView::empty(*when)));
                        }
                    },
                }
            },
            LayerEdit::RemoveKeyFrame(when) => {
                match self.find_key_frame(*when) {
                    Some(i) => {
                        let _ = self.key_frames.remove(i);
                        proof {
                            assert(self@ =~= old(self)@.remove(i as int));
                        }
                    },
                    None => {},
                }
            },
            LayerEdit::Paint(when, paint) => {
                match self.find_nearest_keyframe(*when) {
                    Some(i) => {
                        let properties = self.key_frames[i].active_properties();
                        let element = match paint {
                            PaintEdit::SelectBrush(id, definition, drawing_style) => Vector::BrushDefinition(
                                BrushDefinitionElement {
                                    id: *id,
                                    definition: *definition,
                                    drawing_style: *drawing_style,
                                },
                            ),
                            PaintEdit::BrushProperties(id, properties) => Vector::BrushProperties(
                                BrushPropertiesElement { id: *id, properties: *properties },
                            ),
                            PaintEdit::BrushStroke(id, raw) => Vector::BrushStroke(
                                BrushElement::new(
                                    *id,
                                    brushes.brush_points_for_raw_points(
                                        &properties.brush,
                                        properties.drawing_style,
                                        raw,
                                    ),
                                ),
                            ),
                        };
                        self.add_element(i, *when, element);
                    },
                    None => {},
                }
            },
            LayerEdit::Path(when, path) => {
                match self.find_nearest_keyframe(*when) {
                    Some(i) => {
                        let element = match path {
                            PathEdit::CreatePath(id, components) => Vector::Path(
                                PathElement::new(*id, copy_rows(components)),
                            ),
                            PathEdit::SelectBrush(id, definition, drawing_style) => Vector::BrushDefinition(
                                BrushDefinitionElement {
                                    id: *id,
                                    definition: *definition,
                                    drawing_style: *drawing_style,
                                },
                            ),
                            PathEdit::BrushProperties(id, properties) => Vector::BrushProperties(
                                BrushPropertiesElement { id: *id, properties: *properties },
                            ),
                        };
                        self.add_element(i, *when, element);
                    },
                    None => {},
                }
            },
            LayerEdit::SetName(_) => {},
            LayerEdit::SetOrdering(_) => {},
        }
    }

    /// Applies new edits for this layer
    pub fn apply_new_edits<B: Brush>(&mut self, brushes: &B, edits: &Vec<LayerEdit>)
        ensures
            final(self)@ == apply_layer_edits(*brushes, old(self)@, layer_edits_view(edits@)),
            final(self).layer_id() == old(self).layer_id(),
    {
        let ghost all = layer_edits_view(edits@);
        let mut i: usize = 0;
        proof {
            assert(all.take(0) =~= Seq::empty());
        }
        while i < edits.len()
            invariant
                i <= edits@.len(),
                all == layer_edits_view(edits@),
                self@ == apply_layer_edits(*brushes, old(self)@, all.take(i as int)),
                self.layer_id() == old(self).layer_id(),
            decreases edits.len() - i,
        {
            proof {
                assert(all.take(i + 1).drop_last() =~= all.take(i as int));
                assert(all.take(i + 1).last() == edits@[i as int]@);
            }
            self.apply_edit(brushes, &edits[i]);
            i += 1;
        }
        proof {
            assert(all.take(i as int) =~= all);
        }
    }
}

impl Layer for VectorLayer {
    open spec fn spec_id(&self) -> u64 {
        self.layer_id()
    }

    open spec fn key_frames(&self) -> Seq<KeyFrameView> {
        self@
    }

    fn id(&self) -> (id: u64) {
        self.id
    }

    fn get_frame_at_time(&self, time_index: TimeMicros) -> (frame: Option<&VectorKeyFrame>) {
        match self.find_nearest_keyframe(time_index) {
            Some(i) => Some(&self.key_frames[i]),
            None => None,
        }
    }
}

} // verus!
