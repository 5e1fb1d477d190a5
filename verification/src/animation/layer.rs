use vstd::prelude::*;
use crate::animation::brush::TimeMicros;
use crate::animation::inmemory::vector_keyframe::{KeyFrameView, VectorKeyFrame};
use crate::animation::inmemory::vector_layer::nearest_frame;

verus! {

/// A layer represents a renderable plane in an animation
pub trait Layer {
    /// The id of the layer.
    spec fn spec_id(&self) -> u64;

    /// The key frames of the layer.
    spec fn key_frames(&self) -> Seq<KeyFrameView>;

    /// The ID associated with this layer
    fn id(&self) -> (id: u64)
        ensures
            id == self.spec_id(),
    ;

    /// Retrieves the key frame that a time falls into: the nearest at or before
    /// that time, if there is one
    fn get_frame_at_time(&self, time_index: TimeMicros) -> (frame: Option<&VectorKeyFrame>)
        ensures
            match frame {
                Some(key_frame) => nearest_frame(self.key_frames(), time_index) matches Some(i)
                    && key_frame@ == self.key_frames()[i],
                None => nearest_frame(self.key_frames(), time_index) is None,
            },
    ;
}

} // verus!
