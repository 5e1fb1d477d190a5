//! An animation held in memory, without a store: layers of key frames.

pub mod vector_keyframe;
pub mod vector_layer;
