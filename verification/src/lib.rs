//! A transactional store for vector animations.
//!
//! An animation is recorded as an append-only log of edits and materialised into
//! layers, key frames and vector elements. Every change reaches the store as a
//! sequence of small stack instructions, and every function of the crate carries
//! a contract that Verus proves.

pub mod animation;
pub mod db;
pub mod laws;
