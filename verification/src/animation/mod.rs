//! The vocabulary of an animation: element ids, brushes, paths, motions and edits.
//!
//! Coordinates, widths, pressures and colour components are carried as IEEE-754
//! bit patterns (`Bits32`, `Bits64`): the store never computes with them, it only
//! keeps them and hands them back unchanged.

pub mod brush;
pub mod brushes;
pub mod cache_type;
pub mod edit;
pub mod element_id;
pub mod inmemory;
pub mod layer;
pub mod motion;
pub mod onion_skin;
pub mod outline;
pub mod path;
pub mod segments;
pub mod vector;
pub mod vector_type;
