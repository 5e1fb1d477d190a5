//! What holds of the store and the core as a whole, proved from the contracts
//! of their parts.

pub mod atomic;
pub mod attachments;
pub mod cache;
pub mod clean;
pub mod detach;
pub mod first_stroke;
pub mod frame;
pub mod ids;
pub mod replay;
pub mod round_trip;
pub mod selection;
pub mod sound;
pub mod sound_edits;
pub mod strokes;
pub mod symbolic;
pub mod tokens;
pub mod writer;
pub mod written;
