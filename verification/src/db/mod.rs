//! The store itself: its catalogue of persisted tags, its instruction set and
//! the core that applies edits.

pub mod animation_core;
pub mod batch;
pub mod brush;
pub mod db_enum;
pub mod db_enum_name;
pub mod edit_sink;
pub mod edit_stream;
pub mod engine;
pub mod engine_element;
pub mod engine_layer;
pub mod engine_run;
pub mod error;
pub mod flo_file;
pub mod flo_memory;
pub mod flo_query;
pub mod flo_store;
pub mod insert_editlog;
pub mod layer_cache;
pub mod matchers;
pub mod motion;
pub mod motion_path_type;
pub mod perform_edit;
pub mod points;
pub mod record;
pub mod relation;
pub mod rows;
pub mod step;
pub mod tables;
pub mod vector_frame;
