//! Transcript review engine: an ordered document of time-stamped clips, a
//! modal editor over it with undo and redo, the stitching of independently
//! transcribed audio windows into one timeline, and a boundary-correction
//! heuristic that learns from manual corrections.
//!
//! All times are whole milliseconds.

pub mod app;
pub mod autofix;
pub mod cache;
pub mod clip;
pub mod command;
pub mod editor;
pub mod effects;
pub mod error;
pub mod gcp;
pub mod history;
pub mod ingest;
pub mod keys;
pub mod layout;
pub mod sox;
pub mod stats;
pub mod stitch;
pub mod store;
pub mod text;
pub mod vim;
