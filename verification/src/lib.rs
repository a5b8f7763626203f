//! Core of a minimal terminal text editor: an in-memory line buffer, a cursor,
//! and a scrolling viewport. Every editing operation is verified to keep the
//! document non-empty and the cursor at a valid position.

pub mod editor;
pub mod laws;
pub mod model;
