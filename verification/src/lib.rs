//! Typing practice: the judgment engine, the frame it is painted from, and the
//! session's reaction to each event.

pub mod clock;
pub mod engine;
pub mod glyph;
pub mod ipsum;
pub mod laws;
pub mod paint;
pub mod render;
pub mod session;
pub mod source;
pub mod text;
