//! Digital rain: the simulation behind a terminal animation of falling glyph trails.
pub mod glyph;
pub mod stream;
pub mod frame;
pub mod engine;
