//! What is kept of control sources and presets between sessions.

pub mod preset;
pub mod source;
