//! What the host is asked to play, as plain values.

pub mod effects;
pub mod music;
pub mod notes;
pub mod voices;
