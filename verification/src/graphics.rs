//! What the host is asked to paint, as plain values.

pub mod draw_utils;
pub mod palette;
pub mod screen;
