//! Values shared by every part of the game.

pub mod calibrations;
pub mod random;
