//! Rules core of a single-screen arcade game: disks that chase, absorb and
//! kill each other inside a square arena.
//!
//! The crate holds the frame-driven state machine, the collision
//! arbitration, the score and difficulty progression and the input decoding.
//! Positions and sizes are real-valued and live with the host; the host
//! reports which bodies touch and performs the drawing and sound that the
//! functions here hand back as plain values.

pub mod common;
pub mod console;
pub mod entities;
pub mod game;
pub mod graphics;
pub mod sound;
