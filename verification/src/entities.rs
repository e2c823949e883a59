//! Players, enemies and bombs, and the manager that owns them.
//!
//! An entity here is what the rules read of it: its colour and its
//! remaining life. Where it is and how large it is stay with the host.

pub mod bomb;
pub mod contacts;
pub mod enemy;
pub mod entity;
pub mod manager;
pub mod player;
pub mod population;
