//! The pitches of the notes, in Hz, in equal temperament.

use vstd::prelude::*;

verus! {

/// No note: the voice is silent.
pub const XX: u16 = 0;

/// The note G of octave 1.
pub const G1: u16 = 49;

/// The note G of octave 2.
pub const G2: u16 = 98;

/// The note A of octave 2.
pub const A2: u16 = 110;

/// The note C of octave 3.
pub const C3: u16 = 131;

/// The note D of octave 3.
pub const D3: u16 = 147;

/// The note E of octave 3.
pub const E3: u16 = 165;

/// The note G of octave 3.
pub const G3: u16 = 196;

/// The note A of octave 3.
pub const A3: u16 = 220;

/// The note B of octave 3.
pub const B3: u16 = 247;

/// The note C of octave 4.
pub const C4: u16 = 262;

/// The note C sharp of octave 4.
pub const CS4: u16 = 277;

/// The note D of octave 4.
pub const D4: u16 = 294;

/// The note E of octave 4.
pub const E4: u16 = 330;

/// The note G of octave 4.
pub const G4: u16 = 392;

/// The note G sharp of octave 4.
pub const GS4: u16 = 415;

/// The note A of octave 4.
pub const A4: u16 = 440;

/// The note B of octave 4.
pub const B4: u16 = 494;

/// The note C of octave 5.
pub const C5: u16 = 523;

/// The note D of octave 5.
pub const D5: u16 = 587;

/// The note E of octave 5.
pub const E5: u16 = 659;

} // verus!
