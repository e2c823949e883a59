//! The voices of the songs: sixteen bars of four notes each.

use vstd::prelude::*;
use crate::sound::notes::{
    A2, A3, A4, B3, B4, C3, C4, C5, CS4, D3, D4, D5, E3, E4, E5, G1, G2, G3, G4, GS4, XX,
};

verus! {

/// The first pulse of the song of a finished game.
pub const GAME_THEME: [u16; 64] = [
    // Bar 1
    G4, XX, XX, XX,
    // Bar 2
    D5, XX, E5, XX,
    // Bar 3
    D5, XX, E5, XX,
    // Bar 4
    D5, XX, XX, XX,
    // Bar 5
    G4, XX, XX, XX,
    // Bar 6
    D5, XX, E5, XX,
    // Bar 7
    XX, XX, XX, XX,
    // Bar 8
    XX, XX, XX, XX,
    // Bar 9
    G4, XX, XX, XX,
    // Bar 10
    D5, XX, E5, XX,
    // Bar 11
    D5, XX, E5, XX,
    // Bar 12
    D5, XX, XX, XX,
    // Bar 13
    D3, XX, XX, XX,
    // Bar 14
    G4, XX, XX, XX,
    // Bar 15
    XX, XX, XX, XX,
    // Bar 16
    XX, XX, XX, XX,
];

/// The triangle of the song of a finished game.
pub const BEATS0_1: [u16; 64] = [
    // Bar 1
    G3, XX, G3, XX,
    // Bar 2
    G3, XX, G3, XX,
    // Bar 3
    G3, XX, G3, XX,
    // Bar 4
    G3, XX, G3, XX,
    // Bar 5
    G3, XX, G3, XX,
    // Bar 6
    G3, XX, G3, XX,
    // Bar 7
    G3, XX, G3, XX,
    // Bar 8
    G3, XX, G3, XX,
    // Bar 9
    G3, XX, G3, XX,
    // Bar 10
    G3, XX, G3, XX,
    // Bar 11
    G3, XX, G3, XX,
    // Bar 12
    G3, XX, G3, XX,
    // Bar 13
    G3, XX, G3, XX,
    // Bar 14
    G3, XX, G3, XX,
    // Bar 15
    G3, XX, G3, XX,
    // Bar 16
    G3, XX, G3, XX,
];

/// The second pulse of the song of a finished game.
pub const BEATS0_2: [u16; 64] = [
    // Bar 1
    XX, XX, G1, XX,
    // Bar 2
    XX, XX, G1, XX,
    // Bar 3
    XX, XX, G1, XX,
    // Bar 4
    XX, XX, G1, XX,
    // Bar 5
    G1, XX, XX, XX,
    // Bar 6
    XX, XX, G1, XX,
    // Bar 7
    XX, XX, G1, XX,
    // Bar 8
    XX, XX, XX, XX,
    // Bar 9
    XX, XX, G1, XX,
    // Bar 10
    XX, XX, G1, XX,
    // Bar 11
    XX, XX, G1, XX,
    // Bar 12
    XX, XX, G1, XX,
    // Bar 13
    G1, XX, XX, XX,
    // Bar 14
    XX, XX, G1, XX,
    // Bar 15
    XX, XX, G1, XX,
    // Bar 16
    XX, XX, XX, XX,
];

/// The first pulse of the second song of the game.
pub const T_0_0: [u16; 64] = [
    // Bar 1
    D3, XX, XX, XX,
    // Bar 2
    XX, XX, D3, XX,
    // Bar 3
    XX, XX, D3, XX,
    // Bar 4
    XX, XX, XX, XX,
    // Bar 5
    D3, XX, XX, XX,
    // Bar 6
    XX, XX, D3, XX,
    // Bar 7
    XX, XX, D3, XX,
    // Bar 8
    XX, XX, XX, XX,
    // Bar 9
    D3, XX, XX, XX,
    // Bar 10
    XX, XX, D3, XX,
    // Bar 11
    XX, XX, D3, XX,
    // Bar 12
    XX, XX, XX, XX,
    // Bar 13
    D3, XX, XX, XX,
    // Bar 14
    XX, XX, D3, XX,
    // Bar 15
    XX, XX, D3, XX,
    // Bar 16
    XX, XX, XX, XX,
];

/// The first pulse of the later songs of the game.
pub const T_0_1: [u16; 64] = [
    // Bar 1
    D3, XX, XX, XX,
    // Bar 2
    E3, XX, D3, XX,
    // Bar 3
    XX, XX, D3, XX,
    // Bar 4
    E3, XX, XX, XX,
    // Bar 5
    D3, XX, XX, XX,
    // Bar 6
    E3, XX, D3, XX,
    // Bar 7
    XX, XX, D3, XX,
    // Bar 8
    E3, XX, XX, XX,
    // Bar 9
    D3, XX, XX, XX,
    // Bar 10
    E3, XX, D3, XX,
    // Bar 11
    XX, XX, D3, XX,
    // Bar 12
    E3, XX, XX, XX,
    // Bar 13
    D3, XX, XX, XX,
    // Bar 14
    E3, XX, D3, XX,
    // Bar 15
    XX, XX, D3, XX,
    // Bar 16
    E3, XX, XX, XX,
];

/// The triangle of every song of the game.
pub const T_2_0: [u16; 64] = [
    // Bar 1
    XX, XX, XX, XX,
    // Bar 2
    G2, XX, A3, XX,
    // Bar 2
    G2, XX, A3, XX,
    // Bar 2
    G2, XX, XX, XX,
    // Bar 3
    G2, XX, A3, XX,
    // Bar 6
    G2, XX, A3, XX,
    // Bar 7
    G2, XX, XX, XX,
    // Bar 8
    G2, XX, XX, XX,
    // Bar 9
    XX, XX, XX, XX,
    // Bar 10
    G2, XX, A3, XX,
    // Bar 11
    G2, XX, A3, XX,
    // Bar 12
    G2, XX, XX, XX,
    // Bar 12
    G2, XX, A3, XX,
    // Bar 12
    G2, XX, A3, XX,
    // Bar 13
    G2, XX, XX, XX,
    // Bar 16
    G2, XX, XX, XX,
];

/// The second pulse of the last song of the game.
pub const T_1_0: [u16; 64] = [
    // Bar 1
    XX, XX, XX, XX,
    // Bar 2
    E4, XX, D4, XX,
    // Bar 3
    CS4, XX, D4, XX,
    // Bar 4
    E4, XX, GS4, XX,
    // Bar 5
    XX, XX, E4, XX,
    // Bar 6
    A4, XX, XX, XX,
    // Bar 7
    G4, XX, A4, XX,
    // Bar 8
    E4, XX, XX, XX,
    // Bar 9
    G3, XX, D4, XX,
    // Bar 10
    A4, XX, E4, XX,
    // Bar 11
    XX, XX, E3, XX,
    // Bar 12
    XX, XX, XX, XX,
    // Bar 13
    D3, XX, D3, XX,
    // Bar 14
    E3, XX, D3, XX,
    // Bar 15
    E3, XX, E3, XX,
    // Bar 16
    XX, XX, XX, XX,
];

/// The noise of the last two songs of the game.
pub const T_3_0: [u16; 64] = [
    // Bar 1
    XX, XX, XX, XX,
    // Bar 2
    A4, XX, XX, XX,
    // Bar 3
    XX, XX, XX, XX,
    // Bar 4
    A4, XX, XX, XX,
    // Bar 5
    XX, XX, XX, XX,
    // Bar 6
    A4, XX, XX, XX,
    // Bar 7
    XX, XX, XX, XX,
    // Bar 8
    A4, XX, XX, XX,
    // Bar 9
    XX, XX, XX, XX,
    // Bar 10
    A4, XX, XX, XX,
    // Bar 11
    XX, XX, XX, XX,
    // Bar 12
    A4, XX, XX, XX,
    // Bar 13
    XX, XX, XX, XX,
    // Bar 14
    A4, XX, XX, XX,
    // Bar 15
    XX, XX, XX, XX,
    // Bar 16
    A4, XX, XX, XX,
];

/// The second pulse of the fourth song of the game.
pub const T_1_2: [u16; 64] = [
    // Bar 1
    A3, XX, A3, XX,
    // Bar 2
    A3, XX, A3, XX,
    // Bar 3
    A3, XX, A3, XX,
    // Bar 4
    B3, XX, B3, XX,
    // Bar 5
    C4, XX, C4, XX,
    // Bar 6
    C4, XX, C4, XX,
    // Bar 7
    C4, XX, C4, XX,
    // Bar 8
    C4, XX, C4, XX,
    // Bar 9
    C4, XX, C4, XX,
    // Bar 10
    C4, XX, C4, XX,
    // Bar 11
    C4, XX, C4, XX,
    // Bar 12
    B3, XX, B3, XX,
    // Bar 13
    A3, XX, A3, XX,
    // Bar 14
    A3, XX, A3, XX,
    // Bar 15
    A3, XX, A3, XX,
    // Bar 16
    A3, XX, A3, XX,
];

/// The second pulse of the fifth and sixth song of the game.
pub const T_1_2B: [u16; 64] = [
    // Bar 1
    A4, XX, A4, XX,
    // Bar 2
    A4, XX, A4, XX,
    // Bar 3
    A4, XX, A4, XX,
    // Bar 4
    B4, XX, B4, XX,
    // Bar 5
    C5, XX, C5, XX,
    // Bar 6
    C5, XX, C5, XX,
    // Bar 7
    C5, XX, C5, XX,
    // Bar 8
    C5, XX, C5, XX,
    // Bar 9
    C5, XX, C5, XX,
    // Bar 10
    C5, XX, C5, XX,
    // Bar 11
    C5, XX, C5, XX,
    // Bar 12
    B4, XX, B4, XX,
    // Bar 13
    A4, XX, A4, XX,
    // Bar 14
    A4, XX, A4, XX,
    // Bar 15
    A4, XX, A4, XX,
    // Bar 16
    A4, XX, A4, XX,
];

/// The first pulse of the introduction.
pub const T_2_2: [u16; 64] = [
    // Bar 1
    G2, XX, G2, XX,
    // Bar 2
    XX, XX, A2, XX,
    // Bar 3
    XX, XX, G2, XX,
    // Bar 4
    A2, XX, XX, XX,
    // Bar 5
    D3, XX, XX, XX,
    // Bar 6
    D3, XX, E3, XX,
    // Bar 7
    D3, XX, C3, XX,
    // Bar 8
    A2, XX, C3, XX,
    // Bar 9
    A3, XX, G3, XX,
    // Bar 10
    XX, XX, E3, XX,
    // Bar 11
    XX, XX, D3, XX,
    // Bar 12
    D3, XX, C3, XX,
    // Bar 13
    XX, XX, A2, XX,
    // Bar 14
    G3, XX, A2, XX,
    // Bar 15
    G3, XX, A2, XX,
    // Bar 16
    A2, XX, XX, XX,
];

/// The noise of the introduction.
pub const T_3_0B: [u16; 64] = [
    // Bar 1
    XX, XX, XX, XX,
    // Bar 2
    G3, XX, XX, XX,
    // Bar 3
    XX, XX, XX, XX,
    // Bar 4
    G3, XX, XX, XX,
    // Bar 5
    XX, XX, XX, XX,
    // Bar 6
    G3, XX, XX, XX,
    // Bar 7
    XX, XX, XX, XX,
    // Bar 8
    G3, XX, XX, XX,
    // Bar 9
    XX, XX, XX, XX,
    // Bar 10
    G3, XX, XX, XX,
    // Bar 11
    XX, XX, XX, XX,
    // Bar 12
    G3, XX, XX, XX,
    // Bar 13
    XX, XX, XX, XX,
    // Bar 14
    G3, XX, XX, XX,
    // Bar 15
    XX, XX, XX, XX,
    // Bar 16
    G3, XX, XX, XX,
];

} // verus!
