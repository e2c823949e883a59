//! Colour registers and the selectable palettes.

use vstd::prelude::*;

verus! {

/// Draw colour of the first faction.
pub const DRAW_COLOR_A: u16 = 0x32;

/// Draw colour of the second faction.
pub const DRAW_COLOR_B: u16 = 0x34;

/// Draw colour of bombs, which belong to no faction.
pub const DRAW_COLOR_BOMB: u16 = 0x30;

/// Draw colour of the dots that mark a player's number.
pub const DRAW_COLOR_PLAIN: u16 = 0x33;

/// Number of selectable palettes.
pub const PALETTE_COUNT: usize = 10;

/// The four colours of each palette.
pub const PALETTES: [[u32; 4]; 10] = [
    [0x120136, 0x035AA6, 0x40BAD5, 0xFCBF1E],
    [0x100720, 0x31087B, 0xFA2FB5, 0xFFC23C],
    [0xfff6d3, 0xf9a875, 0xeb6b6f, 0x7c3f58],
    [0x332c50, 0x46878f, 0x94e344, 0xe2f3e4],
    [0x7e1f23, 0xc4181f, 0x120a19, 0x5e4069],
    [0x051f39, 0x4a2480, 0xc53a9d, 0xff8e80],
    [0x06160f, 0x535b4e, 0xb0b3a6, 0xefeee8],
    [0x001E6C, 0x035397, 0xE8630A, 0xFCD900],
    [0x06113C, 0xFF8C32, 0xDDDDDD, 0xEEEEEE],
    [0x12000A, 0x3B9E0C, 0x0A7E48, 0x9E0C50],
];

/// One-bit sprite of the heart that stands for a remaining life.
pub const HEART: [u8; 8] = [
    0b00000000,
    0b00110110,
    0b01110111,
    0b01111111,
    0b01111111,
    0b00111110,
    0b00011100,
    0b00001000,
];

/// The colours of palette `palette_n`, for the host to load.
pub fn set_palette_n(palette_n: usize) -> (colors: [u32; 4])
    requires
        palette_n < PALETTE_COUNT,
    ensures
        colors == PALETTES[palette_n as int],
{
    PALETTES[palette_n]
}

} // verus!
