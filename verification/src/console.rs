//! Constants of the console that the game runs on: its screen, its input
//! registers and the flags of its tone generator.

use vstd::prelude::*;

verus! {

/// Width and height of the screen, and so of the arena, in pixels.
pub const SCREEN_SIZE: u32 = 160;

/// The first button of a gamepad.
pub const BUTTON_1: u8 = 1;

/// The second button of a gamepad.
pub const BUTTON_2: u8 = 2;

/// The left direction of a gamepad.
pub const BUTTON_LEFT: u8 = 16;

/// The right direction of a gamepad.
pub const BUTTON_RIGHT: u8 = 32;

/// The up direction of a gamepad.
pub const BUTTON_UP: u8 = 64;

/// The down direction of a gamepad.
pub const BUTTON_DOWN: u8 = 128;

/// The left button of the mouse.
pub const MOUSE_LEFT: u8 = 1;

/// The right button of the mouse.
pub const MOUSE_RIGHT: u8 = 2;

/// The middle button of the mouse.
pub const MOUSE_MIDDLE: u8 = 4;

/// The first pulse channel.
pub const TONE_PULSE1: u32 = 0;

/// The second pulse channel.
pub const TONE_PULSE2: u32 = 1;

/// The triangle channel.
pub const TONE_TRIANGLE: u32 = 2;

/// The noise channel.
pub const TONE_NOISE: u32 = 3;

/// A pulse of one eighth duty.
pub const TONE_MODE1: u32 = 0;

/// A pulse of one quarter duty.
pub const TONE_MODE2: u32 = 4;

/// A pulse of one half duty.
pub const TONE_MODE3: u32 = 8;

/// A pulse of three quarters duty.
pub const TONE_MODE4: u32 = 12;

/// The tone comes from the left only.
pub const TONE_PAN_LEFT: u32 = 16;

/// The tone comes from the right only.
pub const TONE_PAN_RIGHT: u32 = 32;

} // verus!
