//! The sound effects of the game, as requests to the tone generator.
//!
//! A request has four words. The frequency word holds the pitch at which
//! the tone starts and the pitch to which it glides. The duration word holds
//! the lengths, in frames, of the four phases of the envelope. The volume
//! word holds the volume that is sustained and the peak. The flags word holds
//! the channel and its mode.

use vstd::prelude::*;
use crate::console::{
    TONE_MODE1, TONE_MODE3, TONE_NOISE, TONE_PULSE1, TONE_PULSE2, TONE_TRIANGLE,
};

verus! {

/// One request to the tone generator.
#[derive(Clone, Copy, Debug, PartialEq, Eq, Structural)]
pub struct Tone {
    pub frequency: u32,
    pub duration: u32,
    pub volume: u32,
    pub flags: u32,
}

/// The frequency word of a tone that glides from `from` to `to`; a tone
/// that keeps its pitch has `to` zero.
pub open spec fn glide(from: u32, to: u32) -> u32 {
    (from + to * 0x1_0000) as u32
}

/// The duration word of an envelope, each phase in frames.
pub open spec fn envelope(sustain: u32, release: u32, decay: u32, attack: u32) -> u32 {
    (sustain + release * 0x100 + decay * 0x1_0000 + attack * 0x100_0000) as u32
}

/// The volume word: the volume that is sustained, and the peak.
pub open spec fn loudness(sustain: u32, peak: u32) -> u32 {
    (sustain + peak * 0x100) as u32
}

/// A bomb has exploded: a pulse that drops from 380 Hz to 10 Hz.
pub open spec fn spec_bomb_explode() -> Tone {
    Tone {
        frequency: glide(380, 10),
        duration: envelope(10, 0, 10, 0),
        volume: loudness(10, 0),
        flags: (TONE_PULSE1 + TONE_MODE3) as u32,
    }
}

/// The sound of an exploding bomb.
#[verifier::when_used_as_spec(spec_bomb_explode)]
pub fn bomb_explode() -> (tone: Tone)
    ensures
        tone == spec_bomb_explode(),
{
    Tone {
        frequency: 380 + 10 * 0x1_0000,
        duration: 10 + 10 * 0x1_0000,
        volume: 10,
        flags: TONE_PULSE1 + TONE_MODE3,
    }
}

/// A player has died: noise that sinks from 140 Hz to 110 Hz.
pub open spec fn spec_death() -> Tone {
    Tone {
        frequency: glide(140, 110),
        duration: envelope(3, 0, 6, 0),
        volume: loudness(60, 0),
        flags: (TONE_NOISE + TONE_MODE3) as u32,
    }
}

/// The sound of a player's death.
#[verifier::when_used_as_spec(spec_death)]
pub fn death() -> (tone: Tone)
    ensures
        tone == spec_death(),
{
    Tone {
        frequency: 140 + 110 * 0x1_0000,
        duration: 3 + 6 * 0x1_0000,
        volume: 60,
        flags: TONE_NOISE + TONE_MODE3,
    }
}

/// An extra life was granted: a pulse that rises to 6000 Hz.
pub open spec fn spec_extra_life() -> Tone {
    Tone {
        frequency: glide(0, 6000),
        duration: envelope(1, 3, 8, 3),
        volume: loudness(100, 100),
        flags: (TONE_PULSE1 + TONE_MODE1) as u32,
    }
}

/// The sound of an extra life.
#[verifier::when_used_as_spec(spec_extra_life)]
pub fn extra_life() -> (tone: Tone)
    ensures
        tone == spec_extra_life(),
{
    Tone {
        frequency: 6000 * 0x1_0000,
        duration: 1 + 3 * 0x100 + 8 * 0x1_0000 + 3 * 0x100_0000,
        volume: 100 + 100 * 0x100,
        flags: TONE_PULSE1 + TONE_MODE1,
    }
}

/// A player has joined: a pulse that rises from 400 Hz to 1000 Hz.
pub open spec fn spec_new_player() -> Tone {
    Tone {
        frequency: glide(400, 1000),
        duration: envelope(10, 0, 0, 0),
        volume: loudness(100, 0),
        flags: (TONE_PULSE2 + TONE_MODE1) as u32,
    }
}

/// The sound of a player who joins.
#[verifier::when_used_as_spec(spec_new_player)]
pub fn new_player() -> (tone: Tone)
    ensures
        tone == spec_new_player(),
{
    Tone {
        frequency: 400 + 1000 * 0x1_0000,
        duration: 10,
        volume: 100,
        flags: TONE_PULSE2 + TONE_MODE1,
    }
}

/// A switch to the first colour: a short triangle at 340 Hz.
pub open spec fn spec_color1_switch() -> Tone {
    Tone {
        frequency: glide(340, 0),
        duration: envelope(1, 3, 8, 0),
        volume: loudness(0, 24),
        flags: (TONE_TRIANGLE + TONE_MODE1) as u32,
    }
}

/// The sound of a switch to the first colour.
#[verifier::when_used_as_spec(spec_color1_switch)]
pub fn color1_switch() -> (tone: Tone)
    ensures
        tone == spec_color1_switch(),
{
    Tone {
        frequency: 340,
        duration: 1 + 3 * 0x100 + 8 * 0x1_0000,
        volume: 24 * 0x100,
        flags: TONE_TRIANGLE + TONE_MODE1,
    }
}

/// A switch to the second colour: a short triangle at 360 Hz.
pub open spec fn spec_color2_switch() -> Tone {
    Tone {
        frequency: glide(360, 0),
        duration: envelope(1, 3, 8, 3),
        volume: loudness(0, 24),
        flags: (TONE_TRIANGLE + TONE_MODE1) as u32,
    }
}

/// The sound of a switch to the second colour.
#[verifier::when_used_as_spec(spec_color2_switch)]
pub fn color2_switch() -> (tone: Tone)
    ensures
        tone == spec_color2_switch(),
{
    Tone {
        frequency: 360,
        duration: 1 + 3 * 0x100 + 8 * 0x1_0000 + 3 * 0x100_0000,
        volume: 24 * 0x100,
        flags: TONE_TRIANGLE + TONE_MODE1,
    }
}

} // verus!
