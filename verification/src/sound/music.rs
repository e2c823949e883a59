//! The music: nine songs of up to four voices each, played note by note.
//!
//! A song has up to four tracks, one for each channel of the tone
//! generator. A track is a voice, that is a sequence of notes, with the
//! duration, the volume and the flags that all its notes are played with.
//! Every voice has exactly 64 notes and starts over after the last.

use vstd::prelude::*;
use crate::console::{
    TONE_MODE1, TONE_MODE3, TONE_MODE4, TONE_NOISE, TONE_PAN_LEFT, TONE_PAN_RIGHT, TONE_PULSE1,
    TONE_PULSE2, TONE_TRIANGLE,
};
use crate::sound::effects::{loudness, Tone};
use crate::sound::notes::XX;
use crate::sound::voices::{
    BEATS0_1, BEATS0_2, GAME_THEME, T_0_0, T_0_1, T_1_0, T_1_2, T_1_2B, T_2_0, T_2_2, T_3_0,
    T_3_0B,
};

verus! {

/// Notes in each voice of a song; a song repeats after so many notes.
pub const VOICE_NOTES: usize = 64;

/// Number of songs.
pub const SONG_COUNT: u8 = 9;

/// The song of the title screen and of the instructions.
pub const INTRO_SONG: u8 = 0;

/// The first of the songs of a running game, one for each stretch of
/// difficulty levels.
pub const GAME_SONG_START: u8 = 1;

/// The song of a finished game.
pub const GAME_OVER_SONG: u8 = 8;

/// A voice with what all its notes are played with.
#[derive(Clone, Copy, Debug, PartialEq, Eq)]
pub struct Track {
    pub voice: [u16; 64],
    pub duration: u32,
    pub volume: u32,
    pub flags: u32,
}

/// The song that goes with a difficulty level.
pub open spec fn song_of(difficulty: u32) -> u8 {
    if difficulty <= 1 {
        GAME_SONG_START
    } else if difficulty <= 6 {
        (GAME_SONG_START + difficulty - 1) as u8
    } else {
        (GAME_SONG_START + 6) as u8
    }
}

/// The song that goes with a difficulty level.
pub fn song_for(difficulty: u32) -> (song_nr: u8)
    ensures
        song_nr == song_of(difficulty),
        song_nr < SONG_COUNT,
{
    if difficulty <= 1 {
        GAME_SONG_START
    } else if difficulty == 2 {
        GAME_SONG_START + 1
    } else if difficulty == 3 {
        GAME_SONG_START + 2
    } else if difficulty == 4 {
        GAME_SONG_START + 3
    } else if difficulty == 5 {
        GAME_SONG_START + 4
    } else if difficulty == 6 {
        GAME_SONG_START + 5
    } else {
        GAME_SONG_START + 6
    }
}

/// A track on a pulse channel of the game: its volume swells to a peak.
pub open spec fn swelling(voice: [u16; 64], duration: u32, volume: u32, flags: u32) -> Option<
    Track,
> {
    Some(Track { voice, duration, volume: loudness(volume, 10), flags })
}

/// The tracks of song `song_nr`, in the order of the channels: first and
/// second pulse, triangle, noise.
pub open spec fn tracks(song_nr: u8) -> Seq<Option<Track>> {
    let bass = swelling(T_2_0, 10, 60, (TONE_TRIANGLE + TONE_MODE1) as u32);
    let pulse = (TONE_PULSE1 + TONE_MODE1) as u32;
    let second = (TONE_PULSE2 + TONE_MODE1) as u32;
    let noise = (TONE_NOISE + TONE_MODE3) as u32;
    let drums = |volume: u32| Some(Track { voice: T_3_0, duration: 0x1001, volume, flags: noise });
    if song_nr == 0 {
        seq![
            swelling(T_2_2, 8, 60, pulse),
            None,
            None,
            Some(Track { voice: T_3_0B, duration: 0xa01, volume: 40, flags: noise }),
        ]
    } else if song_nr == 1 {
        seq![None, None, bass, None]
    } else if song_nr == 2 {
        seq![swelling(T_0_0, 8, 20, pulse), None, bass, None]
    } else if song_nr == 3 {
        seq![swelling(T_0_1, 8, 20, pulse), None, bass, None]
    } else if song_nr == 4 {
        seq![swelling(T_0_1, 8, 30, pulse), swelling(T_1_2, 2, 30, second), bass, None]
    } else if song_nr == 5 {
        seq![swelling(T_0_1, 8, 30, pulse), swelling(T_1_2B, 2, 30, second), bass, None]
    } else if song_nr == 6 {
        seq![swelling(T_0_1, 8, 40, pulse), swelling(T_1_2B, 2, 30, second), bass, drums(40)]
    } else if song_nr == 7 {
        seq![
            swelling(T_0_1, 8, 60, pulse),
            Some(Track { voice: T_1_0, duration: 10, volume: 70, flags: second }),
            bass,
            drums(60),
        ]
    } else {
        seq![
            Some(
                Track {
                    voice: GAME_THEME,
                    duration: 10,
                    volume: 40,
                    flags: (TONE_PULSE1 + TONE_MODE4) as u32,
                },
            ),
            Some(
                Track {
                    voice: BEATS0_1,
                    duration: 3,
                    volume: 50,
                    flags: (TONE_TRIANGLE + TONE_PAN_LEFT) as u32,
                },
            ),
            Some(
                Track {
                    voice: BEATS0_2,
                    duration: 2,
                    volume: 80,
                    flags: (TONE_PULSE2 + TONE_PAN_RIGHT) as u32,
                },
            ),
            None,
        ]
    }
}

/// The tone of a track at position `counter`, unless the voice is silent
/// there.
pub open spec fn voice_tone(counter: usize, track: Option<Track>) -> Seq<Tone> {
    match track {
        Some(track) => if track.voice[(counter % VOICE_NOTES) as int] != XX {
            seq![
                Tone {
                    frequency: track.voice[(counter % VOICE_NOTES) as int] as u32,
                    duration: track.duration,
                    volume: track.volume,
                    flags: track.flags,
                },
            ]
        } else {
            Seq::empty()
        },
        None => Seq::empty(),
    }
}

/// The tones of song `song_nr` at position `counter`, in the order of the
/// channels.
pub open spec fn song_tones(counter: usize, song_nr: u8) -> Seq<Tone> {
    voice_tone(counter, tracks(song_nr)[0]) + voice_tone(counter, tracks(song_nr)[1]) + voice_tone(
        counter,
        tracks(song_nr)[2],
    ) + voice_tone(counter, tracks(song_nr)[3])
}

/// A track whose volume swells to a peak of ten.
fn swell(voice: [u16; 64], duration: u32, volume: u32, flags: u32) -> (track: Option<Track>)
    requires
        volume < 256,
    ensures
        track == swelling(voice, duration, volume, flags),
{
    Some(Track { voice, duration, volume: volume + 10 * 0x100, flags })
}

/// The tracks of song `song_nr`.
pub fn song(song_nr: u8) -> (song: [Option<Track>; 4])
    requires
        song_nr < SONG_COUNT,
    ensures
        song@ == tracks(song_nr),
{
    let pulse = TONE_PULSE1 + TONE_MODE1;
    let second = TONE_PULSE2 + TONE_MODE1;
    let noise = TONE_NOISE + TONE_MODE3;
    let bass = swell(T_2_0, 10, 60, TONE_TRIANGLE + TONE_MODE1);
    let song = if song_nr == 0 {
        [
            swell(T_2_2, 8, 60, pulse),
            None,
            None,
            Some(Track { voice: T_3_0B, duration: 1 + 10 * 0x100, volume: 40, flags: noise }),
        ]
    } else if song_nr == 1 {
        [None, None, bass, None]
    } else if song_nr == 2 {
        [swell(T_0_0, 8, 20, pulse), None, bass, None]
    } else if song_nr == 3 {
        [swell(T_0_1, 8, 20, pulse), None, bass, None]
    } else if song_nr == 4 {
        [swell(T_0_1, 8, 30, pulse), swell(T_1_2, 2, 30, second), bass, None]
    } else if song_nr == 5 {
        [swell(T_0_1, 8, 30, pulse), swell(T_1_2B, 2, 30, second), bass, None]
    } else if song_nr == 6 {
        [
            swell(T_0_1, 8, 40, pulse),
            swell(T_1_2B, 2, 30, second),
            bass,
            Some(Track { voice: T_3_0, duration: 1 + 16 * 0x100, volume: 40, flags: noise }),
        ]
    } else if song_nr == 7 {
        [
            swell(T_0_1, 8, 60, pulse),
            Some(Track { voice: T_1_0, duration: 10, volume: 70, flags: second }),
            bass,
            Some(Track { voice: T_3_0, duration: 1 + 16 * 0x100, volume: 60, flags: noise }),
        ]
    } else {
        [
            Some(Track { voice: GAME_THEME, duration: 10, volume: 40, flags: TONE_PULSE1 + TONE_MODE4 }),
            Some(
                Track { voice: BEATS0_1, duration: 3, volume: 50, flags: TONE_TRIANGLE + TONE_PAN_LEFT },
            ),
            Some(
                Track { voice: BEATS0_2, duration: 2, volume: 80, flags: TONE_PULSE2 + TONE_PAN_RIGHT },
            ),
            None,
        ]
    };
    assert(song@ =~= tracks(song_nr));
    song
}

/// Appends the tone of a track at position `counter`, unless the voice is
/// silent there.
pub fn voice_player(tones: &mut Vec<Tone>, counter: usize, track: &Option<Track>)
    ensures
        final(tones)@ == old(tones)@ + voice_tone(counter, *track),
{
    match track {
        Some(track) => {
            let idx = counter % VOICE_NOTES;
            let note = track.voice[idx];
            if note != XX {
                tones.push(
                    Tone {
                        frequency: note as u32,
                        duration: track.duration,
                        volume: track.volume,
                        flags: track.flags,
                    },
                );
            }
        },
        None => {},
    }
    assert(tones@ =~= old(tones)@ + voice_tone(counter, *track));
}

/// The tones of song `song_nr` at position `counter`: for each of its
/// tracks, the note that is due.
pub fn song_player(counter: usize, song_nr: u8) -> (tones: Vec<Tone>)
    requires
        song_nr < SONG_COUNT,
    ensures
        tones@ == song_tones(counter, song_nr),
{
    let song = song(song_nr);
    let mut tones: Vec<Tone> = Vec::new();
    voice_player(&mut tones, counter, &song[0]);
    voice_player(&mut tones, counter, &song[1]);
    voice_player(&mut tones, counter, &song[2]);
    voice_player(&mut tones, counter, &song[3]);
    assert(tones@ =~= song_tones(counter, song_nr));
    tones
}

/// The tones that the music asks for at position `ext_counter` of song
/// `song_n`.
pub fn music_player(ext_counter: usize, song_n: u8) -> (tones: Vec<Tone>)
    requires
        song_n < SONG_COUNT,
    ensures
        tones@ == song_tones(ext_counter, song_n),
{
    song_player(ext_counter, song_n)
}

} // verus!
