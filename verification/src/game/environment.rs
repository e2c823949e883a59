//! The surroundings of the play: the starry background, the palette and
//! the music.

use vstd::prelude::*;
use fastrand::Rng;
use crate::common::calibrations::MUSIC_SPEED_CTRL;
use crate::common::random::rng_u8_below;
use crate::graphics::draw_utils::DrawCommand;
use crate::graphics::palette::{set_palette_n, PALETTES, PALETTE_COUNT};
use crate::sound::effects::{
    bomb_explode, death, extra_life, spec_bomb_explode, spec_death, spec_extra_life, Tone,
};
use crate::sound::music::{music_player, song_tones, INTRO_SONG, SONG_COUNT};

verus! {

/// Number of stars in the background.
pub const SPACE_PIXELS: u8 = 200;

/// Draw colour of the stars.
pub const SPACE_COLOR: u16 = 0x44;

/// The environment holds the stars of the background, the number of the
/// palette that is loaded and the number of the song that plays. The
/// heads-up display is not part of it.
pub struct Environment {
    pub space: Vec<(u8, u8)>,
    pub palette_n: u8,
    pub song_nr: u8,
}

/// The background: each star a pixel in the colour of space.
pub open spec fn space_drawn(space: Seq<(u8, u8)>) -> Seq<DrawCommand> {
    seq![DrawCommand::Color(SPACE_COLOR)] + Seq::new(
        space.len(),
        |i: int| DrawCommand::Pixel { x: space[i].0 as i32, y: space[i].1 as i32 },
    )
}

/// `tone` if `due`, else nothing.
pub open spec fn cue(due: bool, tone: Tone) -> Seq<Tone> {
    if due {
        seq![tone]
    } else {
        Seq::empty()
    }
}

impl Environment {
    /// Every star lies on the screen.
    pub open spec fn stars_on_screen(&self) -> bool {
        forall|i: int|
            0 <= i < self.space@.len() ==> (#[trigger] self.space@[i]).0 < 160 && self.space@[i].1
                < 160
    }

    /// The tones of the music that are due at `song_tick`.
    pub open spec fn music_at(&self, song_tick: usize) -> Seq<Tone> {
        song_tones(song_tick / MUSIC_SPEED_CTRL, self.song_nr)
    }

    /// A new environment: stars scattered at random over the screen, the
    /// first palette, the song of the introduction.
    pub fn new(rng: &mut Rng) -> (environment: Environment)
        ensures
            environment.space@.len() == SPACE_PIXELS,
            environment.stars_on_screen(),
            environment.palette_n == 0,
            environment.song_nr == INTRO_SONG,
    {
        let mut space: Vec<(u8, u8)> = Vec::new();
        let mut i: u8 = 0;
        while i < SPACE_PIXELS
            invariant
                i <= SPACE_PIXELS,
                space@.len() == i,
                forall|k: int| 0 <= k < space@.len() ==> (#[trigger] space@[k]).0 < 160 && space@[k].1
                    < 160,
            decreases SPACE_PIXELS - i,
        {
            let x = rng_u8_below(rng, 160);
            let y = rng_u8_below(rng, 160);
            space.push((x, y));
            i += 1;
        }
        Environment { space, palette_n: 0, song_nr: INTRO_SONG }
    }

    /// The commands that paint the background.
    pub fn draw_space(&self) -> (commands: Vec<DrawCommand>)
        ensures
            commands@ == space_drawn(self.space@),
    {
        let mut commands: Vec<DrawCommand> = Vec::new();
        commands.push(DrawCommand::Color(SPACE_COLOR));
        let mut i: usize = 0;
        while i < self.space.len()
            invariant
                i <= self.space.len(),
                commands@.len() == i + 1,
                commands@[0] == DrawCommand::Color(SPACE_COLOR),
                forall|k: int|
                    0 <= k < i ==> commands@[k + 1] == (DrawCommand::Pixel {
                        x: self.space@[k].0 as i32,
                        y: self.space@[k].1 as i32,
                    }),
            decreases self.space.len() - i,
        {
            let p = self.space[i];
            commands.push(DrawCommand::Pixel { x: p.0 as i32, y: p.1 as i32 });
            i += 1;
        }
        assert(commands@ =~= space_drawn(self.space@));
        commands
    }

    /// What the environment does in every frame: the tones of the music
    /// that are due, and the background. The song must be one of those
    /// there are.
    pub fn update(&self, _tick: usize, song_tick: usize) -> (due: (Vec<Tone>, Vec<DrawCommand>))
        requires
            self.song_nr < SONG_COUNT,
        ensures
            due.0@ == self.music_at(song_tick),
            due.1@ == space_drawn(self.space@),
    {
        (music_player(song_tick / MUSIC_SPEED_CTRL, self.song_nr), self.draw_space())
    }

    /// The sound effects of a frame, in the order in which they start:
    /// explosion, extra life, death.
    pub fn play_sound_effects(&self, bombs_exploded: bool, life_granted: bool, player_died: bool) -> (tones:
        Vec<Tone>)
        ensures
            tones@ == cue(bombs_exploded, spec_bomb_explode()) + cue(life_granted, spec_extra_life())
                + cue(player_died, spec_death()),
    {
        let mut tones: Vec<Tone> = Vec::new();
        if bombs_exploded {
            tones.push(bomb_explode());
        }
        if life_granted {
            tones.push(extra_life());
        }
        if player_died {
            tones.push(death());
        }
        assert(tones@ =~= cue(bombs_exploded, spec_bomb_explode()) + cue(
            life_granted,
            spec_extra_life(),
        ) + cue(player_died, spec_death()));
        tones
    }

    /// Selects palette `palette_nr`, counted round the palettes there are,
    /// and hands out its colours for the host to load.
    pub fn set_palette(&mut self, palette_nr: u8) -> (colors: [u32; 4])
        ensures
            final(self).palette_n == palette_nr % 10,
            final(self).space == old(self).space,
            final(self).song_nr == old(self).song_nr,
            colors == PALETTES[(palette_nr % 10) as int],
    {
        self.palette_n = palette_nr % (PALETTE_COUNT as u8);
        set_palette_n(self.palette_n as usize)
    }
}

} // verus!
