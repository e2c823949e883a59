//! Tuning constants of the game.

use vstd::prelude::*;
use fastrand::Rng;
use crate::common::random::{rng_with_seed, seeded};
use crate::graphics::palette::DRAW_COLOR_B;

verus! {

/// Seed of the random numbers of the first game.
pub const RNG_SEED: u64 = 555;

/// Difficulty level a game starts with.
pub const INIT_DIFFICULTY: u32 = 0;

/// Number of difficulty levels.
pub const DIFFICULTY_LEVELS: usize = 10;

/// A bomb may spawn on every frame that is a multiple of this.
pub const BOMB_FRAME_FREQ: usize = 300;

/// Frames per note of the music.
pub const MUSIC_SPEED_CTRL: usize = 5;

/// Score beyond which the first extra life is granted.
pub const NEXT_LIFE_SCORE: u32 = 100_000;

/// For each difficulty level, the cadence in frames at which enemies spawn.
pub const ENEMY_FRAME: [usize; 10] = [120, 60, 30, 25, 15, 10, 8, 6, 4, 2];

/// For each difficulty level, the cadence in frames at which the colour of
/// new enemies switches.
pub const EN_COL_FRAME: [usize; 10] = [240, 180, 160, 120, 100, 80, 60, 60, 60, 60];

/// For each difficulty level but the last, the multiplier below which the
/// level applies.
pub const DIFF_MUL_PROGRESSION: [u32; 9] = [12, 30, 80, 120, 240, 320, 450, 1000, 2000];

/// Most enemies alive at once; a spawn that would exceed it is skipped.
pub const MAX_ENEMIES: usize = 50;

/// Most bombs on the field at once; a spawn that would exceed it is skipped.
pub const MAX_BOMBS: usize = 16;

/// Attempts a game starts with, and the bonus for each player who joins.
pub const INIT_LIVES: u32 = 3;

/// What an exploded bomb is worth, in units of the multiplier; also what it
/// adds to the multiplier.
pub const SCORE_BOMB: u32 = 10;

/// What an absorbed enemy adds to the multiplier.
pub const SCORE_ENEMY: u32 = 1;

/// The highest score that is kept.
pub const MAX_SCORE: u32 = 999_999_999;

/// Frames without enemy spawns that follow a (re)start or a death.
pub const RESPITE_DURATION: usize = 120;

/// Length in frames of the freeze that follows a player's death.
pub const DEATH_COUNTDOWN_DURATION: usize = 90;

/// The places where enemies appear: the corners of the arena and the
/// middles of its edges.
pub const SPAWN_SITES: [(u32, u32); 8] = [
    (0, 0),
    (0, 80),
    (0, 159),
    (80, 0),
    (80, 159),
    (159, 0),
    (159, 80),
    (159, 159),
];

/// Calibrations impact the difficulty of the game, its random numbers and
/// when the player gets extra lives.
///
/// `seed` is the seed that the generator was made from; the generator
/// itself moves on with every number that is drawn.
pub struct Calibrations {
    pub difficulty: u32,
    pub score_next_life: u32,
    pub seed: u64,
    pub rng: Rng,
    pub enemy_color: u16,
}

/// The seed of a game that starts at frame `tick`: the seed of the first
/// game plus the frame count, counted in 64 bits.
pub open spec fn seed_for(tick: usize) -> u64 {
    if RNG_SEED + tick > u64::MAX {
        (RNG_SEED + tick - 0x1_0000_0000_0000_0000) as u64
    } else {
        (RNG_SEED + tick) as u64
    }
}

/// The place of spawn site number `site`.
pub fn spawn_site(site: usize) -> (place: (u32, u32))
    requires
        site < 8,
    ensures
        place == SPAWN_SITES[site as int],
{
    SPAWN_SITES[site]
}

impl Calibrations {
    /// The calibrations of a new game. The random numbers are seeded from
    /// the frame at which the game starts, so that no two games are alike.
    pub fn new(tick_for_extra_rng: usize) -> (calibrations: Calibrations)
        ensures
            calibrations.difficulty == INIT_DIFFICULTY,
            calibrations.score_next_life == NEXT_LIFE_SCORE,
            calibrations.enemy_color == DRAW_COLOR_B,
            calibrations.seed == seed_for(tick_for_extra_rng),
            calibrations.rng == seeded(seed_for(tick_for_extra_rng)),
    {
        let seed = RNG_SEED.wrapping_add(tick_for_extra_rng as u64);
        Calibrations {
            difficulty: INIT_DIFFICULTY,
            score_next_life: NEXT_LIFE_SCORE,
            seed,
            rng: rng_with_seed(seed),
            enemy_color: DRAW_COLOR_B,
        }
    }
}

} // verus!
