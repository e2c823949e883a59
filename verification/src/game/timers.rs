//! Frame counters.

use vstd::prelude::*;
use crate::common::calibrations::{DEATH_COUNTDOWN_DURATION, RESPITE_DURATION};

verus! {

/// Counters that advance once per frame.
///
/// `frame_count` is the game's clock. `respite` counts down the frames
/// during which no enemy may spawn; `death_countdown` is the remaining
/// length of a death freeze; `song_tick` positions the music.
#[derive(Clone, Copy, Debug, PartialEq, Eq)]
pub struct Timers {
    pub frame_count: usize,
    pub death_countdown: usize,
    pub respite: usize,
    pub song_tick: usize,
}

/// `n + 1`, starting over from zero after the largest `usize`.
pub open spec fn next_tick(n: usize) -> usize {
    if n == usize::MAX {
        0
    } else {
        (n + 1) as usize
    }
}

impl Timers {
    /// The counters one tick later.
    pub open spec fn ticked(self) -> Timers {
        Timers {
            frame_count: next_tick(self.frame_count),
            death_countdown: self.death_countdown,
            respite: if self.respite == 0 { 0 } else { (self.respite - 1) as usize },
            song_tick: next_tick(self.song_tick),
        }
    }

    /// The counters at the start of a game: the clock at zero, a full
    /// respite ahead.
    pub open spec fn spec_new() -> Timers {
        Timers {
            frame_count: 0,
            death_countdown: DEATH_COUNTDOWN_DURATION,
            respite: RESPITE_DURATION,
            song_tick: 0,
        }
    }

    /// The counters at the start of a game.
    #[verifier::when_used_as_spec(spec_new)]
    pub fn new() -> (timers: Timers)
        ensures
            timers == Timers::spec_new(),
    {
        Timers {
            frame_count: 0,
            death_countdown: DEATH_COUNTDOWN_DURATION,
            respite: RESPITE_DURATION,
            song_tick: 0,
        }
    }

    /// Advances the clock by one frame.
    pub fn tick(&mut self)
        ensures
            *final(self) == old(self).ticked(),
    {
        self.frame_count = self.frame_count.wrapping_add(1);
        self.respite = self.respite.saturating_sub(1);
        self.song_tick = self.song_tick.wrapping_add(1);
    }
}

} // verus!
