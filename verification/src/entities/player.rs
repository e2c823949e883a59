//! Players and their slots.

use vstd::prelude::*;
use crate::entities::entity::Entity;
use crate::graphics::palette::{DRAW_COLOR_A, DRAW_COLOR_B};

verus! {

/// One of the four player slots.
#[derive(Clone, Copy, Debug, PartialEq, Eq, Structural)]
pub enum PlayerN {
    P1,
    P2,
    P3,
    P4,
}

impl PlayerN {
    /// Position of the slot among the four, counted from zero.
    pub open spec fn spec_index(self) -> int {
        match self {
            PlayerN::P1 => 0,
            PlayerN::P2 => 1,
            PlayerN::P3 => 2,
            PlayerN::P4 => 3,
        }
    }

    /// The slot at position `i`; positions past the last give the last.
    pub open spec fn spec_from_index(i: int) -> PlayerN {
        if i <= 0 {
            PlayerN::P1
        } else if i == 1 {
            PlayerN::P2
        } else if i == 2 {
            PlayerN::P3
        } else {
            PlayerN::P4
        }
    }

    /// Position of the slot among the four, counted from zero.
    pub fn index(self) -> (i: usize)
        ensures
            i == self.spec_index(),
            i < 4,
    {
        match self {
            PlayerN::P1 => 0,
            PlayerN::P2 => 1,
            PlayerN::P3 => 2,
            PlayerN::P4 => 3,
        }
    }

    /// The slot at position `i`.
    pub fn from_index(i: usize) -> (n: PlayerN)
        requires
            i < 4,
        ensures
            n == PlayerN::spec_from_index(i as int),
            n.spec_index() == i,
    {
        if i == 0 {
            PlayerN::P1
        } else if i == 1 {
            PlayerN::P2
        } else if i == 2 {
            PlayerN::P3
        } else {
            PlayerN::P4
        }
    }
}

/// The colour a player shows after switching away from `color`.
pub open spec fn toggled(color: u16) -> u16 {
    if color == DRAW_COLOR_A {
        DRAW_COLOR_B
    } else {
        DRAW_COLOR_A
    }
}

/// A joined player.
///
/// The `life` of the first player is the pool of attempts that all players
/// share; the `life` of the others is not read.
#[derive(Clone, Copy, Debug, PartialEq, Eq, Structural)]
pub struct Player {
    pub entity: Entity,
    pub player_number: PlayerN,
}

impl Player {
    /// A player who has just joined.
    pub open spec fn spec_new(player_number: PlayerN) -> Player {
        Player { entity: Entity { color: DRAW_COLOR_B, life: 1 }, player_number }
    }

    /// A player who has just joined: in the second colour, with a single life.
    #[verifier::when_used_as_spec(spec_new)]
    pub fn new(player_number: PlayerN) -> (player: Player)
        ensures
            player == Player::spec_new(player_number),
    {
        Player { entity: Entity { color: DRAW_COLOR_B, life: 1 }, player_number }
    }

    /// Switches between the two faction colours.
    pub fn toggle_color(&mut self)
        ensures
            *final(self) == (Player {
                entity: Entity { color: toggled(old(self).entity.color), life: old(self).entity.life },
                player_number: old(self).player_number,
            }),
    {
        if self.entity.color == DRAW_COLOR_A {
            self.entity.color = DRAW_COLOR_B;
        } else {
            self.entity.color = DRAW_COLOR_A;
        }
    }
}

impl Default for Player {
    fn default() -> (player: Player)
        ensures
            player == Player::spec_new(PlayerN::P1),
    {
        Player::new(PlayerN::P1)
    }
}

} // verus!
