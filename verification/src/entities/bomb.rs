//! Bombs: armed until a player touches them, then exploding.

use vstd::prelude::*;
use crate::entities::entity::Entity;
use crate::entities::player::PlayerN;
use crate::graphics::palette::DRAW_COLOR_BOMB;

verus! {

/// Frames an explosion lasts.
pub const DEFAULT_LIFE_SPAN: u32 = 30;

/// A bomb. While armed it waits; once exploded it decays frame by frame,
/// and `who_exploded` names the player who set it off.
#[derive(Clone, Copy, Debug, PartialEq, Eq, Structural)]
pub struct Bomb {
    pub entity: Entity,
    pub exploded: bool,
    pub who_exploded: Option<PlayerN>,
}

impl Bomb {
    /// The bomb one frame later.
    pub open spec fn updated(self) -> Bomb {
        if self.exploded {
            Bomb {
                entity: Entity { color: self.entity.color, life: (self.entity.life - 1) as u32 },
                exploded: self.exploded,
                who_exploded: self.who_exploded,
            }
        } else {
            self
        }
    }

    /// An armed bomb.
    pub open spec fn spec_new() -> Bomb {
        Bomb {
            entity: Entity { color: DRAW_COLOR_BOMB, life: DEFAULT_LIFE_SPAN },
            exploded: false,
            who_exploded: None,
        }
    }

    /// An armed bomb.
    #[verifier::when_used_as_spec(spec_new)]
    pub fn new() -> (bomb: Bomb)
        ensures
            bomb == Bomb::spec_new(),
    {
        Bomb {
            entity: Entity { color: DRAW_COLOR_BOMB, life: DEFAULT_LIFE_SPAN },
            exploded: false,
            who_exploded: None,
        }
    }

    /// Lets one frame pass: an exploded bomb loses one frame of life, an
    /// armed one stays as it is.
    pub fn update(&mut self)
        requires
            old(self).exploded ==> old(self).entity.life > 0,
        ensures
            *final(self) == old(self).updated(),
    {
        if self.exploded {
            self.entity.life = self.entity.life - 1;
        }
    }
}

impl Default for Bomb {
    fn default() -> (bomb: Bomb)
        ensures
            bomb == (Bomb {
                entity: Entity { color: DRAW_COLOR_BOMB, life: DEFAULT_LIFE_SPAN },
                exploded: false,
                who_exploded: None,
            }),
    {
        Bomb::new()
    }
}

} // verus!
