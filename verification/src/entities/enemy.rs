//! Enemies: short-lived pursuers.

use vstd::prelude::*;
use crate::entities::entity::Entity;
use crate::entities::player::PlayerN;
use crate::graphics::palette::DRAW_COLOR_A;

verus! {

/// An enemy.
#[derive(Clone, Copy, Debug, PartialEq, Eq, Structural)]
pub struct Enemy {
    pub entity: Entity,
}

impl Enemy {
    /// Enemies do not live forever: a skilled player could otherwise herd
    /// them all and keep new ones from appearing once the field is full.
    pub const LIFE_SPAN: u32 = 720;

    /// Frames after its spawn during which an enemy cannot kill a player.
    /// It spares the player the frustration of dying to an enemy that
    /// appears just as they glide by the edge.
    pub const I_FRAMES_ON_SPAWN: u32 = 12;

    /// Whether the enemy is still within its grace window.
    pub open spec fn spec_just_spawned(&self) -> bool {
        self.entity.life > Enemy::LIFE_SPAN - Enemy::I_FRAMES_ON_SPAWN
    }

    /// A fresh enemy of the given colour.
    pub fn new(_id: usize, color: u16) -> (enemy: Enemy)
        ensures
            enemy == (Enemy { entity: Entity { color, life: Enemy::LIFE_SPAN } }),
    {
        Enemy { entity: Entity { color, life: Enemy::LIFE_SPAN } }
    }

    /// Takes all life from the enemy; the next pruning removes it.
    pub fn kill(&mut self)
        ensures
            *final(self) == (Enemy { entity: Entity { color: old(self).entity.color, life: 0 } }),
    {
        self.entity.life = 0;
    }

    /// Whether the enemy is still within its grace window, in which it can kill
    /// nobody.
    #[verifier::when_used_as_spec(spec_just_spawned)]
    pub fn just_spawned(&self) -> (fresh: bool)
        ensures
            fresh == self.spec_just_spawned(),
    {
        self.entity.life > Enemy::LIFE_SPAN - Enemy::I_FRAMES_ON_SPAWN
    }

    /// Ages the enemy by one frame.
    pub fn update(&mut self)
        requires
            old(self).entity.life > 0,
        ensures
            *final(self) == (Enemy {
                entity: Entity { color: old(self).entity.color, life: (old(self).entity.life - 1) as u32 },
            }),
    {
        self.entity.life = self.entity.life - 1;
    }
}

/// Whether the player in slot `n` is within the horizon, at a distance of
/// key `key`.
///
/// Distances are given by keys: numbers that grow with the distance. A slot
/// without a key holds no player.
pub open spec fn in_sight(distances: Seq<Option<u64>>, horizon: u64, n: int, key: u64) -> bool {
    0 <= n < 4 && distances[n] == Some(key) && key < horizon
}

/// Whether the player in slot `n` is the one to follow: within the horizon,
/// no player is nearer, and of the players who are as near, this one comes
/// first.
pub open spec fn is_nearest(distances: Seq<Option<u64>>, horizon: u64, n: int) -> bool {
    exists|key: u64|
        {
            &&& #[trigger] in_sight(distances, horizon, n, key)
            &&& forall|m: int, other: u64|
                #[trigger] in_sight(distances, horizon, m, other) ==> key <= other
            &&& forall|m: int, other: u64|
                m < n && #[trigger] in_sight(distances, horizon, m, other) ==> key < other
        }
}

/// Whether no player is within the horizon.
pub open spec fn nobody_in_sight(distances: Seq<Option<u64>>, horizon: u64) -> bool {
    forall|m: int, other: u64| !#[trigger] in_sight(distances, horizon, m, other)
}

/// The player whom an enemy follows: the nearest one within the horizon;
/// among players who are equally near, the one in the first slot; and the
/// first player where nobody is within the horizon. The choice is made anew
/// in every frame.
pub fn nearest_player(distances: &[Option<u64>; 4], horizon: u64) -> (to_follow: PlayerN)
    ensures
        is_nearest(distances@, horizon, to_follow.spec_index()) || (nobody_in_sight(
            distances@,
            horizon,
        ) && to_follow == PlayerN::P1),
{
    let mut to_follow: usize = 0;
    let mut least: u64 = horizon;
    let mut found = false;
    let mut n: usize = 0;
    while n < 4
        invariant
            n <= 4,
            to_follow < 4,
            least <= horizon,
            !found ==> to_follow == 0 && least == horizon && forall|m: int, other: u64|
                m < n ==> !#[trigger] in_sight(distances@, horizon, m, other),
            found ==> {
                &&& to_follow < n
                &&& in_sight(distances@, horizon, to_follow as int, least)
                &&& forall|m: int, other: u64|
                    m < n && #[trigger] in_sight(distances@, horizon, m, other) ==> least <= other
                &&& forall|m: int, other: u64|
                    m < to_follow && #[trigger] in_sight(distances@, horizon, m, other) ==> least
                        < other
            },
        decreases 4 - n,
    {
        match distances[n] {
            Some(key) => {
                if key < least {
                    least = key;
                    to_follow = n;
                    found = true;
                }
            },
            None => {},
        }
        n += 1;
    }
    PlayerN::from_index(to_follow)
}

impl Default for Enemy {
    fn default() -> (enemy: Enemy)
        ensures
            enemy == (Enemy { entity: Entity { color: DRAW_COLOR_A, life: Enemy::LIFE_SPAN } }),
    {
        Enemy { entity: Entity { color: DRAW_COLOR_A, life: Enemy::LIFE_SPAN } }
    }
}

} // verus!
