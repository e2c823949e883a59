//! Which bodies touch, as measured by the host.
//!
//! Two discs collide when the distance of their centres is less than the sum
//! of their radii plus an extra reach. The rules use a generous reach where
//! a collision should be easy to trigger and a strict one where it should be
//! easy to dodge. Enemies and bombs are named by their ids.

use vstd::prelude::*;
use crate::entities::player::PlayerN;

verus! {

/// The collisions of one frame.
#[derive(Debug)]
pub struct Contacts {
    /// Bomb and player, with the generous reach.
    pub bombs_players: Vec<(usize, PlayerN)>,
    /// Bomb and enemy, with the generous reach.
    pub bombs_enemies: Vec<(usize, usize)>,
    /// Enemy and player, with the generous reach.
    pub enemies_players: Vec<(usize, PlayerN)>,
    /// Enemy and player, with the strict reach.
    pub enemies_players_strict: Vec<(usize, PlayerN)>,
}

impl Contacts {
    /// Whether the bomb reaches the player.
    pub open spec fn bomb_player(&self, bomb: usize, player: PlayerN) -> bool {
        self.bombs_players@.contains((bomb, player))
    }

    /// Whether the bomb reaches the enemy.
    pub open spec fn bomb_enemy(&self, bomb: usize, enemy: usize) -> bool {
        self.bombs_enemies@.contains((bomb, enemy))
    }

    /// Whether the enemy reaches the player with the generous reach.
    pub open spec fn enemy_player(&self, enemy: usize, player: PlayerN) -> bool {
        self.enemies_players@.contains((enemy, player))
    }

    /// Whether the enemy reaches the player with the strict reach.
    pub open spec fn enemy_player_strict(&self, enemy: usize, player: PlayerN) -> bool {
        self.enemies_players_strict@.contains((enemy, player))
    }

    /// No collision anywhere.
    pub fn new() -> (contacts: Contacts)
        ensures
            contacts.bombs_players@ == Seq::<(usize, PlayerN)>::empty(),
            contacts.bombs_enemies@ == Seq::<(usize, usize)>::empty(),
            contacts.enemies_players@ == Seq::<(usize, PlayerN)>::empty(),
            contacts.enemies_players_strict@ == Seq::<(usize, PlayerN)>::empty(),
    {
        Contacts {
            bombs_players: Vec::new(),
            bombs_enemies: Vec::new(),
            enemies_players: Vec::new(),
            enemies_players_strict: Vec::new(),
        }
    }

    /// Whether the bomb reaches the player.
    pub fn has_bomb_player(&self, bomb: usize, player: PlayerN) -> (found: bool)
        ensures
            found == self.bomb_player(bomb, player),
    {
        holds_player_pair(&self.bombs_players, bomb, player)
    }

    /// Whether the bomb reaches the enemy.
    pub fn has_bomb_enemy(&self, bomb: usize, enemy: usize) -> (found: bool)
        ensures
            found == self.bomb_enemy(bomb, enemy),
    {
        let mut i: usize = 0;
        while i < self.bombs_enemies.len()
            invariant
                i <= self.bombs_enemies.len(),
                forall|j: int| 0 <= j < i ==> self.bombs_enemies@[j] != (bomb, enemy),
            decreases self.bombs_enemies.len() - i,
        {
            let pair = self.bombs_enemies[i];
            if pair.0 == bomb && pair.1 == enemy {
                return true;
            }
            i += 1;
        }
        false
    }

    /// Whether the enemy reaches the player with the generous reach.
    pub fn has_enemy_player(&self, enemy: usize, player: PlayerN) -> (found: bool)
        ensures
            found == self.enemy_player(enemy, player),
    {
        holds_player_pair(&self.enemies_players, enemy, player)
    }

    /// Whether the enemy reaches the player with the strict reach.
    pub fn has_enemy_player_strict(&self, enemy: usize, player: PlayerN) -> (found: bool)
        ensures
            found == self.enemy_player_strict(enemy, player),
    {
        holds_player_pair(&self.enemies_players_strict, enemy, player)
    }
}

/// Whether `pairs` lists `id` together with `player`.
fn holds_player_pair(pairs: &Vec<(usize, PlayerN)>, id: usize, player: PlayerN) -> (found: bool)
    ensures
        found == pairs@.contains((id, player)),
{
    let mut i: usize = 0;
    while i < pairs.len()
        invariant
            i <= pairs.len(),
            forall|j: int| 0 <= j < i ==> pairs@[j] != (id, player),
        decreases pairs.len() - i,
    {
        let pair = pairs[i];
        if pair.0 == id && pair.1 == player {
            return true;
        }
        i += 1;
    }
    false
}

} // verus!
