//! The owner of all entities, and the per-frame arbitration of collisions.
//!
//! Enemies and bombs are kept in the order in which they were inserted, each
//! under an id that occurs once.

use vstd::prelude::*;
use crate::common::calibrations::{INIT_LIVES, MAX_BOMBS, MAX_ENEMIES};
use crate::entities::bomb::Bomb;
use crate::entities::contacts::Contacts;
use crate::entities::enemy::Enemy;
use crate::entities::entity::Entity;
use crate::entities::player::{Player, PlayerN};
use crate::entities::population::{
    absorbed, absorbed_by, absorptions, aged_bombs, aged_enemies, bomb_trigger, converted_color,
    converting_bomb, distinct_ids, enemy_after_contact, explosions, fatal, first_fatal,
    lemma_aged_wf,
    lemma_collided_wf, lemma_converting_bomb_is_listed, lemma_position,
    lemma_with_entry_distinct, live_bombs, live_enemies, position, runs_into, with_entry,
    Population,
};

verus! {

/// Entities include the players, the enemies and the bombs.
///
/// `killer` is set while a player's death is being played out: the id of
/// the enemy that caused it, with a fresh enemy of its colour to show.
pub struct EntityManager {
    pub players: [Option<Player>; 4],
    pub life_counter: u32,
    pub bombs: Vec<(usize, Bomb)>,
    pub enemies: Vec<(usize, Enemy)>,
    pub killer: Option<(usize, Enemy)>,
}

impl View for EntityManager {
    type V = Population;

    open spec fn view(&self) -> Population {
        Population {
            players: self.players@,
            life_counter: self.life_counter,
            bombs: self.bombs@,
            enemies: self.enemies@,
            killer: self.killer,
        }
    }
}

/// Keeps `value` under `id` in `entries`.
fn put<T: Copy>(entries: &mut Vec<(usize, T)>, id: usize, value: T)
    ensures
        final(entries)@ == with_entry(old(entries)@, id, value),
{
    let mut i: usize = 0;
    while i < entries.len()
        invariant
            *entries == *old(entries),
            i <= entries.len(),
            position(entries@, id, 0) == position(entries@, id, i as int),
        decreases entries.len() - i,
    {
        if entries[i].0 == id {
            entries.set(i, (id, value));
            return ;
        }
        i += 1;
    }
    entries.push((id, value));
}

/// Whether no id occurs twice among the entries.
fn has_distinct_ids<T: Copy>(entries: &Vec<(usize, T)>) -> (ok: bool)
    ensures
        ok == distinct_ids(entries@),
{
    let mut j: usize = 0;
    while j < entries.len()
        invariant
            j <= entries.len(),
            forall|a: int, b: int| 0 <= a < b < j ==> entries@[a].0 != entries@[b].0,
        decreases entries.len() - j,
    {
        let mut i: usize = 0;
        while i < j
            invariant
                i <= j < entries.len(),
                forall|a: int| 0 <= a < i ==> entries@[a].0 != entries@[j as int].0,
            decreases j - i,
        {
            if entries[i].0 == entries[j].0 {
                return false;
            }
            i += 1;
        }
        j += 1;
    }
    true
}

impl EntityManager {
    /// The first player alone, with the lives a game starts with.
    pub fn new() -> (manager: EntityManager)
        ensures
            manager@ == (Population {
                players: seq![Some(Player::new(PlayerN::P1)), None, None, None],
                life_counter: INIT_LIVES,
                bombs: Seq::empty(),
                enemies: Seq::empty(),
                killer: None,
            }),
            manager@.wf(),
    {
        let manager = EntityManager {
            players: [Some(Player::new(PlayerN::P1)), None, None, None],
            life_counter: INIT_LIVES,
            bombs: Vec::new(),
            enemies: Vec::new(),
            killer: None,
        };
        manager
    }

    /// Whether the invariant of the entity collections holds. The functions
    /// that change the manager keep it; who writes to the fields can test it.
    pub fn is_well_formed(&self) -> (ok: bool)
        ensures
            ok == self@.wf(),
    {
        if self.enemies.len() > MAX_ENEMIES || self.bombs.len() > MAX_BOMBS {
            return false;
        }
        if !has_distinct_ids(&self.enemies) || !has_distinct_ids(&self.bombs) {
            return false;
        }
        let mut n: usize = 0;
        while n < 4
            invariant
                n <= 4,
                forall|k: int|
                    0 <= k < n && (#[trigger] self@.players[k]) is Some
                        ==> self@.players[k].unwrap().player_number.spec_index() == k,
            decreases 4 - n,
        {
            match self.players[n] {
                Some(player) => {
                    if player.player_number.index() != n {
                        return false;
                    }
                },
                None => {},
            }
            n += 1;
        }
        let mut i: usize = 0;
        while i < self.enemies.len()
            invariant
                i <= self.enemies.len(),
                forall|k: int| 0 <= k < i ==> (#[trigger] self@.enemies[k]).1.entity.life > 0,
            decreases self.enemies.len() - i,
        {
            if self.enemies[i].1.entity.life == 0 {
                return false;
            }
            i += 1;
        }
        let mut j: usize = 0;
        while j < self.bombs.len()
            invariant
                j <= self.bombs.len(),
                forall|k: int| 0 <= k < j ==> (#[trigger] self@.bombs[k]).1.entity.life > 0,
                forall|k: int|
                    0 <= k < j && (#[trigger] self@.bombs[k]).1.exploded ==> {
                        &&& self@.bombs[k].1.who_exploded is Some
                        &&& self@.players[self@.bombs[k].1.who_exploded.unwrap().spec_index()] is Some
                    },
            decreases self.bombs.len() - j,
        {
            let bomb = self.bombs[j].1;
            if bomb.entity.life == 0 {
                return false;
            }
            if bomb.exploded {
                match bomb.who_exploded {
                    Some(who) => {
                        if self.players[who.index()].is_none() {
                            return false;
                        }
                    },
                    None => {
                        return false;
                    },
                }
            }
            j += 1;
        }
        true
    }

    /// The player who sets the bomb off, if one does.
    fn trigger(&self, contacts: &Contacts, bomb: usize) -> (who: Option<PlayerN>)
        ensures
            who == bomb_trigger(self.players@, *contacts, bomb),
    {
        if self.players[0].is_some() && contacts.has_bomb_player(bomb, PlayerN::P1) {
            Some(PlayerN::P1)
        } else if self.players[1].is_some() && contacts.has_bomb_player(bomb, PlayerN::P2) {
            Some(PlayerN::P2)
        } else if self.players[2].is_some() && contacts.has_bomb_player(bomb, PlayerN::P3) {
            Some(PlayerN::P3)
        } else if self.players[3].is_some() && contacts.has_bomb_player(bomb, PlayerN::P4) {
            Some(PlayerN::P4)
        } else {
            None
        }
    }

    /// The exploded bomb that recolours the enemy, if one reaches it.
    fn conversion(&self, contacts: &Contacts, enemy: usize) -> (bomb: Option<Bomb>)
        ensures
            bomb == converting_bomb(self.bombs@, *contacts, enemy, 0),
    {
        let mut i: usize = 0;
        while i < self.bombs.len()
            invariant
                i <= self.bombs.len(),
                converting_bomb(self.bombs@, *contacts, enemy, 0) == converting_bomb(
                    self.bombs@,
                    *contacts,
                    enemy,
                    i as int,
                ),
            decreases self.bombs.len() - i,
        {
            let (id, bomb) = self.bombs[i];
            if bomb.exploded && contacts.has_bomb_enemy(id, enemy) {
                return Some(bomb);
            }
            i += 1;
        }
        None
    }

    fn is_absorbed_by(&self, contacts: &Contacts, id: usize, color: u16, n: PlayerN) -> (yes: bool)
        ensures
            yes == absorbed_by(self.players@, *contacts, id, color, n),
    {
        match self.players[n.index()] {
            Some(p) => p.entity.color == color && contacts.has_enemy_player(id, n),
            None => false,
        }
    }

    fn is_absorbed(&self, contacts: &Contacts, id: usize, color: u16) -> (yes: bool)
        ensures
            yes == absorbed(self.players@, *contacts, id, color),
    {
        self.is_absorbed_by(contacts, id, color, PlayerN::P1) || self.is_absorbed_by(
            contacts,
            id,
            color,
            PlayerN::P2,
        ) || self.is_absorbed_by(contacts, id, color, PlayerN::P3) || self.is_absorbed_by(
            contacts,
            id,
            color,
            PlayerN::P4,
        )
    }

    fn does_run_into(&self, contacts: &Contacts, id: usize, color: u16, n: PlayerN) -> (yes: bool)
        ensures
            yes == runs_into(self.players@, *contacts, id, color, n),
    {
        match self.players[n.index()] {
            Some(p) => p.entity.color != color && contacts.has_enemy_player_strict(id, n),
            None => false,
        }
    }

    /// Whether an enemy that nobody absorbed kills a player.
    fn is_fatal(&self, contacts: &Contacts, id: usize, color: u16, enemy: &Enemy) -> (yes: bool)
        requires
            !absorbed(self.players@, *contacts, id, color),
        ensures
            yes == fatal(self.players@, *contacts, id, color, *enemy),
    {
        !enemy.just_spawned() && (self.does_run_into(contacts, id, color, PlayerN::P1)
            || self.does_run_into(contacts, id, color, PlayerN::P2) || self.does_run_into(
            contacts,
            id,
            color,
            PlayerN::P3,
        ) || self.does_run_into(contacts, id, color, PlayerN::P4))
    }

    /// Resolves the collisions of one frame and removes what they killed.
    ///
    /// First every armed bomb that a player reaches explodes. Then the
    /// enemies are taken in order: an exploded bomb that reaches the enemy
    /// gives it the colour of the player who set the bomb off; a player of
    /// the enemy's colour who reaches it absorbs it; otherwise a player of
    /// the other colour whom it runs into dies, unless the enemy has just
    /// spawned. A death ends the processing at once. Returns the number of
    /// enemies absorbed and the number of bombs exploded.
    pub fn process_collisions(&mut self, contacts: &Contacts) -> (counts: (u32, u32))
        requires
            old(self)@.wf(),
        ensures
            final(self)@ == old(self)@.collided(*contacts),
            final(self)@.wf(),
            counts.0 == old(self)@.enemies_killed(*contacts),
            counts.1 == old(self)@.bombs_exploded(*contacts),
    {
        let ghost before = self@;
        let ghost struck = before.struck_bombs(*contacts);
        let mut bombs_exploded: u32 = 0;
        let mut i: usize = 0;
        while i < self.bombs.len()
            invariant
                before == old(self)@,
                before.wf(),
                self.players@ == before.players,
                self.life_counter == before.life_counter,
                self.enemies@ == before.enemies,
                self.killer == before.killer,
                self.bombs@.len() == before.bombs.len(),
                i <= self.bombs.len(),
                forall|k: int| 0 <= k < i ==> self.bombs@[k] == before.struck_bombs(*contacts)[k],
                forall|k: int| i <= k < self.bombs.len() ==> self.bombs@[k] == before.bombs[k],
                bombs_exploded == explosions(before.players, *contacts, before.bombs, i as int),
                bombs_exploded <= i,
            decreases self.bombs.len() - i,
        {
            let (id, bomb) = self.bombs[i];
            if !bomb.exploded {
                let who = self.trigger(contacts, id);
                if who.is_some() {
                    self.bombs.set(
                        i,
                        (id, Bomb { entity: bomb.entity, exploded: true, who_exploded: who }),
                    );
                    bombs_exploded += 1;
                }
            }
            i += 1;
        }
        proof {
            assert(self.bombs@ =~= struck);
            assert forall|k: int| 0 <= k < struck.len() && (#[trigger] struck[k]).1.exploded implies {
                &&& struck[k].1.who_exploded is Some
                &&& before.players[struck[k].1.who_exploded.unwrap().spec_index()] is Some
            } by {
                assert(before.bombs[k].1.exploded ==> before.bombs[k].1.who_exploded is Some);
            }
        }
        let mut enemies_killed: u32 = 0;
        let mut k: usize = 0;
        let mut stopped = false;
        while k < self.enemies.len() && !stopped
            invariant
                before == old(self)@,
                before.wf(),
                struck == before.struck_bombs(*contacts),
                self.players@ == before.players,
                self.life_counter == before.life_counter,
                self.bombs@ == struck,
                self.enemies@.len() == before.enemies.len(),
                k <= self.enemies.len(),
                forall|b: int|
                    0 <= b < struck.len() && (#[trigger] struck[b]).1.exploded ==> {
                        &&& struck[b].1.who_exploded is Some
                        &&& before.players[struck[b].1.who_exploded.unwrap().spec_index()] is Some
                    },
                stopped ==> k > 0 && before.fatal_enemy(*contacts) == Some(k - 1),
                !stopped ==> before.fatal_enemy(*contacts) == first_fatal(
                    before.players,
                    *contacts,
                    struck,
                    before.enemies,
                    k as int,
                ),
                forall|j: int|
                    0 <= j < k ==> self.enemies@[j] == (
                        before.enemies[j].0,
                        enemy_after_contact(
                            before.players,
                            *contacts,
                            struck,
                            before.enemies[j].0,
                            before.enemies[j].1,
                        ),
                    ),
                forall|j: int| k <= j < self.enemies.len() ==> self.enemies@[j] == before.enemies[j],
                enemies_killed == absorptions(
                    before.players,
                    *contacts,
                    struck,
                    before.enemies,
                    if stopped {
                        k - 1
                    } else {
                        k as int
                    },
                ),
                enemies_killed <= k,
                self.killer == if stopped {
                    before.killer_after(*contacts)
                } else {
                    before.killer
                },
            decreases self.enemies.len() - k + if stopped { 0int } else { 1int },
        {
            let (id, enemy) = self.enemies[k];
            let color = match self.conversion(contacts, id) {
                Some(bomb) => {
                    proof {
                        lemma_converting_bomb_is_listed(struck, *contacts, id, 0);
                    }
                    match bomb.who_exploded {
                        Some(who) => match self.players[who.index()] {
                            Some(owner) => owner.entity.color,
                            None => enemy.entity.color,
                        },
                        None => enemy.entity.color,
                    }
                },
                None => enemy.entity.color,
            };
            assert(color == converted_color(before.players, *contacts, struck, id, enemy));
            let mut life = enemy.entity.life;
            if self.is_absorbed(contacts, id, color) {
                life = 0;
                enemies_killed += 1;
            } else if self.is_fatal(contacts, id, color, &enemy) {
                self.killer = Some((id, Enemy::new(0, color)));
                life = 0;
                stopped = true;
            }
            self.enemies.set(k, (id, Enemy { entity: Entity { color, life } }));
            k += 1;
        }
        proof {
            assert(self.enemies@ =~= before.struck_enemies(*contacts));
            lemma_collided_wf(before, *contacts);
        }
        self.prune();
        (enemies_killed, bombs_exploded)
    }

    /// One frame of the entities: ageing, then the collisions. Returns the
    /// number of enemies absorbed and the number of bombs exploded.
    pub fn update(&mut self, contacts: &Contacts) -> (counts: (u32, u32))
        requires
            old(self)@.wf(),
        ensures
            final(self)@ == old(self)@.aged().collided(*contacts),
            final(self)@.wf(),
            counts.0 == old(self)@.aged().enemies_killed(*contacts),
            counts.1 == old(self)@.aged().bombs_exploded(*contacts),
    {
        proof {
            lemma_aged_wf(self@);
        }
        self.update_state();
        self.process_collisions(contacts)
    }

    /// Keeps `enemy` under `id`, in the place of the enemy that had the id
    /// or else behind all others.
    pub fn insert_enemy(&mut self, id: usize, enemy: Enemy)
        requires
            old(self)@.wf(),
            enemy.entity.life > 0,
            old(self)@.enemies.len() < MAX_ENEMIES || position(old(self)@.enemies, id, 0) is Some,
        ensures
            final(self)@ == (Population {
                players: old(self)@.players,
                life_counter: old(self)@.life_counter,
                bombs: old(self)@.bombs,
                enemies: with_entry(old(self)@.enemies, id, enemy),
                killer: old(self)@.killer,
            }),
            final(self)@.wf(),
    {
        proof {
            lemma_with_entry_distinct(self@.enemies, id, enemy);
            lemma_position(self@.enemies, id, 0);
        }
        put(&mut self.enemies, id, enemy);
    }

    /// Keeps `bomb` under `id`, in the place of the bomb that had the id or
    /// else behind all others.
    pub fn insert_bomb(&mut self, id: usize, bomb: Bomb)
        requires
            old(self)@.wf(),
            bomb.entity.life > 0,
            bomb.exploded ==> bomb.who_exploded is Some
                && old(self)@.players[bomb.who_exploded.unwrap().spec_index()] is Some,
            old(self)@.bombs.len() < MAX_BOMBS || position(old(self)@.bombs, id, 0) is Some,
        ensures
            final(self)@ == (Population {
                players: old(self)@.players,
                life_counter: old(self)@.life_counter,
                bombs: with_entry(old(self)@.bombs, id, bomb),
                enemies: old(self)@.enemies,
                killer: old(self)@.killer,
            }),
            final(self)@.wf(),
    {
        proof {
            lemma_with_entry_distinct(self@.bombs, id, bomb);
            lemma_position(self@.bombs, id, 0);
        }
        put(&mut self.bombs, id, bomb);
    }

    /// Lets one frame pass for every enemy and bomb, then removes the dead.
    ///
    /// The host moves the bodies; here the lives are counted down.
    pub fn update_state(&mut self)
        requires
            old(self)@.all_alive(),
        ensures
            final(self)@ == old(self)@.aged(),
    {
        let mut enemies: Vec<(usize, Enemy)> = Vec::new();
        let mut i: usize = 0;
        while i < self.enemies.len()
            invariant
                *self == *old(self),
                self@.all_alive(),
                i <= self.enemies.len(),
                enemies@.len() == i,
                forall|k: int| 0 <= k < i ==> enemies@[k] == aged_enemies(self.enemies@)[k],
            decreases self.enemies.len() - i,
        {
            let (id, mut enemy) = self.enemies[i];
            assert(self@.enemies[i as int].1.entity.life > 0);
            enemy.update();
            enemies.push((id, enemy));
            i += 1;
        }
        let mut bombs: Vec<(usize, Bomb)> = Vec::new();
        let mut j: usize = 0;
        while j < self.bombs.len()
            invariant
                *self == *old(self),
                self@.all_alive(),
                j <= self.bombs.len(),
                bombs@.len() == j,
                forall|k: int| 0 <= k < j ==> bombs@[k] == aged_bombs(self.bombs@)[k],
            decreases self.bombs.len() - j,
        {
            let (id, mut bomb) = self.bombs[j];
            assert(self@.bombs[j as int].1.entity.life > 0);
            bomb.update();
            bombs.push((id, bomb));
            j += 1;
        }
        proof {
            assert(enemies@ =~= aged_enemies(self.enemies@));
            assert(bombs@ =~= aged_bombs(self.bombs@));
        }
        self.enemies = enemies;
        self.bombs = bombs;
        self.prune();
    }

    /// Removes the dead enemies and bombs.
    pub fn prune(&mut self)
        ensures
            final(self)@ == (Population {
                players: old(self)@.players,
                life_counter: old(self)@.life_counter,
                bombs: live_bombs(old(self)@.bombs),
                enemies: live_enemies(old(self)@.enemies),
                killer: old(self)@.killer,
            }),
    {
        let mut enemies: Vec<(usize, Enemy)> = Vec::new();
        let mut i: usize = 0;
        proof {
            assert(self.enemies@.take(0) =~= Seq::empty());
            reveal(Seq::filter);
        }
        while i < self.enemies.len()
            invariant
                i <= self.enemies.len(),
                enemies@ == live_enemies(self.enemies@.take(i as int)),
            decreases self.enemies.len() - i,
        {
            let entry = self.enemies[i];
            proof {
                let before = self.enemies@.take(i as int);
                assert(self.enemies@.take(i + 1) =~= before.push(entry));
                before.lemma_filter_push(entry, |e: (usize, Enemy)| e.1.entity.life > 0);
            }
            if entry.1.entity.life > 0 {
                enemies.push(entry);
            }
            i += 1;
        }
        let mut bombs: Vec<(usize, Bomb)> = Vec::new();
        let mut j: usize = 0;
        proof {
            assert(self.enemies@.take(self.enemies.len() as int) =~= self.enemies@);
            assert(self.bombs@.take(0) =~= Seq::empty());
            reveal(Seq::filter);
        }
        while j < self.bombs.len()
            invariant
                j <= self.bombs.len(),
                bombs@ == live_bombs(self.bombs@.take(j as int)),
            decreases self.bombs.len() - j,
        {
            let entry = self.bombs[j];
            proof {
                let before = self.bombs@.take(j as int);
                assert(self.bombs@.take(j + 1) =~= before.push(entry));
                before.lemma_filter_push(entry, |b: (usize, Bomb)| b.1.entity.life > 0);
            }
            if entry.1.entity.life > 0 {
                bombs.push(entry);
            }
            j += 1;
        }
        proof {
            assert(self.bombs@.take(self.bombs.len() as int) =~= self.bombs@);
        }
        self.enemies = enemies;
        self.bombs = bombs;
    }
}

} // verus!
