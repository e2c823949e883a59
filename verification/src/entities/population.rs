//! The mathematical model of the entities: what a frame of ageing and a
//! frame of collisions make of them, and what holds of every frame.
//!
//! Enemies and bombs are sequences of entries, each an id with what is kept
//! under it, in the order in which they were inserted. Wherever the rules say
//! "the first", this order decides, and players are asked in slot order.

use vstd::prelude::*;
use crate::common::calibrations::{MAX_BOMBS, MAX_ENEMIES};
use crate::entities::bomb::Bomb;
use crate::entities::contacts::Contacts;
use crate::entities::enemy::Enemy;
use crate::entities::entity::Entity;
use crate::entities::player::{Player, PlayerN};

verus! {

/// The mathematical content of the entity manager.
pub struct Population {
    pub players: Seq<Option<Player>>,
    pub life_counter: u32,
    pub bombs: Seq<(usize, Bomb)>,
    pub enemies: Seq<(usize, Enemy)>,
    pub killer: Option<(usize, Enemy)>,
}

/// The enemies that are still alive, in their order.
pub open spec fn live_enemies(enemies: Seq<(usize, Enemy)>) -> Seq<(usize, Enemy)> {
    enemies.filter(|e: (usize, Enemy)| e.1.entity.life > 0)
}

/// The bombs that are still alive, in their order.
pub open spec fn live_bombs(bombs: Seq<(usize, Bomb)>) -> Seq<(usize, Bomb)> {
    bombs.filter(|b: (usize, Bomb)| b.1.entity.life > 0)
}

/// Every enemy one frame older.
pub open spec fn aged_enemies(enemies: Seq<(usize, Enemy)>) -> Seq<(usize, Enemy)> {
    Seq::new(
        enemies.len(),
        |i: int|
            (
                enemies[i].0,
                Enemy {
                    entity: Entity {
                        color: enemies[i].1.entity.color,
                        life: (enemies[i].1.entity.life - 1) as u32,
                    },
                },
            ),
    )
}

/// Every bomb one frame later.
pub open spec fn aged_bombs(bombs: Seq<(usize, Bomb)>) -> Seq<(usize, Bomb)> {
    Seq::new(bombs.len(), |i: int| (bombs[i].0, bombs[i].1.updated()))
}

/// Whether the bomb reaches the player in slot `n`, and the slot is taken.
pub open spec fn sets_off(
    players: Seq<Option<Player>>,
    contacts: Contacts,
    bomb: usize,
    n: PlayerN,
) -> bool {
    players[n.spec_index()] is Some && contacts.bomb_player(bomb, n)
}

/// The player who sets the bomb off: the first, in slot order, whom it reaches.
pub open spec fn bomb_trigger(
    players: Seq<Option<Player>>,
    contacts: Contacts,
    bomb: usize,
) -> Option<PlayerN> {
    if sets_off(players, contacts, bomb, PlayerN::P1) {
        Some(PlayerN::P1)
    } else if sets_off(players, contacts, bomb, PlayerN::P2) {
        Some(PlayerN::P2)
    } else if sets_off(players, contacts, bomb, PlayerN::P3) {
        Some(PlayerN::P3)
    } else if sets_off(players, contacts, bomb, PlayerN::P4) {
        Some(PlayerN::P4)
    } else {
        None
    }
}

/// Whether the contact of this frame makes the bomb explode.
pub open spec fn explodes(
    players: Seq<Option<Player>>,
    contacts: Contacts,
    id: usize,
    bomb: Bomb,
) -> bool {
    !bomb.exploded && bomb_trigger(players, contacts, id) is Some
}

/// The bomb after the players had their chance to set it off.
pub open spec fn bomb_after_contact(
    players: Seq<Option<Player>>,
    contacts: Contacts,
    id: usize,
    bomb: Bomb,
) -> Bomb {
    if explodes(players, contacts, id, bomb) {
        Bomb {
            entity: bomb.entity,
            exploded: true,
            who_exploded: bomb_trigger(players, contacts, id),
        }
    } else {
        bomb
    }
}

/// All bombs after the players had their chance to set them off.
pub open spec fn bombs_after_contact(
    players: Seq<Option<Player>>,
    contacts: Contacts,
    bombs: Seq<(usize, Bomb)>,
) -> Seq<(usize, Bomb)> {
    Seq::new(
        bombs.len(),
        |i: int| (bombs[i].0, bomb_after_contact(players, contacts, bombs[i].0, bombs[i].1)),
    )
}

/// How many of the first `n` bombs explode in this frame.
pub open spec fn explosions(
    players: Seq<Option<Player>>,
    contacts: Contacts,
    bombs: Seq<(usize, Bomb)>,
    n: int,
) -> nat
    decreases n,
{
    if n <= 0 {
        0
    } else {
        explosions(players, contacts, bombs, n - 1) + if explodes(
            players,
            contacts,
            bombs[n - 1].0,
            bombs[n - 1].1,
        ) {
            1nat
        } else {
            0nat
        }
    }
}

/// The exploded bomb that recolours the enemy: the first, from position
/// `from` on, that reaches it.
pub open spec fn converting_bomb(
    bombs: Seq<(usize, Bomb)>,
    contacts: Contacts,
    enemy: usize,
    from: int,
) -> Option<Bomb>
    decreases bombs.len() - from,
{
    if from < 0 || from >= bombs.len() {
        None
    } else if bombs[from].1.exploded && contacts.bomb_enemy(bombs[from].0, enemy) {
        Some(bombs[from].1)
    } else {
        converting_bomb(bombs, contacts, enemy, from + 1)
    }
}

/// The colour of the player who set the bomb off.
pub open spec fn owner_color(players: Seq<Option<Player>>, bomb: Bomb) -> u16 {
    players[bomb.who_exploded.unwrap().spec_index()].unwrap().entity.color
}

/// The colour of the enemy once the explosions have reached it.
pub open spec fn converted_color(
    players: Seq<Option<Player>>,
    contacts: Contacts,
    bombs: Seq<(usize, Bomb)>,
    id: usize,
    enemy: Enemy,
) -> u16 {
    match converting_bomb(bombs, contacts, id, 0) {
        Some(bomb) => owner_color(players, bomb),
        None => enemy.entity.color,
    }
}

/// Whether the player in slot `n` absorbs an enemy of this colour.
pub open spec fn absorbed_by(
    players: Seq<Option<Player>>,
    contacts: Contacts,
    id: usize,
    color: u16,
    n: PlayerN,
) -> bool {
    players[n.spec_index()] matches Some(p) && p.entity.color == color && contacts.enemy_player(
        id,
        n,
    )
}

/// Whether some player absorbs an enemy of this colour.
pub open spec fn absorbed(
    players: Seq<Option<Player>>,
    contacts: Contacts,
    id: usize,
    color: u16,
) -> bool {
    absorbed_by(players, contacts, id, color, PlayerN::P1) || absorbed_by(
        players,
        contacts,
        id,
        color,
        PlayerN::P2,
    ) || absorbed_by(players, contacts, id, color, PlayerN::P3) || absorbed_by(
        players,
        contacts,
        id,
        color,
        PlayerN::P4,
    )
}

/// Whether an enemy of this colour runs into the player in slot `n`, who
/// wears the other colour.
pub open spec fn runs_into(
    players: Seq<Option<Player>>,
    contacts: Contacts,
    id: usize,
    color: u16,
    n: PlayerN,
) -> bool {
    players[n.spec_index()] matches Some(p) && p.entity.color != color
        && contacts.enemy_player_strict(id, n)
}

/// Whether the enemy, with the colour it has after the explosions, kills a
/// player: it is absorbed by nobody, it is past its grace window, and it
/// runs into a player of the other colour.
pub open spec fn fatal(
    players: Seq<Option<Player>>,
    contacts: Contacts,
    id: usize,
    color: u16,
    enemy: Enemy,
) -> bool {
    !absorbed(players, contacts, id, color) && !enemy.spec_just_spawned() && (runs_into(
        players,
        contacts,
        id,
        color,
        PlayerN::P1,
    ) || runs_into(players, contacts, id, color, PlayerN::P2) || runs_into(
        players,
        contacts,
        id,
        color,
        PlayerN::P3,
    ) || runs_into(players, contacts, id, color, PlayerN::P4))
}

/// The enemy after its own collisions were settled.
pub open spec fn enemy_after_contact(
    players: Seq<Option<Player>>,
    contacts: Contacts,
    bombs: Seq<(usize, Bomb)>,
    id: usize,
    enemy: Enemy,
) -> Enemy {
    let color = converted_color(players, contacts, bombs, id, enemy);
    if absorbed(players, contacts, id, color) || fatal(players, contacts, id, color, enemy) {
        Enemy { entity: Entity { color, life: 0 } }
    } else {
        Enemy { entity: Entity { color, life: enemy.entity.life } }
    }
}

/// Whether the enemy at position `i` kills a player.
pub open spec fn fatal_at(
    players: Seq<Option<Player>>,
    contacts: Contacts,
    bombs: Seq<(usize, Bomb)>,
    enemies: Seq<(usize, Enemy)>,
    i: int,
) -> bool {
    fatal(
        players,
        contacts,
        enemies[i].0,
        converted_color(players, contacts, bombs, enemies[i].0, enemies[i].1),
        enemies[i].1,
    )
}

/// Position of the first enemy, from `from` on, that kills a player.
pub open spec fn first_fatal(
    players: Seq<Option<Player>>,
    contacts: Contacts,
    bombs: Seq<(usize, Bomb)>,
    enemies: Seq<(usize, Enemy)>,
    from: int,
) -> Option<int>
    decreases enemies.len() - from,
{
    if from < 0 || from >= enemies.len() {
        None
    } else if fatal_at(players, contacts, bombs, enemies, from) {
        Some(from)
    } else {
        first_fatal(players, contacts, bombs, enemies, from + 1)
    }
}

/// How many of the first `n` enemies are absorbed.
pub open spec fn absorptions(
    players: Seq<Option<Player>>,
    contacts: Contacts,
    bombs: Seq<(usize, Bomb)>,
    enemies: Seq<(usize, Enemy)>,
    n: int,
) -> nat
    decreases n,
{
    if n <= 0 {
        0
    } else {
        absorptions(players, contacts, bombs, enemies, n - 1) + if absorbed(
            players,
            contacts,
            enemies[n - 1].0,
            converted_color(players, contacts, bombs, enemies[n - 1].0, enemies[n - 1].1),
        ) {
            1nat
        } else {
            0nat
        }
    }
}

impl Population {
    /// No id occurs twice, among the enemies or among the bombs.
    pub open spec fn ids_distinct(self) -> bool {
        distinct_ids(self.enemies) && distinct_ids(self.bombs)
    }

    /// Every enemy and every bomb that is kept is alive.
    pub open spec fn all_alive(self) -> bool {
        &&& forall|i: int| 0 <= i < self.enemies.len() ==> (#[trigger] self.enemies[i]).1.entity.life > 0
        &&& forall|i: int| 0 <= i < self.bombs.len() ==> (#[trigger] self.bombs[i]).1.entity.life > 0
    }

    /// Every exploded bomb names the player who set it off, and that player
    /// is still there.
    pub open spec fn owners_present(self) -> bool {
        forall|i: int|
            0 <= i < self.bombs.len() && (#[trigger] self.bombs[i]).1.exploded ==> {
                &&& self.bombs[i].1.who_exploded is Some
                &&& self.players[self.bombs[i].1.who_exploded.unwrap().spec_index()] is Some
            }
    }

    /// Every player sits in the slot of their own number.
    pub open spec fn slots_match(self) -> bool {
        forall|n: int|
            0 <= n < 4 && (#[trigger] self.players[n]) is Some
                ==> self.players[n].unwrap().player_number.spec_index() == n
    }

    /// The invariant of the entity collections.
    pub open spec fn wf(self) -> bool {
        &&& self.players.len() == 4
        &&& self.enemies.len() <= MAX_ENEMIES
        &&& self.bombs.len() <= MAX_BOMBS
        &&& self.ids_distinct()
        &&& self.all_alive()
        &&& self.owners_present()
        &&& self.slots_match()
    }

    /// One frame of ageing: enemies and exploded bombs lose one frame of
    /// life, and what has none left is removed.
    pub open spec fn aged(self) -> Population {
        Population {
            players: self.players,
            life_counter: self.life_counter,
            bombs: live_bombs(aged_bombs(self.bombs)),
            enemies: live_enemies(aged_enemies(self.enemies)),
            killer: self.killer,
        }
    }

    /// The bombs after the players' contacts, before the dead are removed.
    pub open spec fn struck_bombs(self, contacts: Contacts) -> Seq<(usize, Bomb)> {
        bombs_after_contact(self.players, contacts, self.bombs)
    }

    /// Position of the enemy that kills a player in this frame, if one does.
    pub open spec fn fatal_enemy(self, contacts: Contacts) -> Option<int> {
        first_fatal(self.players, contacts, self.struck_bombs(contacts), self.enemies, 0)
    }

    /// The enemies after their contacts, before the dead are removed. Once
    /// an enemy has killed a player, those behind it are left as they were.
    pub open spec fn struck_enemies(self, contacts: Contacts) -> Seq<(usize, Enemy)> {
        let stop = self.fatal_enemy(contacts);
        Seq::new(
            self.enemies.len(),
            |i: int|
                if stop is Some && i > stop.unwrap() {
                    self.enemies[i]
                } else {
                    (
                        self.enemies[i].0,
                        enemy_after_contact(
                            self.players,
                            contacts,
                            self.struck_bombs(contacts),
                            self.enemies[i].0,
                            self.enemies[i].1,
                        ),
                    )
                },
        )
    }

    /// Number of bombs that explode in this frame.
    pub open spec fn bombs_exploded(self, contacts: Contacts) -> nat {
        explosions(self.players, contacts, self.bombs, self.bombs.len() as int)
    }

    /// Number of enemies that are absorbed in this frame: those absorbed
    /// before a player is killed.
    pub open spec fn enemies_killed(self, contacts: Contacts) -> nat {
        let limit = match self.fatal_enemy(contacts) {
            Some(stop) => stop,
            None => self.enemies.len() as int,
        };
        absorptions(self.players, contacts, self.struck_bombs(contacts), self.enemies, limit)
    }

    /// The record of the killer after this frame's contacts: the id of
    /// the enemy that killed, and a fresh enemy in its colour.
    pub open spec fn killer_after(self, contacts: Contacts) -> Option<(usize, Enemy)> {
        match self.fatal_enemy(contacts) {
            Some(stop) => Some(
                (self.enemies[stop].0, Enemy {
                    entity: Entity {
                        color: converted_color(
                            self.players,
                            contacts,
                            self.struck_bombs(contacts),
                            self.enemies[stop].0,
                            self.enemies[stop].1,
                        ),
                        life: Enemy::LIFE_SPAN,
                    },
                }),
            ),
            None => self.killer,
        }
    }

    /// The collisions of one frame, resolved.
    pub open spec fn collided(self, contacts: Contacts) -> Population {
        Population {
            players: self.players,
            life_counter: self.life_counter,
            bombs: live_bombs(self.struck_bombs(contacts)),
            enemies: live_enemies(self.struck_enemies(contacts)),
            killer: self.killer_after(contacts),
        }
    }
}

/// Position of the first entry, from `from` on, that is kept under `id`.
pub open spec fn position<T>(entries: Seq<(usize, T)>, id: usize, from: int) -> Option<int>
    decreases entries.len() - from,
{
    if from < 0 || from >= entries.len() {
        None
    } else if entries[from].0 == id {
        Some(from)
    } else {
        position(entries, id, from + 1)
    }
}

/// The entries with `value` kept under `id`: in the place of the entry that
/// had the id, or else behind all others.
pub open spec fn with_entry<T>(entries: Seq<(usize, T)>, id: usize, value: T) -> Seq<(usize, T)> {
    match position(entries, id, 0) {
        Some(i) => entries.update(i, (id, value)),
        None => entries.push((id, value)),
    }
}

/// No id occurs twice among the entries.
pub open spec fn distinct_ids<T>(entries: Seq<(usize, T)>) -> bool {
    forall|i: int, j: int| 0 <= i < j < entries.len() ==> entries[i].0 != entries[j].0
}

/// What `position` finds holds the id, and what it does not find is absent.
pub(crate) proof fn lemma_position<T>(entries: Seq<(usize, T)>, id: usize, from: int)
    requires
        0 <= from,
    ensures
        match position(entries, id, from) {
            Some(i) => from <= i < entries.len() && entries[i].0 == id,
            None => forall|k: int| from <= k < entries.len() ==> entries[k].0 != id,
        },
    decreases entries.len() - from,
{
    if from < entries.len() && entries[from].0 != id {
        lemma_position(entries, id, from + 1);
    }
}

/// Putting an entry under an id keeps the ids apart.
pub(crate) proof fn lemma_with_entry_distinct<T>(entries: Seq<(usize, T)>, id: usize, value: T)
    requires
        distinct_ids(entries),
    ensures
        distinct_ids(with_entry(entries, id, value)),
        with_entry(entries, id, value).len() <= entries.len() + 1,
        position(entries, id, 0) is Some ==> with_entry(entries, id, value).len() == entries.len(),
{
    lemma_position(entries, id, 0);
}

/// Filtering keeps entries of the sequence, in their order, so that ids
/// that were apart stay apart.
proof fn lemma_filter_entries<T>(entries: Seq<(usize, T)>, pred: spec_fn((usize, T)) -> bool)
    ensures
        entries.filter(pred).len() <= entries.len(),
        forall|i: int|
            0 <= i < entries.filter(pred).len() ==> pred(#[trigger] entries.filter(pred)[i])
                && entries.contains(entries.filter(pred)[i]),
        distinct_ids(entries) ==> distinct_ids(entries.filter(pred)),
    decreases entries.len(),
{
    reveal(Seq::filter);
    if entries.len() > 0 {
        let front = entries.drop_last();
        let kept = front.filter(pred);
        lemma_filter_entries(front, pred);
        assert forall|i: int| 0 <= i < kept.len() implies entries.contains(#[trigger] kept[i]) by {
            let j = choose|j: int| 0 <= j < front.len() && front[j] == kept[i];
            assert(entries[j] == kept[i]);
        }
        if distinct_ids(entries) {
            assert(distinct_ids(front));
            if pred(entries.last()) {
                assert forall|i: int| 0 <= i < kept.len() implies (#[trigger] kept[i]).0
                    != entries.last().0 by {
                    let j = choose|j: int| 0 <= j < front.len() && front[j] == kept[i];
                    assert(entries[j].0 != entries[entries.len() - 1].0);
                }
            }
        }
    }
}

/// Ageing keeps the invariant.
pub proof fn lemma_aged_wf(before: Population)
    requires
        before.wf(),
    ensures
        before.aged().wf(),
{
    let enemies = aged_enemies(before.enemies);
    let bombs = aged_bombs(before.bombs);
    lemma_filter_entries(enemies, |e: (usize, Enemy)| e.1.entity.life > 0);
    lemma_filter_entries(bombs, |b: (usize, Bomb)| b.1.entity.life > 0);
    let after = before.aged();
    assert forall|i: int| 0 <= i < after.bombs.len() && (#[trigger] after.bombs[i]).1.exploded implies {
        &&& after.bombs[i].1.who_exploded is Some
        &&& after.players[after.bombs[i].1.who_exploded.unwrap().spec_index()] is Some
    } by {
        let j = choose|j: int| 0 <= j < bombs.len() && bombs[j] == after.bombs[i];
        assert(before.bombs[j].1.exploded);
    }
}

/// Resolving the collisions keeps the invariant.
pub proof fn lemma_collided_wf(before: Population, contacts: Contacts)
    requires
        before.wf(),
    ensures
        before.collided(contacts).wf(),
{
    let enemies = before.struck_enemies(contacts);
    let bombs = before.struck_bombs(contacts);
    lemma_filter_entries(enemies, |e: (usize, Enemy)| e.1.entity.life > 0);
    lemma_filter_entries(bombs, |b: (usize, Bomb)| b.1.entity.life > 0);
    let after = before.collided(contacts);
    assert forall|i: int| 0 <= i < after.bombs.len() && (#[trigger] after.bombs[i]).1.exploded implies {
        &&& after.bombs[i].1.who_exploded is Some
        &&& after.players[after.bombs[i].1.who_exploded.unwrap().spec_index()] is Some
    } by {
        let j = choose|j: int| 0 <= j < bombs.len() && bombs[j] == after.bombs[i];
        assert(before.bombs[j].1.exploded ==> before.bombs[j].1.who_exploded is Some);
    }
}

/// The bomb that recolours an enemy is one of the bombs, and has exploded.
pub(crate) proof fn lemma_converting_bomb_is_listed(
    bombs: Seq<(usize, Bomb)>,
    contacts: Contacts,
    enemy: usize,
    from: int,
)
    requires
        0 <= from,
    ensures
        converting_bomb(bombs, contacts, enemy, from) matches Some(bomb) ==> exists|i: int|
            from <= i < bombs.len() && (#[trigger] bombs[i]).1 == bomb && bomb.exploded,
    decreases bombs.len() - from,
{
    if from < bombs.len() {
        if bombs[from].1.exploded && contacts.bomb_enemy(bombs[from].0, enemy) {
        } else {
            lemma_converting_bomb_is_listed(bombs, contacts, enemy, from + 1);
        }
    }
}

/// What `first_fatal` finds kills a player, and nothing before it does.
proof fn lemma_first_fatal(
    players: Seq<Option<Player>>,
    contacts: Contacts,
    bombs: Seq<(usize, Bomb)>,
    enemies: Seq<(usize, Enemy)>,
    from: int,
)
    requires
        0 <= from,
    ensures
        match first_fatal(players, contacts, bombs, enemies, from) {
            Some(stop) => from <= stop < enemies.len() && fatal_at(
                players,
                contacts,
                bombs,
                enemies,
                stop,
            ),
            None => forall|i: int|
                from <= i < enemies.len() ==> !fatal_at(players, contacts, bombs, enemies, i),
        },
    decreases enemies.len() - from,
{
    if from < enemies.len() && !fatal_at(players, contacts, bombs, enemies, from) {
        lemma_first_fatal(players, contacts, bombs, enemies, from + 1);
    }
}

/// Grace: an enemy that has just spawned never kills a player, whatever it
/// touches.
pub proof fn lemma_grace_forbids_a_kill(
    players: Seq<Option<Player>>,
    contacts: Contacts,
    id: usize,
    color: u16,
    enemy: Enemy,
)
    requires
        enemy.spec_just_spawned(),
    ensures
        !fatal(players, contacts, id, color, enemy),
{
}

/// Grace, for a whole frame: the enemy that kills a player in a frame is
/// past its grace window; and where every enemy has just spawned, the
/// collisions record no killer, whatever touches.
pub proof fn lemma_grace_spares_the_players(before: Population, contacts: Contacts)
    ensures
        before.fatal_enemy(contacts) matches Some(stop) ==> 0 <= stop < before.enemies.len()
            && !before.enemies[stop].1.spec_just_spawned(),
        (forall|i: int| 0 <= i < before.enemies.len() ==> before.enemies[i].1.spec_just_spawned())
            ==> before.fatal_enemy(contacts) is None && before.collided(contacts).killer
            == before.killer,
{
    lemma_first_fatal(before.players, contacts, before.struck_bombs(contacts), before.enemies, 0);
}

/// Conversion: an enemy that an explosion reaches, and that no player
/// absorbs or dies of, takes the colour of the player who set the bomb off
/// and keeps its life.
pub proof fn lemma_conversion_only_recolours(
    players: Seq<Option<Player>>,
    contacts: Contacts,
    bombs: Seq<(usize, Bomb)>,
    id: usize,
    enemy: Enemy,
)
    requires
        converting_bomb(bombs, contacts, id, 0) is Some,
        !absorbed(players, contacts, id, converted_color(players, contacts, bombs, id, enemy)),
        !fatal(players, contacts, id, converted_color(players, contacts, bombs, id, enemy), enemy),
    ensures
        enemy_after_contact(players, contacts, bombs, id, enemy) == (Enemy {
            entity: Entity {
                color: owner_color(players, converting_bomb(bombs, contacts, id, 0).unwrap()),
                life: enemy.entity.life,
            },
        }),
{
}

/// Whether nothing touches the enemy `id` in this frame.
pub open spec fn untouched(contacts: Contacts, id: usize) -> bool {
    &&& forall|bomb: usize| !contacts.bomb_enemy(bomb, id)
    &&& forall|n: PlayerN| !contacts.enemy_player(id, n)
    &&& forall|n: PlayerN| !contacts.enemy_player_strict(id, n)
}

/// No bomb recolours an enemy that none reaches.
proof fn lemma_no_contact_no_conversion(
    bombs: Seq<(usize, Bomb)>,
    contacts: Contacts,
    enemy: usize,
    from: int,
)
    requires
        0 <= from,
        forall|bomb: usize| !contacts.bomb_enemy(bomb, enemy),
    ensures
        converting_bomb(bombs, contacts, enemy, from) is None,
    decreases bombs.len() - from,
{
    if from < bombs.len() {
        lemma_no_contact_no_conversion(bombs, contacts, enemy, from + 1);
    }
}

/// What is kept under a filter is in the result, and ids that occur once
/// occur at most once in it.
proof fn lemma_filter_keeps<T>(entries: Seq<(usize, T)>, pred: spec_fn((usize, T)) -> bool, i: int)
    requires
        0 <= i < entries.len(),
    ensures
        pred(entries[i]) ==> entries.filter(pred).contains(entries[i]),
        distinct_ids(entries) && !pred(entries[i]) ==> forall|k: int|
            0 <= k < entries.filter(pred).len() ==> (#[trigger] entries.filter(pred)[k]).0
                != entries[i].0,
{
    lemma_filter_entries(entries, pred);
    if distinct_ids(entries) && !pred(entries[i]) {
        let kept = entries.filter(pred);
        assert forall|k: int| 0 <= k < kept.len() implies (#[trigger] kept[k]).0
            != entries[i].0 by {
            let j = choose|j: int| 0 <= j < entries.len() && entries[j] == kept[k];
            assert(pred(entries[j]));
            assert(j != i);
        }
    }
}

/// Lifespan: in a frame in which nothing touches it, an enemy loses one
/// frame of life and nothing else; it stays while it has life left, and
/// leaves in the frame in which its life runs out.
pub proof fn lemma_untouched_enemy_ages_by_one(before: Population, contacts: Contacts, i: int)
    requires
        before.wf(),
        0 <= i < before.enemies.len(),
        untouched(contacts, before.enemies[i].0),
    ensures
        before.enemies[i].1.entity.life > 1 ==> before.aged().collided(contacts).enemies.contains(
            (
                before.enemies[i].0,
                Enemy {
                    entity: Entity {
                        color: before.enemies[i].1.entity.color,
                        life: (before.enemies[i].1.entity.life - 1) as u32,
                    },
                },
            ),
        ),
        before.enemies[i].1.entity.life == 1 ==> forall|k: int|
            0 <= k < before.aged().collided(contacts).enemies.len() ==> (
            #[trigger] before.aged().collided(contacts).enemies[k]).0 != before.enemies[i].0,
{
    let id = before.enemies[i].0;
    let alive = |e: (usize, Enemy)| e.1.entity.life > 0;
    let older = aged_enemies(before.enemies);
    let aged = before.aged();
    lemma_aged_wf(before);
    lemma_filter_keeps(older, alive, i);
    lemma_filter_entries(older, alive);
    let struck = aged.struck_enemies(contacts);
    lemma_filter_entries(struck, alive);
    if before.enemies[i].1.entity.life > 1 {
        let entry = older[i];
        let j = choose|j: int| 0 <= j < aged.enemies.len() && aged.enemies[j] == entry;
        lemma_no_contact_no_conversion(aged.struck_bombs(contacts), contacts, id, 0);
        assert(struck[j] == entry);
        lemma_filter_keeps(struck, alive, j);
    } else {
        let after = aged.collided(contacts).enemies;
        assert forall|k: int| 0 <= k < after.len() implies (#[trigger] after[k]).0 != id by {
            let j = choose|j: int| 0 <= j < struck.len() && struck[j] == after[k];
            assert(struck[j].0 == aged.enemies[j].0);
            assert(aged.enemies[j].0 != id);
        }
    }
}

} // verus!
