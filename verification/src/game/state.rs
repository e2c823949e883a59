//! The mathematical model of the game: its state, and what the input and
//! the frames make of it.
//!
//! The functions of the game are specified over this model, and
//! what holds of every game is proved here.

use vstd::prelude::*;
use crate::common::calibrations::{
    seed_for, BOMB_FRAME_FREQ, DEATH_COUNTDOWN_DURATION, DIFFICULTY_LEVELS,
    DIFF_MUL_PROGRESSION, ENEMY_FRAME, EN_COL_FRAME, INIT_DIFFICULTY, INIT_LIVES, MAX_BOMBS,
    MAX_ENEMIES, MAX_SCORE, MUSIC_SPEED_CTRL, NEXT_LIFE_SCORE, RESPITE_DURATION, SPAWN_SITES,
};
use crate::entities::bomb::Bomb;
use crate::entities::contacts::Contacts;
use crate::entities::enemy::Enemy;
use crate::entities::entity::Entity;
use crate::entities::player::{toggled, Player, PlayerN};
use crate::entities::population::{
    lemma_aged_wf, lemma_collided_wf, lemma_with_entry_distinct, with_entry, Population,
};
use crate::game::controls::{ControlEvent, Controls, Peripherals};
use crate::game::environment::SPACE_PIXELS;
use crate::game::flags::Flags;
use crate::game::scores::{multiplier_after, score_after, Scores};
use crate::game::timers::{next_tick, Timers};
use crate::graphics::draw_utils::{hud, DrawCommand};
use crate::graphics::palette::{DRAW_COLOR_B, PALETTE_COUNT};
use crate::graphics::screen::{
    game_over_screen, how_to_play_screen, restart_is_dark, title_screen, ScreenName,
};
use crate::sound::music::{song_of, GAME_OVER_SONG, INTRO_SONG, SONG_COUNT, VOICE_NOTES};

verus! {

/// The mathematical content of a game. Of the random number generator it
/// holds the seed that the generator was made from, and no more: the
/// generator moves on with every number that is drawn.
pub struct GameState {
    pub entities: Population,
    pub timers: Timers,
    pub difficulty: u32,
    pub score_next_life: u32,
    pub enemy_color: u16,
    pub seed: u64,
    pub scores: Scores,
    pub flags: Flags,
    pub space: Seq<(u8, u8)>,
    pub palette_n: u8,
    pub song_nr: u8,
    pub controls: Controls,
    /// Whether the frame is one of play whose contacts are still awaited.
    pub playing: bool,
}

/// A movement that a player asks for and the game lets pass. The host
/// applies it to the player's heading.
#[derive(Clone, Copy, Debug, PartialEq, Eq)]
pub enum Steer {
    Left(PlayerN),
    Down(PlayerN),
    Up(PlayerN),
    Right(PlayerN),
    /// The first player heads for this point of the screen.
    Toward((i16, i16)),
}

/// The kind of frame that the first half of a frame has found.
#[derive(Clone, Copy, Debug, PartialEq, Eq, Structural)]
pub enum Stage {
    /// The title screen is shown.
    Title,
    /// The instructions are shown.
    HowToPlay,
    /// The game is over and waits to be restarted.
    GameOver,
    /// A death is played out: the world stands still.
    DeathFreeze,
    /// The lives have run out in this frame: the game has just ended.
    GameEnded,
    /// A frame of play. The host moves the bodies, measures the contacts
    /// and asks for the second half.
    Play,
}

/// Whether (`x`, `y`) is one of the places where enemies appear.
pub open spec fn is_spawn_site(x: u32, y: u32) -> bool {
    exists|site: int| 0 <= site < 8 && #[trigger] SPAWN_SITES[site] == (x, y)
}

/// The difficulty level that goes with a multiplier: the position of the
/// first threshold, from `from` on, that lies above it. Beyond the last
/// threshold there is none.
pub open spec fn level_for(multiplier: u32, from: int) -> Option<int>
    decreases 9 - from,
{
    if from < 0 || from >= 9 {
        None
    } else if multiplier < DIFF_MUL_PROGRESSION[from] {
        Some(from)
    } else {
        level_for(multiplier, from + 1)
    }
}

/// The difficulty after it was adjusted to the multiplier: it never falls.
pub open spec fn leveled(difficulty: u32, multiplier: u32) -> u32 {
    match level_for(multiplier, 0) {
        Some(level) => if level > difficulty {
            level as u32
        } else {
            difficulty
        },
        None => difficulty,
    }
}

/// What the events of a frame have led to so far.
pub struct Handled {
    pub players: Seq<Option<Player>>,
    pub palette_n: u8,
    pub steering: Seq<Steer>,
    pub joined: nat,
    pub palette_set: bool,
    pub continue_action: bool,
}

/// The player with the other colour.
pub open spec fn recolored(player: Player) -> Player {
    Player {
        entity: Entity { color: toggled(player.entity.color), life: player.entity.life },
        player_number: player.player_number,
    }
}

/// The players after the one in slot `n`, if there is one and movement is
/// enabled, has switched colour.
pub open spec fn with_switch(players: Seq<Option<Player>>, enabled: bool, n: PlayerN) -> Seq<
    Option<Player>,
> {
    if enabled && players[n.spec_index()] is Some {
        players.update(n.spec_index(), Some(recolored(players[n.spec_index()].unwrap())))
    } else {
        players
    }
}

/// The players after a new one has taken the empty slot `n`: the newcomer
/// brings the first player, who holds the lives of all, a bonus.
pub open spec fn with_newcomer(players: Seq<Option<Player>>, n: PlayerN) -> Seq<Option<Player>> {
    let joined = players.update(n.spec_index(), Some(Player::spec_new(n)));
    match joined[0] {
        Some(first) => joined.update(
            0,
            Some(
                Player {
                    entity: Entity {
                        color: first.entity.color,
                        life: (first.entity.life + INIT_LIVES) as u32,
                    },
                    player_number: first.player_number,
                },
            ),
        ),
        None => joined,
    }
}

/// The movement `steer`, if movement is enabled and the player in slot `n`
/// is there.
pub open spec fn steered(h: Handled, enabled: bool, n: PlayerN, steer: Steer) -> Handled {
    if enabled && h.players[n.spec_index()] is Some {
        Handled { steering: h.steering.push(steer), ..h }
    } else {
        h
    }
}

/// The next palette is selected.
pub open spec fn palette_advanced(h: Handled) -> Handled {
    Handled { palette_n: ((h.palette_n + 1) % 10) as u8, palette_set: true, ..h }
}

/// What one event leads to.
///
/// A direction steers the player, and so does holding the mouse for the
/// first player. The first button switches the player's colour, lets a new
/// player join if the slot is empty, and counts as a wish to go on; the
/// right mouse button switches the first player's colour and the left one
/// counts as a wish to go on. The second button and the middle mouse button
/// select the next palette. While a death is played out, nobody steers or
/// switches colour.
pub open spec fn handle(h: Handled, enabled: bool, event: ControlEvent) -> Handled {
    match event {
        ControlEvent::Left(n) => steered(h, enabled, n, Steer::Left(n)),
        ControlEvent::Down(n) => steered(h, enabled, n, Steer::Down(n)),
        ControlEvent::Up(n) => steered(h, enabled, n, Steer::Up(n)),
        ControlEvent::Right(n) => steered(h, enabled, n, Steer::Right(n)),
        ControlEvent::Btn1(n) => {
            if h.players[n.spec_index()] is None {
                Handled {
                    players: with_newcomer(h.players, n),
                    joined: h.joined + 1,
                    continue_action: true,
                    ..h
                }
            } else {
                Handled { players: with_switch(h.players, enabled, n), continue_action: true, ..h }
            }
        },
        ControlEvent::Btn2(_) => palette_advanced(h),
        ControlEvent::MouseRightClick => Handled {
            players: with_switch(h.players, enabled, PlayerN::P1),
            ..h
        },
        ControlEvent::MouseLeftClick => Handled { continue_action: true, ..h },
        ControlEvent::MouseMiddleClick => palette_advanced(h),
        ControlEvent::MouseLeftHold(at) => steered(h, enabled, PlayerN::P1, Steer::Toward(at)),
    }
}

/// What the first `n` of the events lead to, one after the other.
pub open spec fn handle_all(h: Handled, enabled: bool, events: Seq<ControlEvent>, n: int) -> Handled
    decreases n,
{
    if n <= 0 {
        h
    } else {
        handle(handle_all(h, enabled, events, n - 1), enabled, events[n - 1])
    }
}

/// The most lives the first player can ever hold.
pub const LIVES_CAP: u32 = 26;

/// Twice `n`, or the largest number if that is too much.
pub open spec fn doubled(n: u32) -> u32 {
    if 2 * n > u32::MAX {
        u32::MAX
    } else {
        (2 * n) as u32
    }
}

/// How many extra lives can still be granted while the next one is due
/// beyond the score `next`: the threshold doubles with each grant, and no
/// score passes the cap.
pub open spec fn grants_left(next: u32) -> nat
    decreases
            if next >= MAX_SCORE {
                0
            } else {
                MAX_SCORE - next
            },
{
    if next == 0 || next >= MAX_SCORE {
        0
    } else {
        1 + grants_left(doubled(next))
    }
}

/// Number of players who have joined.
pub open spec fn present(players: Seq<Option<Player>>) -> nat {
    (if players[0] is Some { 1nat } else { 0nat }) + (if players[1] is Some { 1nat } else { 0nat })
        + (if players[2] is Some { 1nat } else { 0nat }) + (if players[3] is Some {
        1nat
    } else {
        0nat
    })
}

/// The players at the start of a game: the first alone, with `lives` lives.
pub open spec fn first_player_alone(lives: u32) -> Seq<Option<Player>> {
    seq![
        Some(
            Player { entity: Entity { color: DRAW_COLOR_B, life: lives }, player_number: PlayerN::P1 },
        ),
        None,
        None,
        None,
    ]
}

impl GameState {
    /// The lives that the first player holds: the pool that all players share.
    pub open spec fn lives(self) -> u32 {
        self.entities.players[0].unwrap().entity.life
    }

    /// The lives held, those that the score can still earn and those that
    /// players who have not joined yet would bring never exceed the cap.
    pub open spec fn lives_bounded(self) -> bool {
        self.lives() + grants_left(self.score_next_life) + INIT_LIVES * (4 - present(
            self.entities.players,
        )) <= LIVES_CAP
    }

    /// Every star of the background lies on the screen.
    pub open spec fn stars_on_screen(self) -> bool {
        &&& self.space.len() == SPACE_PIXELS
        &&& forall|i: int|
            0 <= i < self.space.len() ==> (#[trigger] self.space[i]).0 < 160 && self.space[i].1 < 160
    }

    /// The invariant of the game.
    pub open spec fn wf(self) -> bool {
        &&& self.entities.wf()
        &&& self.entities.players[0] is Some
        &&& self.difficulty < DIFFICULTY_LEVELS
        &&& self.palette_n < PALETTE_COUNT
        &&& self.song_nr < SONG_COUNT
        &&& self.scores.current <= MAX_SCORE
        &&& self.score_next_life >= NEXT_LIFE_SCORE
        &&& self.lives_bounded()
        &&& self.stars_on_screen()
        &&& self.playing ==> self.flags.current_screen == ScreenName::MainGame
            && self.entities.killer is None
    }

    /// The state of the input handling before the first event.
    pub open spec fn unhandled(self) -> Handled {
        Handled {
            players: self.entities.players,
            palette_n: self.palette_n,
            steering: Seq::empty(),
            joined: 0,
            palette_set: false,
            continue_action: false,
        }
    }

    /// What the events that lead to the registers `now` lead to.
    pub open spec fn handled(self, now: Peripherals) -> Handled {
        let events = self.controls.events(now);
        handle_all(self.unhandled(), self.entities.killer is None, events, events.len() as int)
    }

    /// Whether the input `now` starts the game afresh: somebody wishes to
    /// go on, on the instructions or over a finished game.
    pub open spec fn restarts(self, now: Peripherals) -> bool {
        self.handled(now).continue_action && (self.flags.current_screen == ScreenName::HowToPlay
            || self.flags.current_screen == ScreenName::GameOver)
    }

    /// The game after the events that lead to the registers `now`, before
    /// a wish to go on is followed.
    pub open spec fn heard_only(self, now: Peripherals) -> GameState {
        let h = self.handled(now);
        GameState {
            entities: Population { players: h.players, ..self.entities },
            palette_n: h.palette_n,
            controls: Controls::remembering(now),
            ..self
        }
    }

    /// The game after the input `now`. Where the input starts the game
    /// afresh, `space` is the new background.
    pub open spec fn listened(self, now: Peripherals, space: Seq<(u8, u8)>) -> GameState {
        let h = self.handled(now);
        let heard = self.heard_only(now);
        if self.restarts(now) {
            heard.restarted(space)
        } else if h.continue_action && self.flags.current_screen == ScreenName::Title {
            GameState {
                flags: Flags {
                    current_screen: ScreenName::HowToPlay,
                    new_high_score: self.flags.new_high_score,
                },
                ..heard
            }
        } else {
            heard
        }
    }

    /// Whether the best score is shown: always, but that it blinks over a
    /// finished game that has beaten it.
    pub open spec fn shows_high_score(self) -> bool {
        self.flags.current_screen != ScreenName::GameOver || !self.flags.new_high_score
            || restart_is_dark(self.timers.frame_count)
    }

    /// The heads-up display of this state.
    pub open spec fn hud_drawn(self) -> Seq<DrawCommand> {
        hud(
            self.lives(),
            self.scores.current,
            self.scores.high,
            self.scores.multiplier,
            self.shows_high_score(),
        )
    }

    /// The kind of frame that follows from this state, once the input has
    /// been heard.
    pub open spec fn stage(self) -> Stage {
        match self.flags.current_screen {
            ScreenName::Title => Stage::Title,
            ScreenName::HowToPlay => Stage::HowToPlay,
            ScreenName::GameOver => Stage::GameOver,
            ScreenName::MainGame => if self.entities.killer is Some {
                Stage::DeathFreeze
            } else if self.lives() == 0 {
                Stage::GameEnded
            } else {
                Stage::Play
            },
        }
    }

    /// Whether the killer is shown in this frame of a death: it blinks.
    pub open spec fn killer_shown(self) -> bool {
        self.timers.death_countdown / 10 % 2 != 0
    }

    /// One frame of a death: the countdown runs; at its end the enemies
    /// and the killer are gone and a respite begins.
    pub open spec fn death_ticked(self) -> GameState {
        if self.timers.death_countdown <= 1 {
            GameState {
                entities: Population { enemies: Seq::empty(), killer: None, ..self.entities },
                timers: Timers {
                    death_countdown: DEATH_COUNTDOWN_DURATION,
                    respite: RESPITE_DURATION,
                    ..self.timers
                },
                ..self
            }
        } else {
            GameState {
                timers: Timers {
                    death_countdown: (self.timers.death_countdown - 1) as usize,
                    ..self.timers
                },
                ..self
            }
        }
    }

    /// The best score once this game has ended.
    pub open spec fn final_high_score(self) -> u32 {
        if self.scores.current > self.scores.high {
            self.scores.current
        } else {
            self.scores.high
        }
    }

    /// The end of the game: the screen changes, the best score is brought
    /// up to the score, the last song starts from its beginning.
    pub open spec fn ended(self) -> GameState {
        GameState {
            flags: Flags {
                current_screen: ScreenName::GameOver,
                new_high_score: self.scores.current > self.scores.high,
            },
            scores: Scores { high: self.final_high_score(), ..self.scores },
            song_nr: GAME_OVER_SONG,
            timers: Timers { song_tick: 0, ..self.timers },
            ..self
        }
    }

    /// The state with the clock advanced and the input heard. A frame of
    /// play that was never completed is given up.
    pub open spec fn heard(self, now: Peripherals, space: Seq<(u8, u8)>) -> GameState {
        (GameState { timers: self.timers.ticked(), playing: false, ..self }).listened(now, space)
    }

    /// The state after the first half of a frame, given the state with the
    /// input heard.
    pub open spec fn staged(self) -> GameState {
        match self.stage() {
            Stage::DeathFreeze => self.death_ticked(),
            Stage::GameEnded => self.ended(),
            Stage::Play => GameState {
                difficulty: leveled(self.difficulty, self.scores.multiplier),
                playing: true,
                ..self
            },
            _ => self,
        }
    }

    /// What the first half of a frame paints on top of the background,
    /// given the state with the input heard.
    pub open spec fn screen_drawn(self) -> Seq<DrawCommand> {
        match self.stage() {
            Stage::Title => title_screen(self.timers.frame_count),
            Stage::HowToPlay => how_to_play_screen(self.timers.frame_count),
            Stage::GameOver => self.hud_drawn() + game_over_screen(self.timers.frame_count),
            Stage::DeathFreeze => self.hud_drawn() + seq![DrawCommand::Players] + (
            if self.killer_shown() {
                seq![DrawCommand::Killer]
            } else {
                Seq::empty()
            }),
            _ => self.hud_drawn(),
        }
    }

    /// The entities after the ageing and the collisions of this frame.
    pub open spec fn struck(self, contacts: Contacts) -> Population {
        self.entities.aged().collided(contacts)
    }

    /// Number of enemies absorbed in this frame.
    pub open spec fn kills(self, contacts: Contacts) -> nat {
        self.entities.aged().enemies_killed(contacts)
    }

    /// Number of bombs exploded in this frame.
    pub open spec fn blasts(self, contacts: Contacts) -> nat {
        self.entities.aged().bombs_exploded(contacts)
    }

    /// The score after this frame.
    pub open spec fn scored(self, contacts: Contacts) -> Scores {
        Scores {
            current: score_after(
                self.scores.current,
                self.scores.multiplier,
                self.kills(contacts) as u32,
                self.blasts(contacts) as u32,
            ),
            multiplier: multiplier_after(
                self.scores.multiplier,
                self.kills(contacts) as u32,
                self.blasts(contacts) as u32,
            ),
            high: self.scores.high,
        }
    }

    /// Whether this frame earns an extra life: the score has passed the
    /// threshold.
    pub open spec fn grants_life(self, contacts: Contacts) -> bool {
        self.scored(contacts).current > self.score_next_life
    }

    /// Whether a player dies in this frame.
    pub open spec fn dies(self, contacts: Contacts) -> bool {
        self.struck(contacts).killer is Some
    }

    /// The lives after this frame: one more for an extra life, one fewer
    /// for a death.
    pub open spec fn lives_after(self, contacts: Contacts) -> u32 {
        let earned = if self.grants_life(contacts) {
            self.lives() + 1
        } else {
            self.lives() as int
        };
        if self.dies(contacts) && earned > 0 {
            (earned - 1) as u32
        } else {
            earned as u32
        }
    }

    /// The colour of new enemies in this frame. It switches at the cadence
    /// of the difficulty level.
    pub open spec fn enemy_color_now(self) -> u16 {
        if self.timers.frame_count % EN_COL_FRAME[self.difficulty as int] == 0 {
            toggled(self.enemy_color)
        } else {
            self.enemy_color
        }
    }

    /// Whether an enemy appears in this frame: at the cadence of the
    /// difficulty level, unless the field is full or a respite is on.
    pub open spec fn spawns_enemy(self, contacts: Contacts) -> bool {
        &&& self.timers.frame_count % ENEMY_FRAME[self.difficulty as int] == 0
        &&& self.struck(contacts).enemies.len() < MAX_ENEMIES
        &&& self.timers.respite == 0
    }

    /// Whether a bomb appears in this frame: at a fixed cadence, unless
    /// the field is full.
    pub open spec fn spawns_bomb(self, contacts: Contacts) -> bool {
        &&& self.timers.frame_count % BOMB_FRAME_FREQ == 0
        &&& self.struck(contacts).bombs.len() < MAX_BOMBS
    }

    /// The song after this frame: at the turn of the music, the song of
    /// the difficulty level takes over.
    pub open spec fn song_after(self) -> u8 {
        if (next_tick(self.timers.frame_count) / MUSIC_SPEED_CTRL) % VOICE_NOTES == 0 {
            song_of(self.difficulty)
        } else {
            self.song_nr
        }
    }

    /// The state after the second half of a frame of play.
    pub open spec fn simulated(self, contacts: Contacts) -> GameState {
        let struck = self.struck(contacts);
        let first = self.entities.players[0].unwrap();
        GameState {
            entities: Population {
                players: self.entities.players.update(
                    0,
                    Some(
                        Player {
                            entity: Entity {
                                color: first.entity.color,
                                life: self.lives_after(contacts),
                            },
                            player_number: first.player_number,
                        },
                    ),
                ),
                enemies: if self.spawns_enemy(contacts) {
                    with_entry(
                        struck.enemies,
                        self.timers.frame_count,
                        Enemy { entity: Entity { color: self.enemy_color_now(), life: Enemy::LIFE_SPAN } },
                    )
                } else {
                    struck.enemies
                },
                bombs: if self.spawns_bomb(contacts) {
                    with_entry(struck.bombs, self.timers.frame_count, Bomb::spec_new())
                } else {
                    struck.bombs
                },
                ..struck
            },
            scores: self.scored(contacts),
            score_next_life: if self.grants_life(contacts) {
                doubled(self.score_next_life)
            } else {
                self.score_next_life
            },
            enemy_color: self.enemy_color_now(),
            song_nr: self.song_after(),
            playing: false,
            ..self
        }
    }

    /// A game that has not been started: the title screen, the first
    /// player alone with a single life.
    pub open spec fn initial(high_score: u32, now: Peripherals, space: Seq<(u8, u8)>) -> GameState {
        GameState {
            entities: Population {
                players: first_player_alone(1),
                life_counter: INIT_LIVES,
                bombs: Seq::empty(),
                enemies: Seq::empty(),
                killer: None,
            },
            timers: Timers::spec_new(),
            difficulty: INIT_DIFFICULTY,
            score_next_life: NEXT_LIFE_SCORE,
            enemy_color: DRAW_COLOR_B,
            seed: seed_for(0),
            scores: Scores { current: 0, multiplier: 1, high: high_score },
            flags: Flags { current_screen: ScreenName::Title, new_high_score: false },
            space,
            palette_n: 0,
            song_nr: INTRO_SONG,
            controls: Controls::remembering(now),
            playing: false,
        }
    }

    /// The game started afresh: no enemies and no bombs, the first player
    /// alone with the lives a game starts with, score and multiplier as at
    /// the beginning, the clock at zero, the random numbers seeded from the
    /// frame count that the clock had reached. The best score and the
    /// memory of the input registers stay; the background is `space`.
    pub open spec fn restarted(self, space: Seq<(u8, u8)>) -> GameState {
        GameState {
            entities: Population {
                players: first_player_alone(INIT_LIVES),
                life_counter: INIT_LIVES,
                bombs: Seq::empty(),
                enemies: Seq::empty(),
                killer: None,
            },
            timers: Timers::spec_new(),
            difficulty: INIT_DIFFICULTY,
            score_next_life: NEXT_LIFE_SCORE,
            enemy_color: DRAW_COLOR_B,
            seed: seed_for(self.timers.frame_count),
            scores: Scores { current: 0, multiplier: 1, high: self.scores.high },
            flags: Flags { current_screen: ScreenName::MainGame, new_high_score: false },
            space,
            palette_n: 0,
            song_nr: INTRO_SONG,
            controls: self.controls,
            playing: false,
        }
    }
}

/// The players are as the game needs them, and their lives fit `budget`.
pub open spec fn roster_fits(players: Seq<Option<Player>>, budget: int) -> bool {
    &&& players.len() == 4
    &&& players[0] is Some
    &&& forall|n: int|
        0 <= n < 4 && (#[trigger] players[n]) is Some ==> players[n].unwrap().player_number.spec_index()
            == n
    &&& players[0].unwrap().entity.life + INIT_LIVES * (4 - present(players)) <= budget
}

/// An event keeps the players as the game needs them, takes none away, and
/// keeps the palette among those there are.
pub(crate) proof fn lemma_handle_keeps_roster(h: Handled, enabled: bool, event: ControlEvent, budget: int)
    requires
        roster_fits(h.players, budget),
        h.palette_n < 10,
    ensures
        roster_fits(handle(h, enabled, event).players, budget),
        handle(h, enabled, event).palette_n < 10,
        !handle(h, enabled, event).palette_set ==> !h.palette_set && handle(
            h,
            enabled,
            event,
        ).palette_n == h.palette_n,
        forall|n: int|
            0 <= n < 4 && h.players[n] is Some ==> (#[trigger] handle(
                h,
                enabled,
                event,
            ).players[n]) is Some,
{
    let after = handle(h, enabled, event);
    match event {
        ControlEvent::Btn1(n) => {
            if h.players[n.spec_index()] is None {
                assert(n.spec_index() != 0);
                assert(present(after.players) == present(h.players) + 1);
            } else {
                assert(present(after.players) == present(h.players));
            }
        },
        ControlEvent::MouseRightClick => {
            assert(present(after.players) == present(h.players));
        },
        _ => {},
    }
}

/// A level that goes with a multiplier is one of the levels.
proof fn lemma_level_is_a_level(multiplier: u32, from: int)
    requires
        0 <= from,
    ensures
        level_for(multiplier, from) matches Some(level) ==> from <= level < 9,
    decreases 9 - from,
{
    if from < 9 && multiplier >= DIFF_MUL_PROGRESSION[from] {
        lemma_level_is_a_level(multiplier, from + 1);
    }
}

/// The events keep the players as the game needs them, take none away,
/// and keep the palette among those there are.
pub(crate) proof fn lemma_handle_all_keeps_roster(
    h: Handled,
    enabled: bool,
    events: Seq<ControlEvent>,
    n: int,
    budget: int,
)
    requires
        roster_fits(h.players, budget),
        h.palette_n < 10,
        0 <= n <= events.len(),
    ensures
        roster_fits(handle_all(h, enabled, events, n).players, budget),
        handle_all(h, enabled, events, n).palette_n < 10,
        !handle_all(h, enabled, events, n).palette_set ==> !h.palette_set && handle_all(
            h,
            enabled,
            events,
            n,
        ).palette_n == h.palette_n,
        forall|k: int|
            0 <= k < 4 && h.players[k] is Some ==> (#[trigger] handle_all(
                h,
                enabled,
                events,
                n,
            ).players[k]) is Some,
    decreases n,
{
    if n > 0 {
        lemma_handle_all_keeps_roster(h, enabled, events, n - 1, budget);
        lemma_handle_keeps_roster(handle_all(h, enabled, events, n - 1), enabled, events[n - 1], budget);
    }
}

/// Hearing the input keeps the invariant of the game.
pub(crate) proof fn lemma_heard_is_well_formed(game: GameState, now: Peripherals)
    requires
        game.wf(),
    ensures
        game.heard_only(now).wf(),
{
    let events = game.controls.events(now);
    let budget = LIVES_CAP - grants_left(game.score_next_life);
    lemma_handle_all_keeps_roster(
        game.unhandled(),
        game.entities.killer is None,
        events,
        events.len() as int,
        budget,
    );
    let heard = game.heard_only(now);
    assert(heard.entities.owners_present()) by {
        assert forall|i: int|
            0 <= i < heard.entities.bombs.len() && (#[trigger] heard.entities.bombs[i]).1.exploded implies {
            &&& heard.entities.bombs[i].1.who_exploded is Some
            &&& heard.entities.players[heard.entities.bombs[i].1.who_exploded.unwrap().spec_index()] is Some
        } by {
            assert(game.entities.bombs[i].1.exploded);
        }
    }
}

/// Difficulty: the level never falls while a game runs. Adjusting it to
/// the multiplier does not lower it; the first half of a frame does not
/// lower it unless the input starts the game afresh; the second half leaves
/// it as it is.
pub proof fn lemma_difficulty_never_falls(
    game: GameState,
    now: Peripherals,
    space: Seq<(u8, u8)>,
    contacts: Contacts,
)
    ensures
        leveled(game.difficulty, game.scores.multiplier) >= game.difficulty,
        !game.restarts(now) ==> game.heard(now, space).staged().difficulty >= game.difficulty,
        game.simulated(contacts).difficulty == game.difficulty,
{
    lemma_level_is_a_level(game.scores.multiplier, 0);
    let heard = game.heard(now, space);
    lemma_level_is_a_level(heard.scores.multiplier, 0);
}

/// Restart: a game that is started afresh has no score, the multiplier it
/// began with, no enemies and no bombs, and the first player alone with the
/// lives a game starts with; the best score is the one it had, and the
/// random numbers are seeded from the frame count. Starting it afresh once
/// more changes nothing but the seed, which then comes from a clock at zero.
pub proof fn lemma_restart_resets(game: GameState, space: Seq<(u8, u8)>)
    ensures
        game.restarted(space).scores.current == 0,
        game.restarted(space).scores.multiplier == 1,
        game.restarted(space).scores.high == game.scores.high,
        game.restarted(space).entities.enemies.len() == 0,
        game.restarted(space).entities.bombs.len() == 0,
        game.restarted(space).lives() == INIT_LIVES,
        present(game.restarted(space).entities.players) == 1,
        game.restarted(space).seed == seed_for(game.timers.frame_count),
        game.restarted(space).restarted(space) == (GameState {
            seed: seed_for(0),
            ..game.restarted(space)
        }),
{
}

/// Crowding: a frame of play never leaves more enemies or bombs on the
/// field than it has room for, however often they are due.
pub proof fn lemma_field_never_overflows(game: GameState, contacts: Contacts)
    requires
        game.wf(),
    ensures
        game.simulated(contacts).entities.enemies.len() <= MAX_ENEMIES,
        game.simulated(contacts).entities.bombs.len() <= MAX_BOMBS,
{
    lemma_aged_wf(game.entities);
    lemma_collided_wf(game.entities.aged(), contacts);
    let struck = game.struck(contacts);
    lemma_with_entry_distinct(
        struck.enemies,
        game.timers.frame_count,
        Enemy { entity: Entity { color: game.enemy_color_now(), life: Enemy::LIFE_SPAN } },
    );
    lemma_with_entry_distinct(struck.bombs, game.timers.frame_count, Bomb::spec_new());
}

/// Score: whatever a frame of play brings, the score stays within its cap.
pub proof fn lemma_score_stays_capped(game: GameState, contacts: Contacts)
    ensures
        game.simulated(contacts).scores.current <= MAX_SCORE,
{
}

/// Past the first threshold, at most fourteen extra lives can be earned.
pub(crate) proof fn lemma_grants_are_few(next: u32)
    requires
        next >= NEXT_LIFE_SCORE,
    ensures
        grants_left(next) <= 14,
{
    reveal_with_fuel(grants_left, 16);
}

/// From the first threshold on, fourteen extra lives can be earned.
pub(crate) proof fn lemma_grants_at_start()
    ensures
        grants_left(NEXT_LIFE_SCORE) == 14,
{
    reveal_with_fuel(grants_left, 16);
}

} // verus!
