//! The frame-driven state machine and its parts.
//!
//! A frame has two halves. [`Game::update`] reads the input, decides which
//! screen the frame belongs to and says what to paint and play. Where the
//! frame is one of play, the host then moves the bodies, measures which of
//! them touch, and hands the contacts to [`Game::simulate`], which settles
//! the collisions, the score and the spawns.

pub mod controls;
pub mod environment;
pub mod flags;
pub mod scores;
pub mod state;
pub mod timers;

use vstd::prelude::*;
use fastrand::Rng;
use crate::common::calibrations::{
    spawn_site, Calibrations, BOMB_FRAME_FREQ, DEATH_COUNTDOWN_DURATION, DIFF_MUL_PROGRESSION,
    ENEMY_FRAME, EN_COL_FRAME, INIT_LIVES, MAX_BOMBS, MAX_ENEMIES, MAX_SCORE, MUSIC_SPEED_CTRL,
    NEXT_LIFE_SCORE, RESPITE_DURATION, SPAWN_SITES,
};
use crate::common::random::rng_usize_below;
use crate::entities::bomb::Bomb;
use crate::entities::contacts::Contacts;
use crate::entities::enemy::Enemy;
use crate::entities::entity::Entity;
use crate::entities::manager::EntityManager;
use crate::entities::player::{Player, PlayerN};
use crate::entities::population::{
    lemma_position, lemma_with_entry_distinct, with_entry, Population,
};
use crate::game::controls::{ControlEvent, Controls, Peripherals};
use crate::game::environment::{cue, space_drawn, Environment, SPACE_PIXELS};
use crate::game::flags::Flags;
use crate::game::scores::{multiplier_after, score_after, Scores};
use crate::game::state::{
    doubled, first_player_alone, grants_left, handle, handle_all, is_spawn_site,
    lemma_grants_are_few, lemma_grants_at_start, lemma_handle_all_keeps_roster,
    lemma_handle_keeps_roster,
    lemma_heard_is_well_formed, level_for, leveled, palette_advanced, present, roster_fits,
    steered, with_newcomer, with_switch, GameState, Handled, Stage, Steer, LIVES_CAP,
};
use crate::game::timers::Timers;
use crate::graphics::draw_utils::{draw_hud, DrawCommand};
use crate::graphics::palette::{DRAW_COLOR_A, DRAW_COLOR_B, PALETTES};
use crate::graphics::screen::{game_over, how_to_play, title, ScreenName};
use crate::sound::effects::{
    new_player, spec_bomb_explode, spec_death, spec_extra_life, spec_new_player, Tone,
};
use crate::sound::music::{song_for, song_tones, GAME_OVER_SONG, VOICE_NOTES};

verus! {

/// This is where everything comes together.
pub struct Game {
    entities: EntityManager,
    timers: Timers,
    calibrations: Calibrations,
    scores: Scores,
    flags: Flags,
    environment: Environment,
    controls: Controls,
    playing: bool,
}

impl View for Game {
    type V = GameState;

    closed spec fn view(&self) -> GameState {
        GameState {
            entities: self.entities@,
            timers: self.timers,
            difficulty: self.calibrations.difficulty,
            score_next_life: self.calibrations.score_next_life,
            enemy_color: self.calibrations.enemy_color,
            seed: self.calibrations.seed,
            scores: self.scores,
            flags: self.flags,
            space: self.environment.space@,
            palette_n: self.environment.palette_n,
            song_nr: self.environment.song_nr,
            controls: self.controls,
            playing: self.playing,
        }
    }
}

/// What the input of a frame asks of the host.
pub struct InputOutcome {
    /// The movements to apply, in the order of the events.
    pub steering: Vec<Steer>,
    /// One sound for each player who has joined.
    pub tones: Vec<Tone>,
    /// The colours to load, if the palette was switched.
    pub palette: Option<[u32; 4]>,
    /// Whether the game was started afresh.
    pub restarted: bool,
}

/// What the first half of a frame asks of the host.
pub struct Frame {
    pub stage: Stage,
    /// The tones of the music that are due.
    pub music: Vec<Tone>,
    /// The movements to apply, in the order of the events.
    pub steering: Vec<Steer>,
    /// The sounds to start.
    pub tones: Vec<Tone>,
    /// The colours to load, if the palette was switched.
    pub palette: Option<[u32; 4]>,
    /// Whether the game was started afresh, so that the bodies of the old
    /// game are to be dropped.
    pub restarted: bool,
    /// What to paint, in this order.
    pub draw: Vec<DrawCommand>,
    /// The best score to store, if the game has just ended.
    pub save_high_score: Option<u32>,
}

/// An enemy that has just appeared, for the host to give it a body.
#[derive(Clone, Copy, Debug, PartialEq, Eq)]
pub struct EnemySpawn {
    pub id: usize,
    /// The top left corner of the enemy's bounding box.
    pub x: u32,
    pub y: u32,
    pub color: u16,
}

/// What the second half of a frame of play reports to the host.
pub struct Simulated {
    pub enemies_killed: u32,
    pub bombs_exploded: u32,
    /// The enemy that has appeared in this frame.
    pub spawned_enemy: Option<EnemySpawn>,
    /// The id of the bomb that has appeared in this frame. The host draws
    /// its place from the game's random numbers.
    pub spawned_bomb: Option<usize>,
    /// The sounds to start.
    pub tones: Vec<Tone>,
    /// What to paint, in this order.
    pub draw: Vec<DrawCommand>,
}

/// The input handling of a frame while it goes through the events.
struct Hearing {
    players: [Option<Player>; 4],
    palette_n: u8,
    steering: Vec<Steer>,
    tones: Vec<Tone>,
    palette_set: bool,
    continue_action: bool,
}

impl View for Hearing {
    type V = Handled;

    closed spec fn view(&self) -> Handled {
        Handled {
            players: self.players@,
            palette_n: self.palette_n,
            steering: self.steering@,
            joined: self.tones@.len(),
            palette_set: self.palette_set,
            continue_action: self.continue_action,
        }
    }
}

impl Hearing {
    /// Lets the movement pass if movement is enabled and the player is there.
    fn steer(&mut self, enabled: bool, n: PlayerN, steer: Steer)
        ensures
            final(self)@ == steered(old(self)@, enabled, n, steer),
            final(self).tones == old(self).tones,
    {
        if enabled && self.players[n.index()].is_some() {
            self.steering.push(steer);
        }
    }

    /// Switches the colour of the player in slot `n`, if movement is enabled
    /// and the player is there.
    fn switch(&mut self, enabled: bool, n: PlayerN)
        ensures
            final(self)@ == (Handled {
                players: with_switch(old(self)@.players, enabled, n),
                ..old(self)@
            }),
            final(self).tones == old(self).tones,
    {
        match self.players[n.index()] {
            Some(mut player) => {
                if enabled {
                    player.toggle_color();
                    self.players[n.index()] = Some(player);
                }
            },
            None => {},
        }
        assert(self.players@ =~= with_switch(old(self)@.players, enabled, n));
    }

    /// Lets a new player take the empty slot `n`.
    fn join(&mut self, n: PlayerN, Ghost(budget): Ghost<int>)
        requires
            roster_fits(old(self)@.players, budget),
            budget <= LIVES_CAP,
            old(self)@.players[n.spec_index()] is None,
            old(self).tones@ == Seq::new(old(self).tones@.len(), |k: int| spec_new_player()),
        ensures
            final(self)@ == (Handled {
                players: with_newcomer(old(self)@.players, n),
                joined: old(self)@.joined + 1,
                ..old(self)@
            }),
            final(self).tones@ == Seq::new(final(self).tones@.len(), |k: int| spec_new_player()),
    {
        assert(present(self.players@) <= 3);
        self.players[n.index()] = Some(Player::new(n));
        match self.players[0] {
            Some(mut first) => {
                first.entity.life = first.entity.life + INIT_LIVES;
                self.players[0] = Some(first);
            },
            None => {},
        }
        self.tones.push(new_player());
        assert(self.players@ =~= with_newcomer(old(self)@.players, n));
        assert(self.tones@ =~= Seq::new(self.tones@.len(), |k: int| spec_new_player()));
    }

    /// Selects the next palette.
    fn advance_palette(&mut self)
        requires
            old(self).palette_n < 10,
        ensures
            final(self)@ == palette_advanced(old(self)@),
            final(self).tones == old(self).tones,
    {
        self.palette_n = (self.palette_n + 1) % 10;
        self.palette_set = true;
    }

    /// Handles the events, one after the other.
    fn hear_all(&mut self, enabled: bool, events: &Vec<ControlEvent>, Ghost(budget): Ghost<int>)
        requires
            roster_fits(old(self)@.players, budget),
            budget <= LIVES_CAP,
            old(self).palette_n < 10,
            !old(self).palette_set,
            old(self).tones@ == Seq::new(old(self).tones@.len(), |k: int| spec_new_player()),
        ensures
            final(self)@ == handle_all(old(self)@, enabled, events@, events@.len() as int),
            final(self).tones@ == Seq::new(final(self)@.joined, |k: int| spec_new_player()),
    {
        let mut i: usize = 0;
        while i < events.len()
            invariant
                i <= events.len(),
                self@ == handle_all(old(self)@, enabled, events@, i as int),
                self.tones@ == Seq::new(self.tones@.len(), |k: int| spec_new_player()),
                roster_fits(self@.players, budget),
                budget <= LIVES_CAP,
                self.palette_n < 10,
            decreases events.len() - i,
        {
            proof {
                lemma_handle_keeps_roster(self@, enabled, events@[i as int], budget);
            }
            self.hear(enabled, events[i], Ghost(budget));
            i += 1;
        }
    }

    /// Handles one event.
    fn hear(&mut self, enabled: bool, event: ControlEvent, Ghost(budget): Ghost<int>)
        requires
            roster_fits(old(self)@.players, budget),
            budget <= LIVES_CAP,
            old(self).palette_n < 10,
            old(self).tones@ == Seq::new(old(self).tones@.len(), |k: int| spec_new_player()),
        ensures
            final(self)@ == handle(old(self)@, enabled, event),
            final(self).tones@ == Seq::new(final(self).tones@.len(), |k: int| spec_new_player()),
    {
        match event {
            ControlEvent::Left(n) => self.steer(enabled, n, Steer::Left(n)),
            ControlEvent::Down(n) => self.steer(enabled, n, Steer::Down(n)),
            ControlEvent::Up(n) => self.steer(enabled, n, Steer::Up(n)),
            ControlEvent::Right(n) => self.steer(enabled, n, Steer::Right(n)),
            ControlEvent::Btn1(n) => {
                if self.players[n.index()].is_none() {
                    self.join(n, Ghost(budget));
                } else {
                    self.switch(enabled, n);
                }
                self.continue_action = true;
            },
            ControlEvent::Btn2(_) => self.advance_palette(),
            ControlEvent::MouseRightClick => self.switch(enabled, PlayerN::P1),
            ControlEvent::MouseLeftClick => {
                self.continue_action = true;
            },
            ControlEvent::MouseMiddleClick => self.advance_palette(),
            ControlEvent::MouseLeftHold(at) => self.steer(enabled, PlayerN::P1, Steer::Toward(at)),
        }
    }
}

/// How many extra lives can still be granted beyond the score `next`.
fn grants_still_left(next: u32) -> (left: u32)
    requires
        next >= NEXT_LIFE_SCORE,
    ensures
        left == grants_left(next),
        left <= 14,
{
    let mut n: u32 = next;
    let mut left: u32 = 0;
    proof {
        lemma_grants_are_few(next);
    }
    while n < MAX_SCORE
        invariant
            n >= NEXT_LIFE_SCORE,
            left + grants_left(n) == grants_left(next),
            grants_left(next) <= 14,
        decreases
                if n >= MAX_SCORE {
                    0
                } else {
                    MAX_SCORE - n
                },
    {
        n = n * 2;
        left += 1;
    }
    left
}

impl Game {
    /// A game on its title screen. `high_score` is the best score that the
    /// host has kept, `now` are the input registers at this moment.
    pub fn new(high_score: u32, now: &Peripherals) -> (game: Game)
        ensures
            game@ == GameState::initial(high_score, *now, game@.space),
            game@.wf(),
    {
        let entities = EntityManager::new();
        let timers = Timers::new();
        let mut calibrations = Calibrations::new(0);
        let scores = Scores::new(high_score);
        let flags = Flags::new();
        let environment = Environment::new(&mut calibrations.rng);
        let controls = Controls::new(now);
        proof {
            lemma_grants_at_start();
            assert(entities@.players =~= first_player_alone(1));
        }
        Game { entities, timers, calibrations, scores, flags, environment, controls, playing: false }
    }

    /// A game restarts when the player has run out of lives and decides to
    /// play again, and when the instructions are left. The random numbers
    /// are seeded anew, to keep the universe fresh.
    pub fn restart(&mut self)
        ensures
            final(self)@ == old(self)@.restarted(final(self)@.space),
            final(self)@.wf(),
    {
        let mut entities = EntityManager::new();
        entities.players[0] = Some(
            Player {
                entity: Entity { color: DRAW_COLOR_B, life: INIT_LIVES },
                player_number: PlayerN::P1,
            },
        );
        proof {
            lemma_grants_at_start();
            assert(entities@.players =~= first_player_alone(INIT_LIVES));
        }
        self.entities = entities;
        self.calibrations = Calibrations::new(self.timers.frame_count);
        self.environment = Environment::new(&mut self.calibrations.rng);
        self.timers = Timers::new();
        self.scores = Scores::new(self.scores.high);
        self.flags = Flags { current_screen: ScreenName::MainGame, new_high_score: false };
        self.playing = false;
    }

    /// Reads what the players have done since the last frame and updates
    /// the game accordingly.
    pub fn process_inputs(&mut self, now: &Peripherals) -> (outcome: InputOutcome)
        requires
            old(self)@.wf(),
        ensures
            final(self)@ == old(self)@.listened(*now, final(self)@.space),
            final(self)@.wf(),
            outcome.steering@ == old(self)@.handled(*now).steering,
            outcome.tones@ == Seq::new(old(self)@.handled(*now).joined, |i: int| spec_new_player()),
            outcome.palette == if old(self)@.handled(*now).palette_set {
                Some(PALETTES[old(self)@.handled(*now).palette_n as int])
            } else {
                None
            },
            outcome.restarted == old(self)@.restarts(*now),
    {
        let ghost before = self@;
        let ghost budget = LIVES_CAP - grants_left(before.score_next_life);
        let events = self.controls.update(now);
        let enabled = self.entities.killer.is_none();
        let mut hearing = Hearing {
            players: self.entities.players,
            palette_n: self.environment.palette_n,
            steering: Vec::new(),
            tones: Vec::new(),
            palette_set: false,
            continue_action: false,
        };
        assert(hearing@ == before.unhandled());
        assert(hearing.tones@ =~= Seq::new(0, |k: int| spec_new_player()));
        hearing.hear_all(enabled, &events, Ghost(budget));
        let ghost h = before.handled(*now);
        assert(hearing@ == h);
        let Hearing { players, palette_n, steering, tones, palette_set, continue_action } = hearing;
        self.entities.players = players;
        let palette = if palette_set {
            Some(self.environment.set_palette(palette_n))
        } else {
            None
        };
        proof {
            lemma_handle_all_keeps_roster(
                before.unhandled(),
                enabled,
                events@,
                events@.len() as int,
                budget,
            );
            lemma_heard_is_well_formed(before, *now);
            let heard = before.heard_only(*now);
            assert(self@.palette_n == heard.palette_n);
            assert(self@.entities.players == heard.entities.players);
            assert(self@.entities == heard.entities);
            assert(self@ == heard);
        }
        let restarted = if continue_action {
            self.go_on()
        } else {
            false
        };
        InputOutcome { steering, tones, palette, restarted }
    }

    /// Follows a wish to go on: from the title to the instructions, and
    /// from the instructions or a finished game into a new game. Returns
    /// whether the game was started afresh.
    fn go_on(&mut self) -> (restarted: bool)
        requires
            old(self)@.wf(),
        ensures
            final(self)@.wf(),
            restarted == (old(self)@.flags.current_screen == ScreenName::HowToPlay || old(
                self,
            )@.flags.current_screen == ScreenName::GameOver),
            final(self)@ == match old(self)@.flags.current_screen {
                ScreenName::Title => GameState {
                    flags: Flags {
                        current_screen: ScreenName::HowToPlay,
                        new_high_score: old(self)@.flags.new_high_score,
                    },
                    ..old(self)@
                },
                ScreenName::MainGame => old(self)@,
                _ => old(self)@.restarted(final(self)@.space),
            },
    {
        match self.flags.current_screen {
            ScreenName::Title => {
                self.flags.current_screen = ScreenName::HowToPlay;
                false
            },
            ScreenName::HowToPlay | ScreenName::GameOver => {
                self.restart();
                true
            },
            ScreenName::MainGame => false,
        }
    }

    /// The first half of a frame, called once in every frame. It advances
    /// the clock, hears the input and acts according to the screen: the
    /// title and the instructions are shown; over a finished game the
    /// display stays; a death is played out; a game whose lives have run out
    /// ends; otherwise the difficulty is adjusted and the frame is one of
    /// play, to be completed by [`Game::simulate`].
    pub fn update(&mut self, now: &Peripherals) -> (frame: Frame)
        requires
            old(self)@.wf(),
        ensures
            final(self)@ == old(self)@.heard(*now, final(self)@.space).staged(),
            final(self)@.wf(),
            frame.stage == old(self)@.heard(*now, final(self)@.space).stage(),
            frame.music@ == song_tones(
                old(self)@.timers.ticked().song_tick / MUSIC_SPEED_CTRL,
                old(self)@.song_nr,
            ),
            frame.steering@ == old(self)@.handled(*now).steering,
            frame.tones@ == Seq::new(old(self)@.handled(*now).joined, |i: int| spec_new_player()),
            frame.palette == if old(self)@.handled(*now).palette_set {
                Some(PALETTES[old(self)@.handled(*now).palette_n as int])
            } else {
                None
            },
            frame.restarted == old(self)@.restarts(*now),
            frame.draw@ == space_drawn(old(self)@.space) + old(self)@.heard(
                *now,
                final(self)@.space,
            ).screen_drawn(),
            frame.save_high_score == if frame.stage == Stage::GameEnded {
                Some(final(self)@.scores.high)
            } else {
                None
            },
            frame.stage == Stage::Play <==> final(self)@.playing,
            !frame.restarted ==> final(self)@.difficulty >= old(self)@.difficulty,
    {
        let ghost before = self@;
        self.playing = false;
        self.timers.tick();
        let (music, mut draw) = self.environment.update(
            self.timers.frame_count,
            self.timers.song_tick,
        );
        let ghost ticked = self@;
        assert(ticked == (GameState { timers: before.timers.ticked(), playing: false, ..before }));
        let InputOutcome { steering, tones, palette, restarted } = self.process_inputs(now);
        let ghost heard = self@;
        assert(ticked.handled(*now) == before.handled(*now));
        let tick = self.timers.frame_count;
        let mut save_high_score: Option<u32> = None;
        let stage = match self.flags.current_screen {
            ScreenName::Title => {
                let mut screen = title(tick);
                draw.append(&mut screen);
                Stage::Title
            },
            ScreenName::HowToPlay => {
                let mut screen = how_to_play(tick);
                draw.append(&mut screen);
                Stage::HowToPlay
            },
            ScreenName::GameOver => {
                let mut display = self.draw_hud();
                draw.append(&mut display);
                let mut screen = game_over(tick);
                draw.append(&mut screen);
                Stage::GameOver
            },
            ScreenName::MainGame => {
                let mut display = self.draw_hud();
                draw.append(&mut display);
                if self.entities.killer.is_some() {
                    let mut shown = self.death_tick();
                    draw.append(&mut shown);
                    Stage::DeathFreeze
                } else if self.lives() == 0 {
                    self.flags.new_high_score = self.scores.current > self.scores.high;
                    if self.scores.current > self.scores.high {
                        self.scores.high = self.scores.current;
                    }
                    self.flags.current_screen = ScreenName::GameOver;
                    self.environment.song_nr = GAME_OVER_SONG;
                    self.timers.song_tick = 0;
                    save_high_score = Some(self.scores.high);
                    Stage::GameEnded
                } else {
                    self.update_difficulty();
                    self.playing = true;
                    Stage::Play
                }
            },
        };
        proof {
            assert(draw@ =~= space_drawn(before.space) + heard.screen_drawn());
            assert(self@.entities.players =~= heard.staged().entities.players);
            assert(self@.entities.enemies =~= heard.staged().entities.enemies);
            assert(self@.entities.bombs =~= heard.staged().entities.bombs);
        }
        Frame { stage, music, steering, tones, palette, restarted, draw, save_high_score }
    }

    /// The second half of a frame of play. `contacts` are the collisions
    /// that the host has measured after moving the bodies. The entities age
    /// and collide, the score is updated, a death costs a life, and new
    /// enemies and bombs appear. Outside a frame of play nothing happens.
    pub fn simulate(&mut self, contacts: &Contacts) -> (outcome: Option<Simulated>)
        requires
            old(self)@.wf(),
        ensures
            final(self)@.wf(),
            final(self)@.difficulty == old(self)@.difficulty,
            final(self)@.scores.current <= MAX_SCORE,
            final(self)@.entities.enemies.len() <= MAX_ENEMIES,
            final(self)@.entities.bombs.len() <= MAX_BOMBS,
            !old(self)@.playing ==> outcome is None && final(self)@ == old(self)@,
            old(self)@.playing ==> final(self)@ == old(self)@.simulated(*contacts),
            old(self)@.playing ==> (outcome matches Some(done) && {
                &&& done.enemies_killed == old(self)@.kills(*contacts)
                &&& done.bombs_exploded == old(self)@.blasts(*contacts)
                &&& done.spawned_enemy is Some <==> old(self)@.spawns_enemy(*contacts)
                &&& done.spawned_enemy matches Some(spawn) ==> {
                    &&& spawn.id == old(self)@.timers.frame_count
                    &&& spawn.color == old(self)@.enemy_color_now()
                    &&& is_spawn_site(spawn.x, spawn.y)
                }
                &&& done.spawned_bomb == if old(self)@.spawns_bomb(*contacts) {
                    Some(old(self)@.timers.frame_count)
                } else {
                    None
                }
                &&& done.tones@ == cue(old(self)@.blasts(*contacts) > 0, spec_bomb_explode()) + cue(
                    old(self)@.grants_life(*contacts),
                    spec_extra_life(),
                ) + cue(old(self)@.dies(*contacts), spec_death())
                &&& done.draw@ == seq![
                    DrawCommand::Players,
                    DrawCommand::Enemies,
                    DrawCommand::Bombs,
                ]
            }),
    {
        if !self.playing {
            return None;
        }
        let ghost before = self@;
        self.playing = false;
        let (enemies_killed, bombs_exploded) = self.entities.update(contacts);
        let granted = self.update_score(enemies_killed, bombs_exploded);
        let died = self.entities.killer.is_some();
        if died {
            match self.entities.players[0] {
                Some(mut first) => {
                    first.entity.life = first.entity.life.saturating_sub(1);
                    self.entities.players[0] = Some(first);
                },
                None => {},
            }
        }
        let spawned_enemy = self.spawn_enemies();
        let spawned_bomb = self.spawn_bombs();
        let mut draw: Vec<DrawCommand> = Vec::new();
        draw.push(DrawCommand::Players);
        draw.push(DrawCommand::Enemies);
        draw.push(DrawCommand::Bombs);
        let tones = self.sounds_and_music_tick(bombs_exploded, granted, died);
        proof {
            assert(draw@ =~= seq![DrawCommand::Players, DrawCommand::Enemies, DrawCommand::Bombs]);
            assert(self@.entities.players =~= before.simulated(*contacts).entities.players);
        }
        Some(Simulated { enemies_killed, bombs_exploded, spawned_enemy, spawned_bomb, tones, draw })
    }

    /// Updates the score for the enemies absorbed and the bombs exploded.
    /// Once the score has passed the threshold, an extra life is granted
    /// and the threshold doubles. Returns whether a life was granted.
    fn update_score(&mut self, enemies_killed: u32, bombs_exploded: u32) -> (granted: bool)
        requires
            old(self)@.entities.players.len() == 4,
            old(self)@.entities.players[0] is Some,
            old(self)@.lives() < u32::MAX,
        ensures
            granted == (score_after(
                old(self)@.scores.current,
                old(self)@.scores.multiplier,
                enemies_killed,
                bombs_exploded,
            ) > old(self)@.score_next_life),
            final(self)@ == (GameState {
                scores: Scores {
                    current: score_after(
                        old(self)@.scores.current,
                        old(self)@.scores.multiplier,
                        enemies_killed,
                        bombs_exploded,
                    ),
                    multiplier: multiplier_after(
                        old(self)@.scores.multiplier,
                        enemies_killed,
                        bombs_exploded,
                    ),
                    high: old(self)@.scores.high,
                },
                score_next_life: if granted {
                    doubled(old(self)@.score_next_life)
                } else {
                    old(self)@.score_next_life
                },
                entities: Population {
                    players: old(self)@.entities.players.update(
                        0,
                        Some(
                            Player {
                                entity: Entity {
                                    color: old(self)@.entities.players[0].unwrap().entity.color,
                                    life: if granted {
                                        (old(self)@.lives() + 1) as u32
                                    } else {
                                        old(self)@.lives()
                                    },
                                },
                                player_number: old(self)@.entities.players[0].unwrap().player_number,
                            },
                        ),
                    ),
                    ..old(self)@.entities
                },
                ..old(self)@
            }),
    {
        self.scores.update(enemies_killed, bombs_exploded);
        let granted = self.scores.current > self.calibrations.score_next_life;
        if granted {
            match self.entities.players[0] {
                Some(mut first) => {
                    first.entity.life = first.entity.life + 1;
                    self.entities.players[0] = Some(first);
                },
                None => {},
            }
            let next = self.calibrations.score_next_life;
            self.calibrations.score_next_life = if next > u32::MAX / 2 {
                u32::MAX
            } else {
                next * 2
            };
        }
        proof {
            assert(self@.entities.players =~= old(self)@.entities.players.update(
                0,
                Some(
                    Player {
                        entity: Entity {
                            color: old(self)@.entities.players[0].unwrap().entity.color,
                            life: if granted {
                                (old(self)@.lives() + 1) as u32
                            } else {
                                old(self)@.lives()
                            },
                        },
                        player_number: old(self)@.entities.players[0].unwrap().player_number,
                    },
                ),
            ));
        }
        granted
    }

    /// Lets an enemy appear at one of the eight places, chosen at random,
    /// if one is due: at the cadence of the difficulty level, unless the
    /// field is full or a respite is on. A spawn that finds no room is
    /// skipped. The colour of new enemies depends on time, so that enemies
    /// of one colour come in stretches.
    pub fn spawn_enemies(&mut self) -> (spawned: Option<EnemySpawn>)
        requires
            old(self)@.entities.wf(),
            old(self)@.difficulty < 10,
        ensures
            final(self)@.entities.wf(),
            old(self)@.wf() ==> final(self)@.wf(),
            final(self)@.entities.enemies.len() <= MAX_ENEMIES,
            final(self)@.entities.enemies.len() <= old(self)@.entities.enemies.len() + 1,
            final(self)@.entities.enemies.len() >= old(self)@.entities.enemies.len(),
            spawned is Some <==> {
                &&& old(self)@.timers.frame_count % ENEMY_FRAME[old(self)@.difficulty as int] == 0
                &&& old(self)@.entities.enemies.len() < MAX_ENEMIES
                &&& old(self)@.timers.respite == 0
            },
            spawned matches Some(spawn) ==> {
                &&& spawn.id == old(self)@.timers.frame_count
                &&& spawn.color == old(self)@.enemy_color_now()
                &&& is_spawn_site(spawn.x, spawn.y)
            },
            final(self)@ == (GameState {
                enemy_color: old(self)@.enemy_color_now(),
                entities: Population {
                    enemies: if spawned is Some {
                        with_entry(
                            old(self)@.entities.enemies,
                            old(self)@.timers.frame_count,
                            Enemy {
                                entity: Entity {
                                    color: old(self)@.enemy_color_now(),
                                    life: Enemy::LIFE_SPAN,
                                },
                            },
                        )
                    } else {
                        old(self)@.entities.enemies
                    },
                    ..old(self)@.entities
                },
                ..old(self)@
            }),
    {
        let level = self.calibrations.difficulty as usize;
        let tick = self.timers.frame_count;
        proof {
            lemma_with_entry_distinct(
                self@.entities.enemies,
                tick,
                Enemy { entity: Entity { color: self@.enemy_color_now(), life: Enemy::LIFE_SPAN } },
            );
            lemma_position(self@.entities.enemies, tick, 0);
        }
        if tick % EN_COL_FRAME[level] == 0 {
            self.calibrations.enemy_color = if self.calibrations.enemy_color == DRAW_COLOR_A {
                DRAW_COLOR_B
            } else {
                DRAW_COLOR_A
            };
        }
        if tick % ENEMY_FRAME[level] == 0 && self.entities.enemies.len() < MAX_ENEMIES
            && self.timers.respite == 0 {
            let site = rng_usize_below(&mut self.calibrations.rng, 8);
            let place = spawn_site(site);
            let color = self.calibrations.enemy_color;
            self.entities.insert_enemy(tick, Enemy::new(tick, color));
            assert(SPAWN_SITES[site as int] == (place.0, place.1));
            Some(EnemySpawn { id: tick, x: place.0, y: place.1, color })
        } else {
            None
        }
    }

    /// Lets a bomb appear, if one is due. Bombs appear at a cadence of
    /// their own, whatever the difficulty.
    fn spawn_bombs(&mut self) -> (spawned: Option<usize>)
        requires
            old(self)@.entities.wf(),
        ensures
            final(self)@.entities.wf(),
            spawned == if old(self)@.timers.frame_count % BOMB_FRAME_FREQ == 0
                && old(self)@.entities.bombs.len() < MAX_BOMBS {
                Some(old(self)@.timers.frame_count)
            } else {
                None
            },
            final(self)@ == (GameState {
                entities: Population {
                    bombs: if spawned is Some {
                        with_entry(
                            old(self)@.entities.bombs,
                            old(self)@.timers.frame_count,
                            Bomb::spec_new(),
                        )
                    } else {
                        old(self)@.entities.bombs
                    },
                    ..old(self)@.entities
                },
                ..old(self)@
            }),
    {
        let tick = self.timers.frame_count;
        if tick % BOMB_FRAME_FREQ == 0 && self.entities.bombs.len() < MAX_BOMBS {
            self.entities.insert_bomb(tick, Bomb::new());
            Some(tick)
        } else {
            None
        }
    }

    /// The sounds of a frame of play, and the song that goes on.
    fn sounds_and_music_tick(&mut self, bombs_exploded: u32, granted: bool, died: bool) -> (tones:
        Vec<Tone>)
        ensures
            tones@ == cue(bombs_exploded > 0, spec_bomb_explode()) + cue(granted, spec_extra_life())
                + cue(died, spec_death()),
            final(self)@ == (GameState { song_nr: old(self)@.song_after(), ..old(self)@ }),
    {
        let tones = self.environment.play_sound_effects(bombs_exploded > 0, granted, died);
        if (self.timers.frame_count.wrapping_add(1) / MUSIC_SPEED_CTRL) % VOICE_NOTES == 0 {
            self.environment.song_nr = song_for(self.calibrations.difficulty);
        }
        tones
    }

    /// The lives that are left.
    pub fn lives(&self) -> (lives: u32)
        requires
            self@.entities.players.len() == 4,
            self@.entities.players[0] is Some,
        ensures
            lives == self@.lives(),
    {
        match self.entities.players[0] {
            Some(first) => first.entity.life,
            None => 0,
        }
    }

    /// The commands that paint the heads-up display.
    fn draw_hud(&self) -> (commands: Vec<DrawCommand>)
        requires
            self@.entities.players.len() == 4,
            self@.entities.players[0] is Some,
            self@.lives() <= LIVES_CAP,
        ensures
            commands@ == self@.hud_drawn(),
    {
        let screen_is_over = match self.flags.current_screen {
            ScreenName::GameOver => true,
            _ => false,
        };
        let show = !screen_is_over || !self.flags.new_high_score || (self.timers.frame_count / 2) % 10
            < 5;
        draw_hud(self.lives(), self.scores.current, self.scores.high, self.scores.multiplier, show)
    }

    /// One frame of a death: shows the players, lets the killer blink and
    /// counts down; at the end of the countdown the enemies are cleared and
    /// a respite begins.
    fn death_tick(&mut self) -> (commands: Vec<DrawCommand>)
        requires
            old(self)@.wf(),
        ensures
            final(self)@ == old(self)@.death_ticked(),
            final(self)@.wf(),
            commands@ == seq![DrawCommand::Players] + (if old(self)@.killer_shown() {
                seq![DrawCommand::Killer]
            } else {
                Seq::empty()
            }),
    {
        let mut commands: Vec<DrawCommand> = Vec::new();
        commands.push(DrawCommand::Players);
        if self.timers.death_countdown / 10 % 2 != 0 {
            commands.push(DrawCommand::Killer);
        }
        self.timers.death_countdown = self.timers.death_countdown.saturating_sub(1);
        if self.timers.death_countdown == 0 {
            self.entities.enemies.clear();
            self.entities.killer = None;
            self.timers.death_countdown = DEATH_COUNTDOWN_DURATION;
            self.timers.respite = RESPITE_DURATION;
        }
        proof {
            assert(commands@ =~= seq![DrawCommand::Players] + (if old(self)@.killer_shown() {
                seq![DrawCommand::Killer]
            } else {
                Seq::empty()
            }));
            assert(self@.entities.enemies =~= old(self)@.death_ticked().entities.enemies);
        }
        commands
    }

    /// Sets the difficulty: the level of the first threshold that lies
    /// above the multiplier, unless the game is at that level or beyond it
    /// already. It depends on the multiplier alone, never falls, and
    /// changes nothing else.
    pub fn update_difficulty(&mut self)
        requires
            old(self)@.difficulty < 10,
        ensures
            final(self)@ == (GameState {
                difficulty: leveled(old(self)@.difficulty, old(self)@.scores.multiplier),
                ..old(self)@
            }),
            final(self)@.difficulty >= old(self)@.difficulty,
            final(self)@.difficulty < 10,
            old(self)@.wf() ==> final(self)@.wf(),
    {
        let mut i: usize = 0;
        while i < 9
            invariant
                i <= 9,
                *self == *old(self),
                self.calibrations.difficulty < 10,
                level_for(self.scores.multiplier, 0) == level_for(self.scores.multiplier, i as int),
            decreases 9 - i,
        {
            if self.scores.multiplier < DIFF_MUL_PROGRESSION[i] {
                if i as u32 > self.calibrations.difficulty {
                    self.calibrations.difficulty = i as u32;
                }
                return ;
            }
            i += 1;
        }
    }

    /// Whether the invariant of the game holds. A game is made by
    /// [`Game::new`] and changed through its functions alone, which keep the
    /// invariant; the host can test it all the same.
    pub fn is_well_formed(&self) -> (ok: bool)
        ensures
            ok == self@.wf(),
    {
        if !self.entities.is_well_formed() {
            return false;
        }
        let lives = match self.entities.players[0] {
            Some(first) => first.entity.life,
            None => {
                return false;
            },
        };
        if self.calibrations.difficulty >= 10 || self.environment.palette_n >= 10
            || self.environment.song_nr >= 9 || self.scores.current > MAX_SCORE
            || self.calibrations.score_next_life < NEXT_LIFE_SCORE {
            return false;
        }
        if self.playing {
            let in_game = match self.flags.current_screen {
                ScreenName::MainGame => true,
                _ => false,
            };
            if !in_game || self.entities.killer.is_some() {
                return false;
            }
        }
        if !self.stars_are_on_screen() {
            return false;
        }
        let mut absent: u64 = 0;
        let mut n: usize = 1;
        while n < 4
            invariant
                1 <= n <= 4,
                self@.entities.players.len() == 4,
                self@.entities.players[0] is Some,
                absent == (if n > 1 && self@.entities.players[1] is None { 1int } else { 0int }) + (
                if n > 2 && self@.entities.players[2] is None { 1int } else { 0int }) + (if n > 3
                    && self@.entities.players[3] is None { 1int } else { 0int }),
            decreases 4 - n,
        {
            if self.entities.players[n].is_none() {
                absent += 1;
            }
            n += 1;
        }
        assert(absent == 4 - present(self@.entities.players));
        let still = grants_still_left(self.calibrations.score_next_life);
        lives as u64 + still as u64 + 3 * absent <= LIVES_CAP as u64
    }

    /// Whether there are as many stars as there should be, all of them on
    /// the screen.
    fn stars_are_on_screen(&self) -> (ok: bool)
        ensures
            ok == self@.stars_on_screen(),
    {
        if self.environment.space.len() != SPACE_PIXELS as usize {
            return false;
        }
        let mut i: usize = 0;
        while i < self.environment.space.len()
            invariant
                i <= self.environment.space.len(),
                forall|k: int|
                    0 <= k < i ==> (#[trigger] self.environment.space@[k]).0 < 160
                        && self.environment.space@[k].1 < 160,
            decreases self.environment.space.len() - i,
        {
            let star = self.environment.space[i];
            if star.0 >= 160 || star.1 >= 160 {
                return false;
            }
            i += 1;
        }
        true
    }

    /// The entities, for the host to give them bodies and to paint them.
    pub fn entities(&self) -> (entities: &EntityManager)
        ensures
            entities@ == self@.entities,
    {
        &self.entities
    }

    /// The counters of the game.
    pub fn timers(&self) -> (timers: &Timers)
        ensures
            *timers == self@.timers,
    {
        &self.timers
    }

    /// The difficulty, the colour of new enemies and the score of the next life.
    pub fn calibrations(&self) -> (calibrations: &Calibrations)
        ensures
            calibrations.difficulty == self@.difficulty,
            calibrations.score_next_life == self@.score_next_life,
            calibrations.enemy_color == self@.enemy_color,
            calibrations.seed == self@.seed,
    {
        &self.calibrations
    }

    /// The score, the multiplier and the best score.
    pub fn scores(&self) -> (scores: &Scores)
        ensures
            *scores == self@.scores,
    {
        &self.scores
    }

    /// The screen that is on.
    pub fn flags(&self) -> (flags: &Flags)
        ensures
            *flags == self@.flags,
    {
        &self.flags
    }

    /// The background, the palette and the song.
    pub fn environment(&self) -> (environment: &Environment)
        ensures
            environment.space@ == self@.space,
            environment.palette_n == self@.palette_n,
            environment.song_nr == self@.song_nr,
    {
        &self.environment
    }

    /// The input registers of the frame before.
    pub fn controls(&self) -> (controls: &Controls)
        ensures
            *controls == self@.controls,
    {
        &self.controls
    }

    /// The random number generator of the game: the one that its
    /// calibrations hold, from which the stars of the background and the
    /// places of new enemies are drawn.
    pub closed spec fn generator(&self) -> Rng {
        self.calibrations.rng
    }

    /// The random number generator, for the host to place new bombs with.
    /// It is the game's own, so that the host draws from the same stream as
    /// the game does.
    pub fn rng(&self) -> (rng: &Rng)
        ensures
            *rng == self.generator(),
    {
        &self.calibrations.rng
    }
}

} // verus!
