use arena_core::common::calibrations::{
    DEATH_COUNTDOWN_DURATION, INIT_LIVES, MAX_BOMBS, MAX_ENEMIES, MAX_SCORE, NEXT_LIFE_SCORE,
    RESPITE_DURATION, SPAWN_SITES,
};
use arena_core::console::{BUTTON_1, BUTTON_2, BUTTON_LEFT, BUTTON_UP, MOUSE_LEFT, MOUSE_MIDDLE, MOUSE_RIGHT};
use arena_core::entities::contacts::Contacts;
use arena_core::entities::enemy::Enemy;
use arena_core::entities::player::{Player, PlayerN};
use arena_core::game::controls::Peripherals;
use arena_core::game::environment::{SPACE_COLOR, SPACE_PIXELS};
use arena_core::game::state::{Stage, Steer};
use arena_core::game::{Frame, Game, Simulated};
use arena_core::graphics::draw_utils::{draw_hud, DrawCommand};
use arena_core::graphics::palette::{DRAW_COLOR_A, DRAW_COLOR_B, PALETTES};
use arena_core::graphics::screen::{game_over, how_to_play, title, ScreenName};
use arena_core::sound::effects::{bomb_explode, death, extra_life, new_player};
use arena_core::sound::music::{song_player, GAME_OVER_SONG, GAME_SONG_START, INTRO_SONG};

fn quiet() -> Peripherals {
    Peripherals {
        mouse_buttons: 0,
        mouse_x: 80,
        mouse_y: 80,
        gamepads: [0; 4],
    }
}

fn pad(n: usize, buttons: u8) -> Peripherals {
    let mut now = quiet();
    now.gamepads[n] = buttons;
    now
}

fn lives(game: &Game) -> u32 {
    game.entities().players[0].unwrap().entity.life
}

/// A game in its first frame of play, that frame completed without contacts.
fn started(high: u32) -> Game {
    let mut game = Game::new(high, &quiet());
    assert_eq!(game.update(&pad(0, BUTTON_1)).stage, Stage::HowToPlay);
    assert_eq!(game.update(&quiet()).stage, Stage::HowToPlay);
    let frame = game.update(&pad(0, BUTTON_1));
    assert_eq!(frame.stage, Stage::Play);
    assert!(frame.restarted);
    assert!(game.simulate(&Contacts::new()).is_some());
    game
}

/// Every bomb reaches the first player; every enemy reaches the first
/// player with the generous reach, and with the strict one if `strict`.
fn touch_everything(game: &Game, strict: bool) -> Contacts {
    let mut contacts = Contacts::new();
    for (id, _) in game.entities().bombs.iter() {
        contacts.bombs_players.push((*id, PlayerN::P1));
    }
    for (id, _) in game.entities().enemies.iter() {
        contacts.enemies_players.push((*id, PlayerN::P1));
        if strict {
            contacts.enemies_players_strict.push((*id, PlayerN::P1));
        }
    }
    contacts
}

fn quiet_frame(game: &mut Game) -> (Frame, Option<Simulated>) {
    let frame = game.update(&quiet());
    let done = if frame.stage == Stage::Play {
        game.simulate(&Contacts::new())
    } else {
        None
    };
    (frame, done)
}

#[test]
fn a_new_game_waits_on_the_title_screen() {
    let game = Game::new(777, &quiet());
    assert!(game.is_well_formed());
    assert_eq!(game.flags().current_screen, ScreenName::Title);
    assert!(!game.flags().new_high_score);
    assert_eq!(game.scores().current, 0);
    assert_eq!(game.scores().multiplier, 1);
    assert_eq!(game.scores().high, 777);
    assert_eq!(game.timers().frame_count, 0);
    assert_eq!(game.timers().respite, RESPITE_DURATION);
    assert_eq!(game.timers().death_countdown, DEATH_COUNTDOWN_DURATION);
    assert_eq!(game.calibrations().difficulty, 0);
    assert_eq!(game.calibrations().score_next_life, NEXT_LIFE_SCORE);
    assert_eq!(game.calibrations().enemy_color, DRAW_COLOR_B);
    assert_eq!(game.environment().palette_n, 0);
    assert_eq!(game.environment().song_nr, INTRO_SONG);
    assert_eq!(game.entities().players[0], Some(Player::new(PlayerN::P1)));
    assert!(game.entities().enemies.is_empty());
    assert!(game.entities().bombs.is_empty());
}

#[test]
fn the_stars_lie_on_the_screen_and_follow_from_the_seed() {
    let game = Game::new(0, &quiet());
    let space = &game.environment().space;
    assert_eq!(space.len(), SPACE_PIXELS as usize);
    assert!(space.iter().all(|(x, y)| *x < 160 && *y < 160));
    // not all stars in one place
    assert!(space.iter().any(|p| *p != space[0]));
    let again = Game::new(5, &pad(1, BUTTON_2));
    assert_eq!(&again.environment().space, space);
}

#[test]
fn the_title_screen_is_drawn_over_the_stars() {
    let mut game = Game::new(0, &quiet());
    let stars = game.environment().space.clone();
    let frame = game.update(&quiet());
    assert_eq!(frame.stage, Stage::Title);
    assert!(!frame.restarted);
    assert_eq!(frame.save_high_score, None);
    assert_eq!(frame.palette, None);
    assert!(frame.tones.is_empty());
    assert!(frame.steering.is_empty());
    assert_eq!(frame.draw.len(), 1 + 200 + 5);
    assert_eq!(frame.draw[0], DrawCommand::Color(SPACE_COLOR));
    for (i, (x, y)) in stars.iter().enumerate() {
        assert_eq!(
            frame.draw[1 + i],
            DrawCommand::Pixel {
                x: *x as i32,
                y: *y as i32
            }
        );
    }
    assert_eq!(&frame.draw[201..], &title(1)[..]);
    assert_eq!(game.timers().frame_count, 1);
    assert_eq!(game.simulate(&Contacts::new()).map(|_| ()), None);
}

#[test]
fn the_music_follows_the_song_tick() {
    let mut game = Game::new(0, &quiet());
    let mut heard = 0;
    for tick in 1..=640usize {
        let frame = game.update(&quiet());
        assert_eq!(frame.music, song_player(tick / 5, INTRO_SONG));
        heard += frame.music.len();
    }
    assert!(heard > 0);
}

#[test]
fn a_wish_to_go_on_leads_from_the_title_to_the_instructions_to_the_game() {
    let mut game = Game::new(0, &quiet());
    let frame = game.update(&pad(0, BUTTON_1));
    assert_eq!(frame.stage, Stage::HowToPlay);
    assert_eq!(game.flags().current_screen, ScreenName::HowToPlay);
    assert_eq!(&frame.draw[201..], &how_to_play(1)[..]);
    // holding the button is no new wish
    let frame = game.update(&pad(0, BUTTON_1));
    assert_eq!(frame.stage, Stage::HowToPlay);
    assert_eq!(&frame.draw[201..], &how_to_play(2)[..]);
    // a click of the left mouse button is one
    let mut click = quiet();
    click.mouse_buttons = MOUSE_LEFT;
    let frame = game.update(&click);
    assert_eq!(frame.stage, Stage::Play);
    assert!(frame.restarted);
    assert_eq!(game.flags().current_screen, ScreenName::MainGame);
    assert_eq!(game.timers().frame_count, 0);
    assert_eq!(lives(&game), INIT_LIVES);
    assert_eq!(&frame.draw[201..], &draw_hud(3, 0, 0, 1, true)[..]);
}

#[test]
fn restart_resets_the_game_and_keeps_the_best_score() {
    let mut game = started(4242);
    // play for a while: set bombs off, absorb enemies
    for _ in 0..700 {
        let frame = game.update(&quiet());
        assert_eq!(frame.stage, Stage::Play);
        let contacts = touch_everything(&game, false);
        game.simulate(&contacts);
    }
    assert!(game.scores().current > 0);
    assert!(game.scores().multiplier > 1);
    assert!(!game.entities().enemies.is_empty() || !game.entities().bombs.is_empty());
    let controls = *game.controls();
    game.restart();
    assert!(game.is_well_formed());
    assert_eq!(game.scores().current, 0);
    assert_eq!(game.scores().multiplier, 1);
    assert_eq!(game.scores().high, 4242);
    assert!(game.entities().enemies.is_empty());
    assert!(game.entities().bombs.is_empty());
    assert_eq!(game.entities().killer, None);
    assert_eq!(lives(&game), INIT_LIVES);
    assert_eq!(game.entities().players[0].unwrap().entity.color, DRAW_COLOR_B);
    assert_eq!(game.entities().players[1], None);
    assert_eq!(game.flags().current_screen, ScreenName::MainGame);
    assert!(!game.flags().new_high_score);
    assert_eq!(game.timers().frame_count, 0);
    assert_eq!(game.timers().respite, RESPITE_DURATION);
    assert_eq!(game.calibrations().difficulty, 0);
    assert_eq!(game.calibrations().score_next_life, NEXT_LIFE_SCORE);
    assert_eq!(game.calibrations().enemy_color, DRAW_COLOR_B);
    assert_eq!(game.environment().song_nr, INTRO_SONG);
    assert_eq!(game.environment().palette_n, 0);
    assert_eq!(*game.controls(), controls);
    assert_eq!(game.environment().space.len(), 200);
    // a second restart changes nothing more
    game.restart();
    assert_eq!(game.scores().current, 0);
    assert_eq!(game.scores().multiplier, 1);
    assert_eq!(game.scores().high, 4242);
    assert_eq!(lives(&game), INIT_LIVES);
    assert!(game.entities().enemies.is_empty());
    assert_eq!(game.timers().frame_count, 0);
}

#[test]
fn restart_seeds_the_stars_from_the_frame_count() {
    let mut early = Game::new(0, &quiet());
    early.restart();
    let mut late = Game::new(0, &quiet());
    late.update(&quiet());
    late.restart();
    let mut again = Game::new(0, &quiet());
    again.restart();
    assert_eq!(early.environment().space, again.environment().space);
    assert_ne!(early.environment().space, late.environment().space);
}

#[test]
fn simulate_does_nothing_outside_a_frame_of_play() {
    let mut game = Game::new(0, &quiet());
    assert!(game.simulate(&Contacts::new()).is_none());
    let mut game = started(0);
    // the frame of play has been completed already
    assert!(game.simulate(&Contacts::new()).is_none());
    assert_eq!(game.update(&quiet()).stage, Stage::Play);
    assert!(game.simulate(&Contacts::new()).is_some());
    assert!(game.simulate(&Contacts::new()).is_none());
}

#[test]
fn a_frame_of_play_paints_the_entities() {
    let mut game = started(0);
    let (frame, done) = quiet_frame(&mut game);
    assert_eq!(&frame.draw[201..], &draw_hud(3, 0, 0, 1, true)[..]);
    let done = done.unwrap();
    assert_eq!(
        done.draw,
        vec![
            DrawCommand::Players,
            DrawCommand::Enemies,
            DrawCommand::Bombs
        ]
    );
    assert_eq!(done.enemies_killed, 0);
    assert_eq!(done.bombs_exploded, 0);
    assert!(done.tones.is_empty());
}

#[test]
fn bombs_appear_every_300_frames() {
    let mut game = started(0);
    // the first frame of a game is frame 0
    assert_eq!(game.entities().bombs.len(), 1);
    assert_eq!(game.entities().bombs[0].0, 0);
    for frame_nr in 1..=900usize {
        let (_, done) = quiet_frame(&mut game);
        let done = done.unwrap();
        if frame_nr % 300 == 0 {
            assert_eq!(done.spawned_bomb, Some(frame_nr));
        } else {
            assert_eq!(done.spawned_bomb, None);
        }
    }
    let ids: Vec<usize> = game.entities().bombs.iter().map(|b| b.0).collect();
    assert_eq!(ids, vec![0, 300, 600, 900]);
}

#[test]
fn the_field_never_holds_more_than_16_bombs() {
    let mut game = started(0);
    for _ in 0..(300 * 20) {
        quiet_frame(&mut game);
        assert!(game.entities().bombs.len() <= MAX_BOMBS);
    }
    assert_eq!(game.entities().bombs.len(), 16);
}

#[test]
fn enemies_appear_at_the_cadence_once_the_respite_is_over() {
    let mut game = started(0);
    let mut spawned = Vec::new();
    for frame_nr in 1..=600usize {
        let (_, done) = quiet_frame(&mut game);
        let done = done.unwrap();
        if let Some(spawn) = done.spawned_enemy {
            assert_eq!(spawn.id, frame_nr);
            assert!(SPAWN_SITES.contains(&(spawn.x, spawn.y)));
            spawned.push((frame_nr, spawn.color));
        }
        assert!(game.entities().enemies.len() <= MAX_ENEMIES);
    }
    // the colour of new enemies switches every 240 frames, the first time at frame 0
    assert_eq!(
        spawned,
        vec![
            (120, DRAW_COLOR_A),
            (240, DRAW_COLOR_B),
            (360, DRAW_COLOR_B),
            (480, DRAW_COLOR_A),
            (600, DRAW_COLOR_A)
        ]
    );
    assert_eq!(game.entities().enemies.len(), 5);
    assert_eq!(game.entities().enemies[0].0, 120);
    assert_eq!(game.entities().enemies[0].1.entity.life, Enemy::LIFE_SPAN - 480);
}

#[test]
fn enemies_appear_at_more_than_one_place() {
    let mut game = started(0);
    let mut places = Vec::new();
    for _ in 0..3000 {
        let (_, done) = quiet_frame(&mut game);
        if let Some(spawn) = done.unwrap().spawned_enemy {
            assert!(SPAWN_SITES.contains(&(spawn.x, spawn.y)));
            if !places.contains(&(spawn.x, spawn.y)) {
                places.push((spawn.x, spawn.y));
            }
        }
    }
    assert!(places.len() > 1);
}

#[test]
fn an_untouched_enemy_leaves_the_game_720_frames_after_its_spawn() {
    let mut game = started(0);
    for _ in 1..=120 {
        quiet_frame(&mut game);
    }
    assert_eq!(game.entities().enemies[0].0, 120);
    assert_eq!(game.entities().enemies[0].1.entity.life, 720);
    for frame_nr in 121..840 {
        quiet_frame(&mut game);
        assert_eq!(game.entities().enemies[0].0, 120);
        assert_eq!(game.entities().enemies[0].1.entity.life, 840 - frame_nr);
    }
    assert_eq!(game.entities().enemies[0].1.entity.life, 1);
    quiet_frame(&mut game);
    assert_eq!(game.timers().frame_count, 840);
    assert_eq!(game.entities().enemies[0].0, 240);
}

#[test]
fn the_score_counts_bombs_and_enemies() {
    let mut game = started(0);
    game.update(&quiet());
    let contacts = touch_everything(&game, false);
    let done = game.simulate(&contacts).unwrap();
    assert_eq!(done.bombs_exploded, 1);
    assert_eq!(done.tones, vec![bomb_explode()]);
    assert_eq!(game.scores().current, 10);
    assert_eq!(game.scores().multiplier, 11);
    // the exploded bomb decays and is gone 30 frames later
    for _ in 0..29 {
        quiet_frame(&mut game);
    }
    assert_eq!(game.entities().bombs.len(), 1);
    quiet_frame(&mut game);
    assert!(game.entities().bombs.is_empty());
    // the enemy of frame 240 wears the colour of the player
    for _ in game.timers().frame_count..240 {
        quiet_frame(&mut game);
    }
    game.update(&quiet());
    let mut contacts = Contacts::new();
    contacts.enemies_players.push((240, PlayerN::P1));
    let done = game.simulate(&contacts).unwrap();
    assert_eq!(done.enemies_killed, 1);
    assert!(done.tones.is_empty());
    assert_eq!(game.scores().current, 21);
    assert_eq!(game.scores().multiplier, 12);
    // the multiplier has reached the first threshold: the next frame is harder
    assert_eq!(game.calibrations().difficulty, 0);
    quiet_frame(&mut game);
    assert_eq!(game.calibrations().difficulty, 1);
}

#[test]
fn a_death_costs_a_life_and_freezes_the_world() {
    let mut game = started(0);
    for _ in 1..=120 {
        quiet_frame(&mut game);
    }
    let mut contacts = Contacts::new();
    contacts.enemies_players.push((120, PlayerN::P1));
    contacts.enemies_players_strict.push((120, PlayerN::P1));
    // the enemy of frame 120 wears the other colour; while it has just spawned it is harmless
    for _ in 0..(Enemy::I_FRAMES_ON_SPAWN - 1) {
        assert_eq!(game.update(&quiet()).stage, Stage::Play);
        let done = game.simulate(&contacts).unwrap();
        assert!(done.tones.is_empty());
        assert_eq!(game.entities().killer, None);
        assert_eq!(lives(&game), 3);
    }
    assert_eq!(game.update(&pad(0, BUTTON_LEFT)).steering, vec![Steer::Left(PlayerN::P1)]);
    let done = game.simulate(&contacts).unwrap();
    assert_eq!(done.tones, vec![death()]);
    assert_eq!(done.enemies_killed, 0);
    assert_eq!(lives(&game), 2);
    assert_eq!(game.entities().killer.map(|k| k.0), Some(120));
    assert_eq!(game.entities().killer.unwrap().1.entity.color, DRAW_COLOR_A);
    assert!(game.entities().enemies.is_empty());
    let score = game.scores().current;

    // the freeze lasts 90 frames; nobody moves, nothing spawns, the killer blinks
    for left in (1..=DEATH_COUNTDOWN_DURATION).rev() {
        assert_eq!(game.timers().death_countdown, left);
        let frame = game.update(&pad(0, BUTTON_LEFT | BUTTON_1));
        assert_eq!(frame.stage, Stage::DeathFreeze);
        assert!(frame.steering.is_empty());
        assert!(game.simulate(&contacts).is_none());
        let mut expected = draw_hud(2, score, 0, 1, true);
        expected.push(DrawCommand::Players);
        if left / 10 % 2 != 0 {
            expected.push(DrawCommand::Killer);
        }
        assert_eq!(&frame.draw[201..], &expected[..]);
        // the colour is not switched while the world stands still
        assert_eq!(game.entities().players[0].unwrap().entity.color, DRAW_COLOR_B);
    }
    assert_eq!(game.entities().killer, None);
    assert_eq!(game.timers().death_countdown, DEATH_COUNTDOWN_DURATION);
    assert_eq!(game.timers().respite, RESPITE_DURATION);
    assert_eq!(game.update(&quiet()).stage, Stage::Play);
    assert_eq!(game.timers().respite, RESPITE_DURATION - 1);
}

#[test]
fn the_end_of_the_freeze_clears_the_enemies() {
    let mut game = started(0);
    // let enemies gather, then die by one of them
    for _ in 1..=400 {
        quiet_frame(&mut game);
    }
    assert_eq!(game.entities().enemies.len(), 3);
    game.update(&quiet());
    let mut contacts = Contacts::new();
    contacts.enemies_players_strict.push((120, PlayerN::P1));
    game.simulate(&contacts);
    assert!(game.entities().killer.is_some());
    assert_eq!(game.entities().enemies.len(), 2);
    for _ in 0..89 {
        assert_eq!(game.update(&quiet()).stage, Stage::DeathFreeze);
        assert_eq!(game.entities().enemies.len(), 2);
    }
    assert_eq!(game.update(&quiet()).stage, Stage::DeathFreeze);
    assert!(game.entities().enemies.is_empty());
}

#[test]
fn the_game_ends_when_the_lives_have_run_out() {
    let mut game = started(5);
    let mut deaths = 0;
    let mut ended_at = None;
    for _ in 0..5000 {
        assert!(game.is_well_formed());
        let frame = game.update(&quiet());
        match frame.stage {
            Stage::Play => {
                assert_eq!(frame.save_high_score, None);
                // only enemies hurt: leave the bombs alone
                let mut contacts = touch_everything(&game, true);
                contacts.bombs_players.clear();
                let before = lives(&game);
                let done = game.simulate(&contacts).unwrap();
                if game.entities().killer.is_some() {
                    deaths += 1;
                    assert_eq!(lives(&game), before - 1);
                    assert!(done.tones.contains(&death()));
                }
            }
            Stage::DeathFreeze => assert_eq!(frame.save_high_score, None),
            Stage::GameEnded => {
                assert_eq!(lives(&game), 0);
                assert_eq!(deaths, 3);
                let score = game.scores().current;
                assert!(score > 5);
                assert_eq!(frame.save_high_score, Some(score));
                assert_eq!(game.scores().high, score);
                assert!(game.flags().new_high_score);
                assert_eq!(game.flags().current_screen, ScreenName::GameOver);
                assert_eq!(game.environment().song_nr, GAME_OVER_SONG);
                assert_eq!(game.timers().song_tick, 0);
                assert_eq!(&frame.draw[201..], &draw_hud(0, score, 5, game.scores().multiplier, true)[..]);
                ended_at = Some(game.timers().frame_count);
                break;
            }
            _ => panic!("unexpected stage"),
        }
    }
    let ended_at = ended_at.expect("the game should have ended");
    let score = game.scores().current;
    let multiplier = game.scores().multiplier;

    // over: the display stays, the best score blinks, nothing is simulated
    for k in 1..=40usize {
        let frame = game.update(&quiet());
        assert_eq!(frame.stage, Stage::GameOver);
        assert_eq!(frame.save_high_score, None);
        let tick = ended_at + k;
        let mut expected = draw_hud(0, score, score, multiplier, (tick / 2) % 10 < 5);
        expected.extend(game_over(tick));
        assert_eq!(&frame.draw[201..], &expected[..]);
        assert_eq!(frame.music, song_player(k / 5, GAME_OVER_SONG));
        assert!(game.simulate(&Contacts::new()).is_none());
    }

    // a new game keeps the best score
    let frame = game.update(&pad(0, BUTTON_1));
    assert!(frame.restarted);
    assert_eq!(frame.stage, Stage::Play);
    assert_eq!(game.scores().high, score);
    assert_eq!(game.scores().current, 0);
    assert_eq!(lives(&game), INIT_LIVES);
    assert_eq!(game.entities().killer, None);
}

#[test]
fn a_lower_score_does_not_touch_the_best_score() {
    let mut game = started(MAX_SCORE);
    loop {
        let frame = game.update(&quiet());
        match frame.stage {
            Stage::Play => {
                let contacts = touch_everything(&game, true);
                game.simulate(&contacts);
            }
            Stage::DeathFreeze => {}
            Stage::GameEnded => {
                assert_eq!(frame.save_high_score, Some(MAX_SCORE));
                assert!(!game.flags().new_high_score);
                assert_eq!(game.scores().high, MAX_SCORE);
                break;
            }
            _ => panic!("unexpected stage"),
        }
    }
    // the best score does not blink
    for _ in 0..20 {
        let frame = game.update(&quiet());
        assert!(frame.draw.contains(&DrawCommand::Number {
            prefix: "H:",
            value: MAX_SCORE,
            x: 73,
            y: 1
        }));
    }
}

#[test]
fn a_new_player_joins_with_a_bonus_and_a_sound() {
    let mut game = started(0);
    // who is not there cannot steer
    let frame = game.update(&pad(1, BUTTON_UP));
    assert!(frame.steering.is_empty());
    game.simulate(&Contacts::new());
    let frame = game.update(&pad(1, BUTTON_UP | BUTTON_1));
    assert_eq!(frame.tones, vec![new_player()]);
    assert!(frame.steering.is_empty());
    assert!(!frame.restarted);
    assert_eq!(game.entities().players[1], Some(Player::new(PlayerN::P2)));
    assert_eq!(lives(&game), 2 * INIT_LIVES);
    game.simulate(&Contacts::new());
    let frame = game.update(&pad(1, BUTTON_UP));
    assert_eq!(frame.steering, vec![Steer::Up(PlayerN::P2)]);
    assert!(frame.tones.is_empty());
    game.simulate(&Contacts::new());
    // the button now switches the colour of the second player
    quiet_frame(&mut game);
    game.update(&pad(1, BUTTON_1));
    assert_eq!(game.entities().players[1].unwrap().entity.color, DRAW_COLOR_A);
    assert_eq!(game.entities().players[0].unwrap().entity.color, DRAW_COLOR_B);
    assert_eq!(lives(&game), 2 * INIT_LIVES);
}

#[test]
fn all_four_players_can_join_at_once() {
    let mut game = started(0);
    let now = Peripherals {
        mouse_buttons: 0,
        mouse_x: 0,
        mouse_y: 0,
        gamepads: [0, BUTTON_1, BUTTON_1, BUTTON_1],
    };
    let frame = game.update(&now);
    assert_eq!(frame.tones, vec![new_player(), new_player(), new_player()]);
    assert_eq!(lives(&game), 4 * INIT_LIVES);
    assert!(game.is_well_formed());
    for (i, n) in [PlayerN::P2, PlayerN::P3, PlayerN::P4].iter().enumerate() {
        assert_eq!(game.entities().players[i + 1], Some(Player::new(*n)));
    }
}

#[test]
fn a_restart_sends_the_extra_players_away() {
    let mut game = started(0);
    game.update(&pad(2, BUTTON_1));
    assert!(game.entities().players[2].is_some());
    game.restart();
    assert_eq!(game.entities().players[2], None);
    assert_eq!(lives(&game), INIT_LIVES);
}

#[test]
fn the_first_button_and_the_right_mouse_button_switch_the_colour() {
    let mut game = started(0);
    quiet_frame(&mut game);
    game.update(&pad(0, BUTTON_1));
    assert_eq!(game.entities().players[0].unwrap().entity.color, DRAW_COLOR_A);
    game.simulate(&Contacts::new());
    let mut click = quiet();
    click.mouse_buttons = MOUSE_RIGHT;
    game.update(&click);
    assert_eq!(game.entities().players[0].unwrap().entity.color, DRAW_COLOR_B);
    assert_eq!(lives(&game), INIT_LIVES);
}

#[test]
fn holding_the_mouse_steers_the_first_player() {
    let mut game = started(0);
    let now = Peripherals {
        mouse_buttons: MOUSE_LEFT,
        mouse_x: -7,
        mouse_y: 133,
        gamepads: [BUTTON_UP, 0, 0, 0],
    };
    let frame = game.update(&now);
    assert_eq!(
        frame.steering,
        vec![Steer::Toward((-7, 133)), Steer::Up(PlayerN::P1)]
    );
}

#[test]
fn the_second_button_and_the_middle_mouse_button_walk_through_the_palettes() {
    let mut game = Game::new(0, &quiet());
    let frame = game.update(&pad(3, BUTTON_2));
    assert_eq!(frame.palette, Some(PALETTES[1]));
    assert_eq!(game.environment().palette_n, 1);
    assert_eq!(frame.stage, Stage::Title);
    let mut click = quiet();
    click.mouse_buttons = MOUSE_MIDDLE;
    let frame = game.update(&click);
    assert_eq!(frame.palette, Some(PALETTES[2]));
    // two at once: the last one is loaded
    let mut both = quiet();
    both.gamepads = [BUTTON_2, BUTTON_2, 0, 0];
    let frame = game.update(&both);
    assert_eq!(frame.palette, Some(PALETTES[4]));
    assert_eq!(game.environment().palette_n, 4);
    let frame = game.update(&quiet());
    assert_eq!(frame.palette, None);
    for expected in [5u8, 6, 7, 8, 9, 0, 1] {
        game.update(&quiet());
        let frame = game.update(&pad(0, BUTTON_2));
        assert_eq!(game.environment().palette_n, expected);
        assert_eq!(frame.palette, Some(PALETTES[expected as usize]));
    }
}

#[test]
fn the_difficulty_never_falls_and_the_field_never_overflows() {
    let mut game = started(0);
    let mut difficulty = 0;
    let mut most = 0;
    let mut frames_of_play = 0;
    for _ in 0..30000 {
        let frame = game.update(&quiet());
        if frame.stage != Stage::Play {
            assert_eq!(frame.stage, Stage::DeathFreeze);
            continue;
        }
        frames_of_play += 1;
        assert!(game.calibrations().difficulty >= difficulty);
        difficulty = game.calibrations().difficulty;
        let multiplier = game.scores().multiplier;
        let level = [12, 30, 80, 120, 240, 320, 450, 1000, 2000]
            .iter()
            .position(|t| multiplier < *t);
        if let Some(level) = level {
            assert_eq!(difficulty, level as u32);
        }
        // bombs are set off, enemies of the player's colour are absorbed, nobody dies
        let contacts = touch_everything(&game, false);
        game.simulate(&contacts);
        assert!(game.is_well_formed());
        assert!(game.entities().enemies.len() <= MAX_ENEMIES);
        assert!(game.scores().current <= MAX_SCORE);
        most = most.max(game.entities().enemies.len());
    }
    assert_eq!(frames_of_play, 30000);
    assert!(difficulty >= 5);
    assert_eq!(most, MAX_ENEMIES);
    assert_eq!(game.environment().song_nr, GAME_SONG_START + difficulty.min(7) as u8 - 1);
}

#[test]
fn an_extra_life_is_granted_when_the_score_passes_the_threshold() {
    let mut game = started(0);
    let mut granted = 0;
    for _ in 0..60000 {
        let frame = game.update(&quiet());
        assert_eq!(frame.stage, Stage::Play);
        let before = (game.scores().current, game.calibrations().score_next_life, lives(&game));
        let contacts = touch_everything(&game, false);
        let done = game.simulate(&contacts).unwrap();
        let after = (game.scores().current, game.calibrations().score_next_life, lives(&game));
        if after.0 > before.1 {
            granted += 1;
            assert_eq!(after.1, before.1 * 2);
            assert_eq!(after.2, before.2 + 1);
            assert!(done.tones.contains(&extra_life()));
        } else {
            assert_eq!(after.1, before.1);
            assert_eq!(after.2, before.2);
            assert!(!done.tones.contains(&extra_life()));
        }
        if granted == 2 {
            break;
        }
    }
    assert_eq!(granted, 2);
    assert_eq!(game.calibrations().score_next_life, 4 * NEXT_LIFE_SCORE);
    assert_eq!(lives(&game), INIT_LIVES + 2);
}

#[test]
fn update_difficulty_follows_the_multiplier_and_never_falls() {
    let mut game = started(0);
    game.update_difficulty();
    assert_eq!(game.calibrations().difficulty, 0);
    // two bombs set off: the multiplier passes the first threshold
    let mut frames = 0;
    while game.scores().multiplier < 12 {
        game.update(&quiet());
        let contacts = touch_everything(&game, false);
        game.simulate(&contacts);
        frames += 1;
        assert!(frames < 1000);
    }
    let scores = *game.scores();
    let timers = *game.timers();
    let enemies = game.entities().enemies.clone();
    assert_eq!(game.calibrations().difficulty, 0);
    game.update_difficulty();
    assert_eq!(game.calibrations().difficulty, 1);
    game.update_difficulty();
    assert_eq!(game.calibrations().difficulty, 1);
    // nothing else has changed
    assert_eq!(*game.scores(), scores);
    assert_eq!(*game.timers(), timers);
    assert_eq!(game.entities().enemies, enemies);
    assert!(game.is_well_formed());
    // a restart is the one thing that brings the level down
    game.restart();
    assert_eq!(game.calibrations().difficulty, 0);
    game.update_difficulty();
    assert_eq!(game.calibrations().difficulty, 0);
}

#[test]
fn spawn_enemies_waits_for_the_cadence_and_the_end_of_the_respite() {
    let mut game = started(0);
    // frame 0: the colour switches, but a respite is on
    assert_eq!(game.calibrations().enemy_color, DRAW_COLOR_A);
    assert_eq!(game.spawn_enemies(), None);
    assert_eq!(game.calibrations().enemy_color, DRAW_COLOR_B);
    assert!(game.entities().enemies.is_empty());
    for _ in 1..=119 {
        quiet_frame(&mut game);
    }
    // frame 119: off the cadence
    assert_eq!(game.timers().respite, 1);
    let color = game.calibrations().enemy_color;
    assert_eq!(game.spawn_enemies(), None);
    assert_eq!(game.calibrations().enemy_color, color);
    // frame 120: an enemy is due
    assert_eq!(game.update(&quiet()).stage, Stage::Play);
    assert_eq!(game.timers().respite, 0);
    let spawn = game.spawn_enemies().unwrap();
    assert_eq!(spawn.id, 120);
    assert_eq!(spawn.color, color);
    assert!(SPAWN_SITES.contains(&(spawn.x, spawn.y)));
    assert_eq!(game.entities().enemies.len(), 1);
    assert_eq!(game.entities().enemies[0].0, 120);
    assert_eq!(game.entities().enemies[0].1.entity.life, 720);
    assert_eq!(game.entities().enemies[0].1.entity.color, color);
    // a second enemy under the same id takes the place of the first
    assert!(game.spawn_enemies().is_some());
    assert_eq!(game.entities().enemies.len(), 1);
    assert!(game.is_well_formed());
}

#[test]
fn spawn_enemies_skips_the_spawn_where_the_field_is_full() {
    let mut game = started(0);
    let mut full_at = None;
    for _ in 0..30000 {
        let frame = game.update(&quiet());
        if frame.stage != Stage::Play {
            continue;
        }
        let contacts = touch_everything(&game, false);
        game.simulate(&contacts);
        let cadence = [120usize, 60, 30, 25, 15, 10, 8, 6, 4, 2]
            [game.calibrations().difficulty as usize];
        if game.entities().enemies.len() == MAX_ENEMIES
            && (game.timers().frame_count + 1) % cadence == 0
            && game.timers().respite == 0
        {
            full_at = Some(game.timers().frame_count + 1);
            break;
        }
    }
    let full_at = full_at.expect("the field should have filled");
    // the next frame is on the cadence, and the field is full
    game.update(&quiet());
    assert_eq!(game.timers().frame_count, full_at);
    assert_eq!(game.entities().enemies.len(), MAX_ENEMIES);
    assert_eq!(game.spawn_enemies(), None);
    assert_eq!(game.entities().enemies.len(), MAX_ENEMIES);
    assert!(game.is_well_formed());
}

#[test]
fn a_game_is_seeded_from_the_frame_at_which_it_starts() {
    let mut game = Game::new(0, &quiet());
    assert_eq!(game.calibrations().seed, 555);
    for _ in 0..40 {
        game.update(&quiet());
    }
    assert_eq!(game.calibrations().seed, 555);
    assert_eq!(game.update(&pad(0, BUTTON_1)).stage, Stage::HowToPlay);
    game.update(&quiet());
    // the game starts in the 43rd frame
    assert!(game.update(&pad(0, BUTTON_1)).restarted);
    assert_eq!(game.timers().frame_count, 0);
    assert_eq!(game.calibrations().seed, 555 + 43);
    let stars = game.environment().space.clone();
    let check = fastrand::Rng::with_seed(598);
    for star in stars.iter() {
        assert_eq!(*star, (check.u8(0..160), check.u8(0..160)));
    }
    game.simulate(&Contacts::new());
    for _ in 0..7 {
        quiet_frame(&mut game);
    }
    assert_eq!(game.calibrations().seed, 598);
    game.restart();
    assert_eq!(game.calibrations().seed, 555 + 7);
    // started afresh at once, the clock stands at zero
    game.restart();
    assert_eq!(game.calibrations().seed, 555);
}
