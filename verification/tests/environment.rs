use arena_core::common::calibrations::{
    spawn_site, Calibrations, MUSIC_SPEED_CTRL, NEXT_LIFE_SCORE, RNG_SEED, SPAWN_SITES,
};
use arena_core::game::environment::{Environment, SPACE_COLOR, SPACE_PIXELS};
use arena_core::game::flags::Flags;
use arena_core::graphics::draw_utils::DrawCommand;
use arena_core::graphics::palette::{DRAW_COLOR_B, PALETTES};
use arena_core::graphics::screen::ScreenName;
use arena_core::sound::effects::{bomb_explode, death, extra_life};
use arena_core::sound::music::{song_player, INTRO_SONG};

#[test]
fn a_new_environment_has_200_stars_on_the_screen() {
    let mut rng = fastrand::Rng::with_seed(1);
    let environment = Environment::new(&mut rng);
    assert_eq!(SPACE_PIXELS, 200);
    assert_eq!(environment.space.len(), 200);
    assert!(environment.space.iter().all(|(x, y)| *x < 160 && *y < 160));
    assert_eq!(environment.palette_n, 0);
    assert_eq!(environment.song_nr, INTRO_SONG);
}

#[test]
fn the_stars_are_drawn_from_the_generator_in_turn() {
    let mut rng = fastrand::Rng::with_seed(99);
    let environment = Environment::new(&mut rng);
    let check = fastrand::Rng::with_seed(99);
    for star in environment.space.iter() {
        let x = check.u8(0..160);
        let y = check.u8(0..160);
        assert_eq!(*star, (x, y));
    }
    // the generator has moved on
    assert_eq!(rng.u64(..), check.u64(..));
}

#[test]
fn the_background_is_one_pixel_for_each_star() {
    let environment = Environment {
        space: vec![(0, 0), (159, 3), (7, 159)],
        palette_n: 0,
        song_nr: 0,
    };
    assert_eq!(
        environment.draw_space(),
        vec![
            DrawCommand::Color(SPACE_COLOR),
            DrawCommand::Pixel { x: 0, y: 0 },
            DrawCommand::Pixel { x: 159, y: 3 },
            DrawCommand::Pixel { x: 7, y: 159 },
        ]
    );
    assert_eq!(SPACE_COLOR, 0x44);
    let empty = Environment {
        space: vec![],
        palette_n: 0,
        song_nr: 0,
    };
    assert_eq!(empty.draw_space(), vec![DrawCommand::Color(SPACE_COLOR)]);
}

#[test]
fn the_environment_asks_for_the_note_that_is_due() {
    let environment = Environment {
        space: vec![(1, 2)],
        palette_n: 0,
        song_nr: 6,
    };
    let (music, draw) = environment.update(12345, 23);
    assert_eq!(music, song_player(4, 6));
    assert_eq!(music.len(), 4);
    assert_eq!(MUSIC_SPEED_CTRL, 5);
    assert_eq!(draw, environment.draw_space());
    assert_eq!(environment.update(0, 4).0, song_player(0, 6));
    assert_eq!(environment.update(0, 5).0, song_player(1, 6));
    assert_eq!(
        environment.update(0, usize::MAX).0,
        song_player(usize::MAX / 5, 6)
    );
}

#[test]
fn the_sound_effects_come_in_a_fixed_order() {
    let environment = Environment {
        space: vec![],
        palette_n: 0,
        song_nr: 0,
    };
    assert_eq!(environment.play_sound_effects(false, false, false), vec![]);
    assert_eq!(
        environment.play_sound_effects(true, false, false),
        vec![bomb_explode()]
    );
    assert_eq!(
        environment.play_sound_effects(false, true, false),
        vec![extra_life()]
    );
    assert_eq!(
        environment.play_sound_effects(false, false, true),
        vec![death()]
    );
    assert_eq!(
        environment.play_sound_effects(true, true, true),
        vec![bomb_explode(), extra_life(), death()]
    );
}

#[test]
fn palettes_are_counted_round() {
    let mut environment = Environment {
        space: vec![(5, 5)],
        palette_n: 0,
        song_nr: 3,
    };
    assert_eq!(environment.set_palette(4), PALETTES[4]);
    assert_eq!(environment.palette_n, 4);
    assert_eq!(environment.set_palette(10), PALETTES[0]);
    assert_eq!(environment.palette_n, 0);
    assert_eq!(environment.set_palette(255), PALETTES[5]);
    assert_eq!(environment.palette_n, 5);
    assert_eq!(environment.space, vec![(5, 5)]);
    assert_eq!(environment.song_nr, 3);
}

#[test]
fn calibrations_start_easy() {
    let calibrations = Calibrations::new(7);
    assert_eq!(calibrations.difficulty, 0);
    assert_eq!(calibrations.score_next_life, NEXT_LIFE_SCORE);
    assert_eq!(NEXT_LIFE_SCORE, 100_000);
    assert_eq!(calibrations.enemy_color, DRAW_COLOR_B);
}

#[test]
fn calibrations_seed_the_generator_with_555_and_the_tick() {
    let calibrations = Calibrations::new(45);
    assert_eq!(RNG_SEED, 555);
    assert_eq!(calibrations.seed, 600);
    assert_eq!(Calibrations::new(0).seed, 555);
    assert_eq!(
        Calibrations::new(usize::MAX).seed,
        555u64.wrapping_add(usize::MAX as u64)
    );
    let check = fastrand::Rng::with_seed(600);
    assert_eq!(calibrations.rng.u64(..), check.u64(..));
    let calibrations = Calibrations::new(usize::MAX);
    let check = fastrand::Rng::with_seed(555u64.wrapping_add(usize::MAX as u64));
    assert_eq!(calibrations.rng.u64(..), check.u64(..));
}

#[test]
fn flags_start_on_the_title_screen() {
    let flags = Flags::new();
    assert_eq!(flags.current_screen, ScreenName::Title);
    assert!(!flags.new_high_score);
}

#[test]
fn enemies_appear_in_the_corners_and_in_the_middle_of_the_edges() {
    let places: Vec<(u32, u32)> = (0..8).map(spawn_site).collect();
    assert_eq!(
        places,
        vec![
            (0, 0),
            (0, 80),
            (0, 159),
            (80, 0),
            (80, 159),
            (159, 0),
            (159, 80),
            (159, 159)
        ]
    );
    assert_eq!(places, SPAWN_SITES.to_vec());
}
