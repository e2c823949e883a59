use arena_core::entities::bomb::{Bomb, DEFAULT_LIFE_SPAN};
use arena_core::entities::enemy::{nearest_player, Enemy};
use arena_core::entities::entity::Entity;
use arena_core::entities::player::{Player, PlayerN};
use arena_core::graphics::palette::{DRAW_COLOR_A, DRAW_COLOR_B, DRAW_COLOR_BOMB};

#[test]
fn kill() {
    let mut enemy = Enemy::default();
    assert_ne!(enemy.entity.life, 0);
    enemy.kill();
    assert_eq!(enemy.entity.life, 0);
}

#[test]
fn just_spawned() {
    let mut enemy = Enemy::default();
    enemy.entity.life = Enemy::LIFE_SPAN - Enemy::I_FRAMES_ON_SPAWN + 1;
    assert!(enemy.just_spawned());
    enemy.entity.life = Enemy::LIFE_SPAN - Enemy::I_FRAMES_ON_SPAWN - 1;
    assert!(!enemy.just_spawned());
}

#[test]
fn just_spawned_ends_exactly_at_the_window() {
    let mut enemy = Enemy::default();
    assert!(enemy.just_spawned());
    assert!(Enemy::new(0, DRAW_COLOR_B).just_spawned());
    enemy.entity.life = 709;
    assert!(enemy.just_spawned());
    enemy.entity.life = 708;
    assert!(!enemy.just_spawned());
    enemy.entity.life = Enemy::LIFE_SPAN - Enemy::I_FRAMES_ON_SPAWN;
    assert!(!enemy.just_spawned());
    enemy.entity.life = 0;
    assert!(!enemy.just_spawned());
}

#[test]
fn enemy_new_takes_the_colour_and_a_full_life() {
    let enemy = Enemy::new(17, DRAW_COLOR_B);
    assert_eq!(
        enemy,
        Enemy {
            entity: Entity {
                color: DRAW_COLOR_B,
                life: 720
            }
        }
    );
    assert_eq!(Enemy::default().entity.color, DRAW_COLOR_A);
    assert_eq!(Enemy::LIFE_SPAN, 720);
    assert_eq!(Enemy::I_FRAMES_ON_SPAWN, 12);
}

#[test]
fn enemy_update_costs_one_frame_of_life() {
    let mut enemy = Enemy::new(0, DRAW_COLOR_A);
    enemy.update();
    assert_eq!(enemy.entity.life, 719);
    assert_eq!(enemy.entity.color, DRAW_COLOR_A);
    enemy.entity.life = 1;
    enemy.update();
    assert_eq!(enemy.entity.life, 0);
}

#[test]
fn kill_keeps_the_colour() {
    let mut enemy = Enemy::new(0, DRAW_COLOR_B);
    enemy.kill();
    assert_eq!(enemy.entity.color, DRAW_COLOR_B);
}

#[test]
fn player_new_defaults() {
    let player = Player::new(PlayerN::P3);
    assert_eq!(player.player_number, PlayerN::P3);
    assert_eq!(player.entity.color, DRAW_COLOR_B);
    assert_eq!(player.entity.life, 1);
    assert_eq!(Player::default(), Player::new(PlayerN::P1));
}

#[test]
fn player_toggle_color_alternates() {
    let mut player = Player::new(PlayerN::P1);
    player.toggle_color();
    assert_eq!(player.entity.color, DRAW_COLOR_A);
    player.toggle_color();
    assert_eq!(player.entity.color, DRAW_COLOR_B);
    assert_eq!(player.entity.life, 1);
    assert_eq!(player.player_number, PlayerN::P1);
}

#[test]
fn player_toggle_color_from_a_foreign_colour_gives_the_first() {
    let mut player = Player::new(PlayerN::P2);
    player.entity.color = DRAW_COLOR_BOMB;
    player.toggle_color();
    assert_eq!(player.entity.color, DRAW_COLOR_A);
}

#[test]
fn player_slots_and_indices_agree() {
    let all = [PlayerN::P1, PlayerN::P2, PlayerN::P3, PlayerN::P4];
    for (i, n) in all.iter().enumerate() {
        assert_eq!(n.index(), i);
        assert_eq!(PlayerN::from_index(i), *n);
    }
}

#[test]
fn bomb_new_is_armed() {
    let bomb = Bomb::new();
    assert!(!bomb.exploded);
    assert_eq!(bomb.who_exploded, None);
    assert_eq!(bomb.entity.color, DRAW_COLOR_BOMB);
    assert_eq!(bomb.entity.life, 30);
    assert_eq!(DEFAULT_LIFE_SPAN, 30);
    assert_eq!(Bomb::default(), bomb);
}

#[test]
fn bomb_update_only_decays_after_the_explosion() {
    let mut bomb = Bomb::new();
    bomb.update();
    assert_eq!(bomb.entity.life, 30);
    bomb.exploded = true;
    bomb.who_exploded = Some(PlayerN::P2);
    bomb.update();
    assert_eq!(bomb.entity.life, 29);
    assert!(bomb.exploded);
    assert_eq!(bomb.who_exploded, Some(PlayerN::P2));
    bomb.entity.life = 1;
    bomb.update();
    assert_eq!(bomb.entity.life, 0);
}

#[test]
fn an_enemy_follows_the_nearest_player() {
    assert_eq!(
        nearest_player(&[Some(50), Some(20), Some(30), Some(40)], 100),
        PlayerN::P2
    );
    assert_eq!(
        nearest_player(&[Some(50), None, Some(30), Some(4)], 100),
        PlayerN::P4
    );
    assert_eq!(nearest_player(&[Some(0), None, None, None], 1), PlayerN::P1);
}

#[test]
fn of_players_equally_near_the_first_is_followed() {
    assert_eq!(
        nearest_player(&[Some(9), Some(7), Some(7), Some(7)], 100),
        PlayerN::P2
    );
    assert_eq!(
        nearest_player(&[None, None, Some(7), Some(7)], 100),
        PlayerN::P3
    );
}

#[test]
fn beyond_the_horizon_nobody_is_followed_but_the_first_player() {
    assert_eq!(nearest_player(&[None, None, None, None], 100), PlayerN::P1);
    assert_eq!(
        nearest_player(&[None, Some(100), Some(101), Some(u64::MAX)], 100),
        PlayerN::P1
    );
    assert_eq!(
        nearest_player(&[None, Some(100), Some(99), Some(u64::MAX)], 100),
        PlayerN::P3
    );
    assert_eq!(nearest_player(&[Some(0), Some(0), Some(0), Some(0)], 0), PlayerN::P1);
}

#[test]
fn distances_can_be_given_by_the_bits_of_their_numbers() {
    let key = |d: f64| Some(d.to_bits());
    let horizon = 320.0f64.to_bits();
    assert_eq!(
        nearest_player(&[key(12.5), key(3.0), key(2.999), key(0.1 + 0.2)], horizon),
        PlayerN::P4
    );
    assert_eq!(
        nearest_player(&[key(320.0), key(f64::INFINITY), key(f64::NAN), None], horizon),
        PlayerN::P1
    );
    assert_eq!(
        nearest_player(&[key(320.0), key(319.99999999999994), None, None], horizon),
        PlayerN::P2
    );
    assert_eq!(
        nearest_player(&[key(1.0), key(0.0), None, None], horizon),
        PlayerN::P2
    );
}
