use arena_core::common::calibrations::{MAX_SCORE, SCORE_BOMB, SCORE_ENEMY};
use arena_core::game::scores::Scores;

#[test]
fn scores_test_update() {
    let mut scores = Scores {
        current: 0,
        multiplier: 1,
        high: 0,
    };
    let init_score = scores.current;
    let init_multiplier = scores.multiplier;
    scores.update(0, 0);
    assert_eq!(scores.current, 0);
    assert_eq!(scores.multiplier, init_multiplier);

    scores.update(1, 0);
    assert_eq!(scores.current, init_score + init_multiplier);
    assert_eq!(scores.multiplier, init_multiplier + SCORE_ENEMY);

    scores.update(0, 1);
    let mut exp_score =
        init_score + init_multiplier + (init_multiplier + SCORE_ENEMY) * SCORE_BOMB;
    assert_eq!(scores.current, exp_score);

    let mut exp_mult = init_multiplier + SCORE_ENEMY + SCORE_BOMB;
    assert_eq!(scores.multiplier, exp_mult);
    scores.update(1, 1);
    exp_score += (exp_mult * SCORE_BOMB) + (exp_mult + SCORE_BOMB);

    assert_eq!(scores.current, exp_score);
    exp_mult += SCORE_BOMB + SCORE_ENEMY;
    assert_eq!(scores.multiplier, exp_mult);
}

#[test]
fn scores_new_starts_at_zero_with_multiplier_one() {
    let scores = Scores::new(4321);
    assert_eq!(scores.current, 0);
    assert_eq!(scores.multiplier, 1);
    assert_eq!(scores.high, 4321);
}

#[test]
fn scores_bombs_count_before_enemies() {
    let mut scores = Scores::new(0);
    scores.update(2, 3);
    // bombs: 10 + 110 + 210 = 330, multiplier 31; enemies: 31 + 32
    assert_eq!(scores.current, 393);
    assert_eq!(scores.multiplier, 33);
}

#[test]
fn scores_are_capped() {
    let mut scores = Scores {
        current: MAX_SCORE - 5,
        multiplier: 100,
        high: 7,
    };
    scores.update(1, 0);
    assert_eq!(scores.current, MAX_SCORE);
    assert_eq!(scores.multiplier, 101);
    assert_eq!(scores.high, 7);
    scores.update(3, 2);
    assert_eq!(scores.current, MAX_SCORE);
}

#[test]
fn scores_wrap_before_the_cap() {
    let mut scores = Scores {
        current: u32::MAX - 1,
        multiplier: 5,
        high: 0,
    };
    scores.update(1, 0);
    // 4294967294 + 5 wraps to 3
    assert_eq!(scores.current, 3);
    assert_eq!(scores.multiplier, 6);

    let mut scores = Scores {
        current: 0,
        multiplier: u32::MAX,
        high: 0,
    };
    scores.update(1, 0);
    assert_eq!(scores.multiplier, 0);
    assert_eq!(scores.current, MAX_SCORE);
}

#[test]
fn the_best_score_is_stored_lowest_byte_first() {
    let scores = Scores::new(0);
    assert_eq!(scores.save_high_score(0x0403_0201), [1, 2, 3, 4]);
    assert_eq!(scores.save_high_score(0), [0, 0, 0, 0]);
    assert_eq!(scores.save_high_score(u32::MAX), [255, 255, 255, 255]);
    assert_eq!(scores.save_high_score(999_999_999), 999_999_999u32.to_le_bytes());
    assert_eq!(Scores::get_high_score([1, 2, 3, 4]), 0x0403_0201);
    assert_eq!(Scores::get_high_score([0, 0, 0, 0]), 0);
    assert_eq!(Scores::get_high_score([255, 255, 255, 255]), u32::MAX);
    assert_eq!(Scores::get_high_score([0, 0, 0, 128]), u32::from_le_bytes([0, 0, 0, 128]));
}

#[test]
fn a_stored_score_is_read_back() {
    let scores = Scores::new(0);
    for score in [0u32, 1, 255, 256, 65_535, 65_536, 123_456_789, MAX_SCORE, u32::MAX] {
        assert_eq!(Scores::get_high_score(scores.save_high_score(score)), score);
    }
}
