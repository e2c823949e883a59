use arena_core::common::calibrations::{DEATH_COUNTDOWN_DURATION, RESPITE_DURATION};
use arena_core::game::timers::Timers;

#[test]
fn timers_test_update() {
    let mut timers = Timers::new();
    timers.tick();
    assert_eq!(timers.frame_count, 1);
    assert_eq!(timers.respite, RESPITE_DURATION - 1);
    assert_eq!(timers.song_tick, 1);

    timers.tick();
    assert_eq!(timers.frame_count, 2);
    assert_eq!(timers.respite, RESPITE_DURATION - 2);
    assert_eq!(timers.song_tick, 2);
}

#[test]
fn timers_start_with_full_countdowns() {
    let timers = Timers::new();
    assert_eq!(timers.frame_count, 0);
    assert_eq!(timers.song_tick, 0);
    assert_eq!(timers.respite, 120);
    assert_eq!(timers.death_countdown, 90);
    assert_eq!(DEATH_COUNTDOWN_DURATION, 90);
}

#[test]
fn timers_respite_stops_at_zero_and_clock_wraps() {
    let mut timers = Timers {
        frame_count: usize::MAX,
        death_countdown: 17,
        respite: 1,
        song_tick: usize::MAX,
    };
    timers.tick();
    assert_eq!(timers.frame_count, 0);
    assert_eq!(timers.song_tick, 0);
    assert_eq!(timers.respite, 0);
    assert_eq!(timers.death_countdown, 17);
    timers.tick();
    assert_eq!(timers.respite, 0);
    assert_eq!(timers.frame_count, 1);
}
