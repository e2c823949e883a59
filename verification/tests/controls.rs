use arena_core::console::{
    BUTTON_1, BUTTON_2, BUTTON_DOWN, BUTTON_LEFT, BUTTON_RIGHT, BUTTON_UP, MOUSE_LEFT,
    MOUSE_MIDDLE, MOUSE_RIGHT,
};
use arena_core::entities::player::PlayerN;
use arena_core::game::controls::{ControlEvent, Controls, Peripherals};

fn quiet() -> Peripherals {
    Peripherals {
        mouse_buttons: 0,
        mouse_x: 80,
        mouse_y: 80,
        gamepads: [0; 4],
    }
}

#[test]
fn controls_new_remembers_the_registers() {
    let now = Peripherals {
        mouse_buttons: 5,
        mouse_x: 1,
        mouse_y: 2,
        gamepads: [1, 2, 3, 4],
    };
    let controls = Controls::new(&now);
    assert_eq!(
        controls,
        Controls {
            prev_mouse: 5,
            prev_gamepad1: 1,
            prev_gamepad2: 2,
            prev_gamepad3: 3,
            prev_gamepad4: 4,
        }
    );
}

#[test]
fn quiet_registers_give_no_events() {
    let mut controls = Controls::new(&quiet());
    assert_eq!(controls.update(&quiet()), vec![]);
}

#[test]
fn directions_are_reported_while_held_in_a_fixed_order() {
    let mut controls = Controls::new(&quiet());
    let mut now = quiet();
    now.gamepads[0] = BUTTON_RIGHT | BUTTON_UP | BUTTON_DOWN | BUTTON_LEFT;
    let expected = vec![
        ControlEvent::Left(PlayerN::P1),
        ControlEvent::Down(PlayerN::P1),
        ControlEvent::Up(PlayerN::P1),
        ControlEvent::Right(PlayerN::P1),
    ];
    assert_eq!(controls.update(&now), expected);
    // still held in the next frame: reported again
    assert_eq!(controls.update(&now), expected);
}

#[test]
fn buttons_are_reported_once_when_they_go_down() {
    let mut controls = Controls::new(&quiet());
    let mut now = quiet();
    now.gamepads[1] = BUTTON_1 | BUTTON_2;
    assert_eq!(
        controls.update(&now),
        vec![
            ControlEvent::Btn1(PlayerN::P2),
            ControlEvent::Btn2(PlayerN::P2)
        ]
    );
    assert_eq!(controls.update(&now), vec![]);
    now.gamepads[1] = BUTTON_2;
    assert_eq!(controls.update(&now), vec![]);
    now.gamepads[1] = BUTTON_1 | BUTTON_2;
    assert_eq!(controls.update(&now), vec![ControlEvent::Btn1(PlayerN::P2)]);
}

#[test]
fn a_button_held_at_the_start_is_no_press() {
    let mut held = quiet();
    held.gamepads[0] = BUTTON_1;
    let mut controls = Controls::new(&held);
    assert_eq!(controls.update(&held), vec![]);
}

#[test]
fn gamepads_come_in_player_order_after_the_mouse() {
    let mut controls = Controls::new(&quiet());
    let now = Peripherals {
        mouse_buttons: MOUSE_LEFT,
        mouse_x: 10,
        mouse_y: 20,
        gamepads: [BUTTON_LEFT, BUTTON_1, BUTTON_UP, BUTTON_2 | BUTTON_RIGHT],
    };
    assert_eq!(
        controls.update(&now),
        vec![
            ControlEvent::MouseLeftHold((10, 20)),
            ControlEvent::MouseLeftClick,
            ControlEvent::Left(PlayerN::P1),
            ControlEvent::Btn1(PlayerN::P2),
            ControlEvent::Up(PlayerN::P3),
            ControlEvent::Right(PlayerN::P4),
            ControlEvent::Btn2(PlayerN::P4),
        ]
    );
    assert_eq!(
        controls,
        Controls {
            prev_mouse: MOUSE_LEFT,
            prev_gamepad1: BUTTON_LEFT,
            prev_gamepad2: BUTTON_1,
            prev_gamepad3: BUTTON_UP,
            prev_gamepad4: BUTTON_2 | BUTTON_RIGHT,
        }
    );
}

#[test]
fn mouse_clicks_come_once_and_the_hold_stays() {
    let mut controls = Controls::new(&quiet());
    let mut now = quiet();
    now.mouse_buttons = MOUSE_LEFT | MOUSE_RIGHT | MOUSE_MIDDLE;
    assert_eq!(
        controls.update(&now),
        vec![
            ControlEvent::MouseLeftHold((80, 80)),
            ControlEvent::MouseRightClick,
            ControlEvent::MouseLeftClick,
            ControlEvent::MouseMiddleClick,
        ]
    );
    assert_eq!(
        controls.update(&now),
        vec![ControlEvent::MouseLeftHold((80, 80))]
    );
}

#[test]
fn the_mouse_is_ignored_off_the_play_area() {
    let mut controls = Controls::new(&quiet());
    let mut now = quiet();
    now.mouse_buttons = MOUSE_LEFT | MOUSE_RIGHT;
    now.mouse_x = 181;
    assert_eq!(controls.update(&now), vec![]);
    // the press is remembered all the same: coming back is no click
    now.mouse_x = 180;
    assert_eq!(
        controls.update(&now),
        vec![ControlEvent::MouseLeftHold((180, 80))]
    );
}

#[test]
fn the_play_area_ends_at_the_padding() {
    let controls = Controls::new(&quiet());
    assert_eq!(Controls::MOUSE_AREA_PADDING, 20);
    assert!(controls.mouse_in_play_area_within_padding((-20, -20), 20));
    assert!(controls.mouse_in_play_area_within_padding((180, 180), 20));
    assert!(!controls.mouse_in_play_area_within_padding((-21, 0), 20));
    assert!(!controls.mouse_in_play_area_within_padding((0, -21), 20));
    assert!(!controls.mouse_in_play_area_within_padding((181, 0), 20));
    assert!(!controls.mouse_in_play_area_within_padding((0, 181), 20));
    assert!(controls.mouse_in_play_area_within_padding((0, 160), 0));
    assert!(!controls.mouse_in_play_area_within_padding((-1, 0), 0));
    assert!(controls.mouse_in_play_area_within_padding((-i16::MAX, i16::MAX), i16::MAX));
    assert!(!controls.mouse_in_play_area_within_padding((i16::MIN, 0), i16::MAX));
    assert!(!controls.mouse_in_play_area_within_padding((0, 0), i16::MIN));
}
