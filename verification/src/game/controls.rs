//! Decoding of the input registers into events.

use vstd::prelude::*;
use crate::console::{
    BUTTON_1, BUTTON_2, BUTTON_DOWN, BUTTON_LEFT, BUTTON_RIGHT, BUTTON_UP, MOUSE_LEFT,
    MOUSE_MIDDLE, MOUSE_RIGHT, SCREEN_SIZE,
};
use crate::entities::player::PlayerN;

verus! {

/// What a player did, as far as the game cares.
#[derive(Clone, Copy, Debug, PartialEq, Eq)]
pub enum ControlEvent {
    MouseLeftHold((i16, i16)),
    MouseLeftClick,
    MouseRightClick,
    MouseMiddleClick,
    Left(PlayerN),
    Down(PlayerN),
    Up(PlayerN),
    Right(PlayerN),
    Btn1(PlayerN),
    Btn2(PlayerN),
}

/// The input registers as sampled in one frame: the mouse buttons, the
/// pointer, and the four gamepads in player order.
#[derive(Clone, Copy, Debug, PartialEq, Eq)]
pub struct Peripherals {
    pub mouse_buttons: u8,
    pub mouse_x: i16,
    pub mouse_y: i16,
    pub gamepads: [u8; 4],
}

/// Handles user actions: remembers the registers of the frame before, so
/// that a button that has just gone down can be told from one that is held.
#[derive(Clone, Copy, Debug, PartialEq, Eq)]
pub struct Controls {
    pub prev_mouse: u8,
    pub prev_gamepad1: u8,
    pub prev_gamepad2: u8,
    pub prev_gamepad3: u8,
    pub prev_gamepad4: u8,
}

/// Whether `button` is down in `state`.
pub open spec fn held(state: u8, button: u8) -> bool {
    state & button != 0
}

/// Whether `button` is down in `state` and was up in `prev`.
pub open spec fn pressed(state: u8, prev: u8, button: u8) -> bool {
    held(state, button) && !held(prev, button)
}

/// `event` if `happened`, else nothing.
pub open spec fn when(happened: bool, event: ControlEvent) -> Seq<ControlEvent> {
    if happened {
        seq![event]
    } else {
        Seq::empty()
    }
}

/// Whether the pointer is on the screen or at most `padding` pixels off it.
pub open spec fn in_play_area(x: i16, y: i16, padding: i16) -> bool {
    &&& -padding <= x <= SCREEN_SIZE + padding
    &&& -padding <= y <= SCREEN_SIZE + padding
}

/// The events of the mouse: holding the left button, then the clicks of the
/// right, left and middle button. Off the play area the mouse is ignored.
pub open spec fn mouse_events(prev: u8, now: Peripherals) -> Seq<ControlEvent> {
    let inside = in_play_area(now.mouse_x, now.mouse_y, Controls::MOUSE_AREA_PADDING);
    let buttons = now.mouse_buttons;
    when(
        inside && held(buttons, MOUSE_LEFT),
        ControlEvent::MouseLeftHold((now.mouse_x, now.mouse_y)),
    ) + when(inside && pressed(buttons, prev, MOUSE_RIGHT), ControlEvent::MouseRightClick) + when(
        inside && pressed(buttons, prev, MOUSE_LEFT),
        ControlEvent::MouseLeftClick,
    ) + when(inside && pressed(buttons, prev, MOUSE_MIDDLE), ControlEvent::MouseMiddleClick)
}

/// The events of one gamepad: the directions that are held, then the
/// buttons that have just gone down.
pub open spec fn gamepad_events(prev: u8, pad: u8, n: PlayerN) -> Seq<ControlEvent> {
    when(held(pad, BUTTON_LEFT), ControlEvent::Left(n)) + when(
        held(pad, BUTTON_DOWN),
        ControlEvent::Down(n),
    ) + when(held(pad, BUTTON_UP), ControlEvent::Up(n)) + when(
        held(pad, BUTTON_RIGHT),
        ControlEvent::Right(n),
    ) + when(pressed(pad, prev, BUTTON_1), ControlEvent::Btn1(n)) + when(
        pressed(pad, prev, BUTTON_2),
        ControlEvent::Btn2(n),
    )
}

impl Controls {
    /// Extra space around the play area in which the mouse still counts.
    pub const MOUSE_AREA_PADDING: i16 = 20;

    /// The events that lead from the remembered registers to `now`: those
    /// of the mouse, then those of each gamepad in player order.
    pub open spec fn events(self, now: Peripherals) -> Seq<ControlEvent> {
        mouse_events(self.prev_mouse, now) + gamepad_events(
            self.prev_gamepad1,
            now.gamepads[0],
            PlayerN::P1,
        ) + gamepad_events(self.prev_gamepad2, now.gamepads[1], PlayerN::P2) + gamepad_events(
            self.prev_gamepad3,
            now.gamepads[2],
            PlayerN::P3,
        ) + gamepad_events(self.prev_gamepad4, now.gamepads[3], PlayerN::P4)
    }

    /// The memory of the registers `now`.
    pub open spec fn remembering(now: Peripherals) -> Controls {
        Controls {
            prev_mouse: now.mouse_buttons,
            prev_gamepad1: now.gamepads[0],
            prev_gamepad2: now.gamepads[1],
            prev_gamepad3: now.gamepads[2],
            prev_gamepad4: now.gamepads[3],
        }
    }

    /// Controls that take the registers `now` for those of the frame before.
    pub fn new(now: &Peripherals) -> (controls: Controls)
        ensures
            controls == Controls::remembering(*now),
    {
        Controls {
            prev_mouse: now.mouse_buttons,
            prev_gamepad1: now.gamepads[0],
            prev_gamepad2: now.gamepads[1],
            prev_gamepad3: now.gamepads[2],
            prev_gamepad4: now.gamepads[3],
        }
    }

    /// Turns the registers of this frame into events, and remembers them
    /// for the next one.
    pub fn update(&mut self, now: &Peripherals) -> (events: Vec<ControlEvent>)
        ensures
            events@ == old(self).events(*now),
            *final(self) == Controls::remembering(*now),
    {
        let mut events: Vec<ControlEvent> = Vec::new();
        let mouse = now.mouse_buttons;
        let inside = self.mouse_in_play_area_within_padding(
            (now.mouse_x, now.mouse_y),
            Controls::MOUSE_AREA_PADDING,
        );
        if inside && mouse & MOUSE_LEFT != 0 {
            events.push(ControlEvent::MouseLeftHold((now.mouse_x, now.mouse_y)));
        }
        if inside && mouse & MOUSE_RIGHT != 0 && self.prev_mouse & MOUSE_RIGHT == 0 {
            events.push(ControlEvent::MouseRightClick);
        }
        if inside && mouse & MOUSE_LEFT != 0 && self.prev_mouse & MOUSE_LEFT == 0 {
            events.push(ControlEvent::MouseLeftClick);
        }
        if inside && mouse & MOUSE_MIDDLE != 0 && self.prev_mouse & MOUSE_MIDDLE == 0 {
            events.push(ControlEvent::MouseMiddleClick);
        }
        assert(events@ =~= mouse_events(self.prev_mouse, *now));
        push_gamepad_events(&mut events, self.prev_gamepad1, now.gamepads[0], PlayerN::P1);
        push_gamepad_events(&mut events, self.prev_gamepad2, now.gamepads[1], PlayerN::P2);
        push_gamepad_events(&mut events, self.prev_gamepad3, now.gamepads[2], PlayerN::P3);
        push_gamepad_events(&mut events, self.prev_gamepad4, now.gamepads[3], PlayerN::P4);
        self.prev_gamepad1 = now.gamepads[0];
        self.prev_gamepad2 = now.gamepads[1];
        self.prev_gamepad3 = now.gamepads[2];
        self.prev_gamepad4 = now.gamepads[3];
        self.prev_mouse = mouse;
        events
    }

    /// This restricts the mouse to the play area, with some padding around
    /// it, so that a pointer slightly off the screen still steers.
    pub fn mouse_in_play_area_within_padding(&self, mouse_pos: (i16, i16), padding: i16) -> (inside:
        bool)
        ensures
            inside == in_play_area(mouse_pos.0, mouse_pos.1, padding),
    {
        let x: i32 = mouse_pos.0 as i32;
        let y: i32 = mouse_pos.1 as i32;
        let pad: i32 = padding as i32;
        let far: i32 = SCREEN_SIZE as i32 + pad;
        x >= -pad && x <= far && y >= -pad && y <= far
    }
}

/// Appends the events of one gamepad.
fn push_gamepad_events(events: &mut Vec<ControlEvent>, prev: u8, pad: u8, n: PlayerN)
    ensures
        final(events)@ == old(events)@ + gamepad_events(prev, pad, n),
{
    if pad & BUTTON_LEFT != 0 {
        events.push(ControlEvent::Left(n));
    }
    if pad & BUTTON_DOWN != 0 {
        events.push(ControlEvent::Down(n));
    }
    if pad & BUTTON_UP != 0 {
        events.push(ControlEvent::Up(n));
    }
    if pad & BUTTON_RIGHT != 0 {
        events.push(ControlEvent::Right(n));
    }
    if pad & BUTTON_1 != 0 && prev & BUTTON_1 == 0 {
        events.push(ControlEvent::Btn1(n));
    }
    if pad & BUTTON_2 != 0 && prev & BUTTON_2 == 0 {
        events.push(ControlEvent::Btn2(n));
    }
    assert(events@ =~= old(events)@ + gamepad_events(prev, pad, n));
}

} // verus!
