//! The screens that are shown outside a running game.

use vstd::prelude::*;
use crate::entities::player::{toggled, Player, PlayerN};
use crate::graphics::draw_utils::{
    disk, draw_disk, draw_player, player_disk, DrawCommand, Sprite, BOMB_SIZE, ENEMY_SIZE,
};
use crate::graphics::palette::{DRAW_COLOR_A, DRAW_COLOR_B, DRAW_COLOR_BOMB};

verus! {

/// The screen that is on.
#[derive(Clone, Copy, Debug, PartialEq, Eq, Structural)]
pub enum ScreenName {
    Title,
    HowToPlay,
    MainGame,
    GameOver,
}

/// The value of a frame count once it is cut down to a signed 32-bit number.
pub open spec fn as_signed(tick: usize) -> int {
    let low = tick as int % 0x1_0000_0000;
    if low < 0x8000_0000 {
        low
    } else {
        low - 0x1_0000_0000
    }
}

/// A quarter of the remainder of `t` by `period`, rounded towards zero; the
/// remainder has the sign of `t`.
pub open spec fn sway(t: int, period: int) -> int {
    if t >= 0 {
        (t % period) / 4
    } else {
        -(((-t) % period) / 4)
    }
}

/// The title screen: the backdrop, and on it the game's name, which sways
/// by up to two pixels with the frame count.
pub open spec fn title_screen(tick: usize) -> Seq<DrawCommand> {
    seq![
        DrawCommand::Color(0x1234),
        DrawCommand::Blit { sprite: Sprite::IntroScreen, x: 0, y: 0 },
        DrawCommand::Color(0x0234),
        DrawCommand::Blit {
            sprite: Sprite::Title,
            x: (20 + sway(as_signed(tick), 11)) as i32,
            y: (110 + sway(as_signed(tick), 7)) as i32,
        },
        DrawCommand::Color(0x02),
    ]
}

/// A frame count cut down to a signed 32-bit number, then swayed.
fn swayed(tick: usize, period: i64) -> (offset: i32)
    requires
        period == 11 || period == 7,
    ensures
        offset == sway(as_signed(tick), period as int),
        -2 <= offset <= 2,
{
    let low: u64 = (tick as u64) % 0x1_0000_0000;
    if low < 0x8000_0000 {
        (((low as i64) % period) / 4) as i32
    } else {
        let t: i64 = 0x1_0000_0000 - low as i64;
        (0 - ((t % period) / 4)) as i32
    }
}

/// The commands that paint the title screen in frame `tick`.
pub fn title(tick: usize) -> (commands: Vec<DrawCommand>)
    ensures
        commands@ == title_screen(tick),
{
    let mut commands: Vec<DrawCommand> = Vec::new();
    commands.push(DrawCommand::Color(0x1234));
    commands.push(DrawCommand::Blit { sprite: Sprite::IntroScreen, x: 0, y: 0 });
    commands.push(DrawCommand::Color(0x0234));
    commands.push(
        DrawCommand::Blit {
            sprite: Sprite::Title,
            x: 20 + swayed(tick, 11),
            y: 110 + swayed(tick, 7),
        },
    );
    commands.push(DrawCommand::Color(0x02));
    assert(commands@ =~= title_screen(tick));
    commands
}

/// Whether the invitation to start is dark in this frame. It blinks in
/// step with the beat of the introduction.
pub open spec fn start_is_dark(tick: usize) -> bool {
    (tick / 4) % 10 < 4
}

/// The upper part of the instructions: the frame, the heading and the
/// legend of the pieces.
pub open spec fn how_to_play_legend() -> Seq<DrawCommand> {
    seq![
        DrawCommand::Color(0x11),
        DrawCommand::Rect { x: 20, y: 5, width: 120, height: 140 },
        DrawCommand::Color(0x23),
        DrawCommand::Rect { x: 2, y: 8, width: 156, height: 15 },
        DrawCommand::Color(0x02),
        DrawCommand::Text { text: "--- HOW TO PLAY ---", x: 4, y: 12 },
        DrawCommand::Color(0x12),
        DrawCommand::Text { text: "   You:", x: 20, y: 30 },
        DrawCommand::Text { text: " Avoid:", x: 20, y: 40 },
        DrawCommand::Text { text: "Absorb:", x: 20, y: 50 },
        DrawCommand::Text { text: "  Bomb:", x: 20, y: 60 },
    ] + player_disk(Player::spec_new(PlayerN::P1), 79, 30) + disk(80, 41, ENEMY_SIZE, DRAW_COLOR_A)
        + disk(80, 51, ENEMY_SIZE, DRAW_COLOR_B) + disk(78, 59, BOMB_SIZE, DRAW_COLOR_BOMB)
}

/// The middle part of the instructions: how to move, and how the button
/// switches the colour.
pub open spec fn how_to_play_controls() -> Seq<DrawCommand> {
    let player = Player::spec_new(PlayerN::P1);
    let switched = Player {
        entity: crate::entities::entity::Entity {
            color: toggled(player.entity.color),
            life: player.entity.life,
        },
        player_number: player.player_number,
    };
    seq![
        DrawCommand::Color(0x12),
        DrawCommand::Text { text: " /\u{84}\u{87}\u{86}\u{85}:Move", x: 20, y: 75 },
        DrawCommand::Color(0x0234),
        DrawCommand::Blit { sprite: Sprite::LeftMouse, x: 19, y: 74 },
        DrawCommand::Color(0x12),
        DrawCommand::Text { text: "    /\u{80}: -> ->", x: 20, y: 85 },
        DrawCommand::Color(0x0234),
        DrawCommand::Blit { sprite: Sprite::RightMouse, x: 44, y: 85 },
    ] + player_disk(player, 75, 85) + player_disk(switched, 100, 85) + player_disk(player, 124, 85)
}

/// The lower part of the instructions: the note on multiplayer, the
/// blinking invitation to start, and the palette key.
pub open spec fn how_to_play_footer(tick: usize) -> Seq<DrawCommand> {
    seq![
        DrawCommand::Color(0x13),
        DrawCommand::Text { text: "--Multiplayer--\nUp to 4 Players", x: 20, y: 101 },
        DrawCommand::Color(0x23),
        DrawCommand::Rect { x: 10, y: 127, width: 140, height: 13 },
        DrawCommand::Color(if start_is_dark(tick) { 0x00 } else { 0x04 }),
        DrawCommand::Text { text: "Press \u{80} to start", x: 16, y: 130 },
        DrawCommand::Color(0x13),
        DrawCommand::Text { text: "/\u{81}:palette", x: 74, y: 150 },
        DrawCommand::Color(0x0234),
        DrawCommand::Blit { sprite: Sprite::MiddleMouse, x: 66, y: 150 },
    ]
}

/// The instructions.
pub open spec fn how_to_play_screen(tick: usize) -> Seq<DrawCommand> {
    how_to_play_legend() + how_to_play_controls() + how_to_play_footer(tick)
}

/// The commands that paint the instructions in frame `tick`.
pub fn how_to_play(tick: usize) -> (commands: Vec<DrawCommand>)
    ensures
        commands@ == how_to_play_screen(tick),
{
    let voff: i32 = 5;
    let hoff: i32 = 20;
    let mut commands: Vec<DrawCommand> = Vec::new();
    commands.push(DrawCommand::Color(0x11));
    commands.push(DrawCommand::Rect { x: hoff, y: voff, width: 120, height: 140 });
    commands.push(DrawCommand::Color(0x23));
    commands.push(DrawCommand::Rect { x: hoff - 18, y: voff + 3, width: 156, height: 15 });
    commands.push(DrawCommand::Color(0x02));
    commands.push(DrawCommand::Text { text: "--- HOW TO PLAY ---", x: hoff - 16, y: voff + 7 });
    let mut player = Player::new(PlayerN::P1);
    commands.push(DrawCommand::Color(0x12));
    commands.push(DrawCommand::Text { text: "   You:", x: hoff, y: voff + 25 });
    commands.push(DrawCommand::Text { text: " Avoid:", x: hoff, y: voff + 35 });
    commands.push(DrawCommand::Text { text: "Absorb:", x: hoff, y: voff + 45 });
    commands.push(DrawCommand::Text { text: "  Bomb:", x: hoff, y: voff + 55 });
    draw_player(&mut commands, &player, hoff + 59, voff + 25);
    draw_disk(&mut commands, hoff + 60, voff + 36, ENEMY_SIZE, DRAW_COLOR_A);
    draw_disk(&mut commands, hoff + 60, voff + 46, ENEMY_SIZE, DRAW_COLOR_B);
    draw_disk(&mut commands, hoff + 58, voff + 54, BOMB_SIZE, DRAW_COLOR_BOMB);
    assert(commands@ =~= how_to_play_legend());
    let ghost legend = commands@;
    commands.push(DrawCommand::Color(0x12));
    commands.push(
        DrawCommand::Text { text: " /\u{84}\u{87}\u{86}\u{85}:Move", x: hoff, y: voff + 70 },
    );
    commands.push(DrawCommand::Color(0x0234));
    commands.push(DrawCommand::Blit { sprite: Sprite::LeftMouse, x: hoff - 1, y: voff + 69 });
    commands.push(DrawCommand::Color(0x12));
    commands.push(DrawCommand::Text { text: "    /\u{80}: -> ->", x: hoff, y: voff + 80 });
    commands.push(DrawCommand::Color(0x0234));
    commands.push(DrawCommand::Blit { sprite: Sprite::RightMouse, x: hoff + 24, y: voff + 80 });
    draw_player(&mut commands, &player, hoff + 55, voff + 80);
    player.toggle_color();
    draw_player(&mut commands, &player, hoff + 80, voff + 80);
    player.toggle_color();
    draw_player(&mut commands, &player, hoff + 104, voff + 80);
    assert(commands@ =~= legend + how_to_play_controls());
    let ghost upper = commands@;
    commands.push(DrawCommand::Color(0x13));
    commands.push(
        DrawCommand::Text { text: "--Multiplayer--\nUp to 4 Players", x: hoff, y: voff + 96 },
    );
    commands.push(DrawCommand::Color(0x23));
    commands.push(DrawCommand::Rect { x: hoff - 10, y: voff + 122, width: 140, height: 13 });
    if (tick / 4) % 10 < 4 {
        commands.push(DrawCommand::Color(0x00));
    } else {
        commands.push(DrawCommand::Color(0x04));
    }
    commands.push(
        DrawCommand::Text { text: "Press \u{80} to start", x: hoff - 4, y: voff + 125 },
    );
    commands.push(DrawCommand::Color(0x13));
    commands.push(DrawCommand::Text { text: "/\u{81}:palette", x: hoff + 54, y: voff + 145 });
    commands.push(DrawCommand::Color(0x0234));
    commands.push(DrawCommand::Blit { sprite: Sprite::MiddleMouse, x: hoff + 46, y: voff + 145 });
    assert(commands@ =~= upper + how_to_play_footer(tick));
    commands
}

/// Whether the invitation to restart is dark in this frame.
pub open spec fn restart_is_dark(tick: usize) -> bool {
    (tick / 2) % 10 < 5
}

/// The words over a finished game, and the blinking invitation to restart.
pub open spec fn game_over_screen(tick: usize) -> Seq<DrawCommand> {
    seq![DrawCommand::Color(0x14), DrawCommand::Text { text: "GAME OVER", x: 45, y: 70 }] + (
    if restart_is_dark(tick) {
        seq![DrawCommand::Color(0x10)]
    } else {
        Seq::empty()
    }) + seq![DrawCommand::Text { text: "Press \u{80} to restart", x: 8, y: 93 }]
}

/// The commands that paint the end of a game in frame `tick`, on top of
/// the heads-up display.
pub fn game_over(tick: usize) -> (commands: Vec<DrawCommand>)
    ensures
        commands@ == game_over_screen(tick),
{
    let mut commands: Vec<DrawCommand> = Vec::new();
    commands.push(DrawCommand::Color(0x14));
    commands.push(DrawCommand::Text { text: "GAME OVER", x: 45, y: 70 });
    if (tick / 2) % 10 < 5 {
        commands.push(DrawCommand::Color(0x10));
    }
    commands.push(DrawCommand::Text { text: "Press \u{80} to restart", x: 8, y: 93 });
    assert(commands@ =~= game_over_screen(tick));
    commands
}

} // verus!
