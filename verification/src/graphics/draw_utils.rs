//! The drawing commands, and the heads-up display.

use vstd::prelude::*;
use crate::console::SCREEN_SIZE;
use crate::entities::player::{Player, PlayerN};
use crate::graphics::palette::DRAW_COLOR_PLAIN;

verus! {

/// A picture that the host holds.
#[derive(Clone, Copy, Debug, PartialEq, Eq, Structural)]
pub enum Sprite {
    /// The backdrop of the title screen.
    IntroScreen,
    /// The game's name.
    Title,
    /// A mouse with its left button marked.
    LeftMouse,
    /// A mouse with its right button marked.
    RightMouse,
    /// A mouse with its middle button marked.
    MiddleMouse,
    /// The heart that stands for a life.
    Heart,
}

/// One step of painting a frame. The host carries the steps out in order.
///
/// A text is a string whose characters are all below 256; each stands for
/// the byte of the same number in the console's font, where the bytes from
/// 0x80 on are the pictures of the buttons.
#[derive(Clone, Copy, Debug, PartialEq, Eq)]
pub enum DrawCommand {
    /// Selects the draw colours for the steps that follow.
    Color(u16),
    Pixel { x: i32, y: i32 },
    Rect { x: i32, y: i32, width: u32, height: u32 },
    Oval { x: i32, y: i32, width: u32, height: u32 },
    Text { text: &'static str, x: i32, y: i32 },
    /// The text `prefix` followed by `value` in decimal digits.
    Number { prefix: &'static str, value: u32, x: i32, y: i32 },
    Blit { sprite: Sprite, x: i32, y: i32 },
    /// Every joined player, at the place the host keeps for them.
    Players,
    /// Every enemy that is alive.
    Enemies,
    /// Every bomb on the field.
    Bombs,
    /// The enemy that killed a player.
    Killer,
}

/// Bytes of the framebuffer: four pixels of two bits in each byte, row by
/// row.
pub const FRAMEBUFFER_SIZE: usize = 6400;

/// Pixels of the screen.
pub const PIXELS: usize = 25_600;

/// The colour of pixel number `p` of the framebuffer. The pixels of a byte
/// are counted from its lowest bits.
pub open spec fn pixel_at(framebuffer: Seq<u8>, p: int) -> u8 {
    (framebuffer[p / 4] >> ((2 * (p % 4)) as u8)) & 3
}

/// The colour that the first draw colour paints with; none if it is
/// transparent.
pub open spec fn pen(draw_colors: u16) -> Option<u8> {
    if draw_colors & 0xf == 0 {
        None
    } else {
        Some(((((draw_colors & 0xf) as u8) - 1) as u8) & 3)
    }
}

/// Writing two bits into a byte sets these two bits and no others.
proof fn lemma_two_bits_set(byte: u8, color: u8, at: u8, read: u8)
    by (bit_vector)
    requires
        color < 4,
        at == 0 || at == 2 || at == 4 || at == 6,
        read == 0 || read == 2 || read == 4 || read == 6,
    ensures
        at == read ==> (((color << at) | (byte & !(3u8 << at))) >> read) & 3 == color,
        at != read ==> (((color << at) | (byte & !(3u8 << at))) >> read) & 3 == (byte >> read) & 3,
{
}

/// The pen of a draw colour is one of the four colours.
proof fn lemma_pen_is_a_color(low: u8)
    by (bit_vector)
    requires
        0 < low < 16,
    ensures
        ((low - 1) as u8) & 3 < 4,
{
}

/// Paints the pixel in column `x` of row `y` with the first draw colour. A
/// transparent draw colour paints nothing. Rows are 160 pixels long; the
/// pixel must be one of the framebuffer.
pub fn pixel(framebuffer: &mut [u8; 6400], draw_colors: u16, x: i32, y: i32)
    requires
        i32::MIN <= y * 160 <= i32::MAX,
        0 <= y * 160 + x < PIXELS,
    ensures
        pen(draw_colors) is None ==> *final(framebuffer) == *old(framebuffer),
        pen(draw_colors) matches Some(color) ==> {
            &&& pixel_at(final(framebuffer)@, y * 160 + x) == color
            &&& forall|p: int|
                0 <= p < PIXELS && p != y * 160 + x ==> pixel_at(final(framebuffer)@, p)
                    == pixel_at(old(framebuffer)@, p)
        },
{
    let low: u8 = (draw_colors & 0xf) as u8;
    assert(draw_colors & 0xf < 16) by (bit_vector);
    if low == 0 {
        // Transparent
        return ;
    }
    let color: u8 = (low - 1) & 3;
    proof {
        lemma_pen_is_a_color(low);
    }
    let p: usize = (y * 160 + x) as usize;
    // The byte of the framebuffer that holds the pixel, and the place of
    // the pixel within the byte
    let idx: usize = p / 4;
    let shift: u8 = ((p % 4) * 2) as u8;
    let mask: u8 = 3u8 << shift;
    let before: u8 = framebuffer[idx];
    framebuffer[idx] = (color << shift) | (before & !mask);
    proof {
        let after = framebuffer@;
        assert(pixel_at(after, p as int) == color) by {
            lemma_two_bits_set(before, color, shift, shift);
        }
        assert forall|q: int| 0 <= q < PIXELS && q != p implies pixel_at(after, q) == pixel_at(
            old(framebuffer)@,
            q,
        ) by {
            if q / 4 == idx {
                lemma_two_bits_set(before, color, shift, (2 * (q % 4)) as u8);
            }
        }
    }
}

/// Diameter of a player's disc, in pixels.
pub const PLAYER_SIZE: u32 = 7;

/// Diameter of an enemy's disc, in pixels.
pub const ENEMY_SIZE: u32 = 5;

/// Diameter of a bomb that has not exploded, in pixels.
pub const BOMB_SIZE: u32 = 9;

/// A disc of the given colour and diameter whose bounding box has its top
/// left corner at (`x`, `y`).
pub open spec fn disk(x: i32, y: i32, size: u32, color: u16) -> Seq<DrawCommand> {
    seq![DrawCommand::Color(color), DrawCommand::Oval { x, y, width: size, height: size }]
}

/// The dots that tell the players apart, around the centre (`cx`, `cy`) of
/// the disc: as many as the player's number, laid out as a point, a pair, a
/// triangle and a diamond.
pub open spec fn player_dots(n: PlayerN, cx: int, cy: int) -> Seq<DrawCommand> {
    match n {
        PlayerN::P1 => seq![DrawCommand::Pixel { x: cx as i32, y: cy as i32 }],
        PlayerN::P2 => seq![
            DrawCommand::Pixel { x: (cx - 1) as i32, y: cy as i32 },
            DrawCommand::Pixel { x: (cx + 1) as i32, y: cy as i32 },
        ],
        PlayerN::P3 => seq![
            DrawCommand::Pixel { x: (cx - 1) as i32, y: cy as i32 },
            DrawCommand::Pixel { x: cx as i32, y: (cy - 1) as i32 },
            DrawCommand::Pixel { x: (cx + 1) as i32, y: cy as i32 },
        ],
        PlayerN::P4 => seq![
            DrawCommand::Pixel { x: (cx - 1) as i32, y: cy as i32 },
            DrawCommand::Pixel { x: cx as i32, y: (cy + 1) as i32 },
            DrawCommand::Pixel { x: cx as i32, y: (cy - 1) as i32 },
            DrawCommand::Pixel { x: (cx + 1) as i32, y: cy as i32 },
        ],
    }
}

/// A player whose disc has its top left corner at (`x`, `y`): the disc in
/// the player's colour, then the dots of the player's number at its centre.
pub open spec fn player_disk(player: Player, x: i32, y: i32) -> Seq<DrawCommand> {
    disk(x, y, PLAYER_SIZE, player.entity.color) + seq![DrawCommand::Color(DRAW_COLOR_PLAIN)]
        + player_dots(player.player_number, x + 3, y + 3)
}

/// Appends a disc.
pub fn draw_disk(commands: &mut Vec<DrawCommand>, x: i32, y: i32, size: u32, color: u16)
    ensures
        final(commands)@ == old(commands)@ + disk(x, y, size, color),
{
    commands.push(DrawCommand::Color(color));
    commands.push(DrawCommand::Oval { x, y, width: size, height: size });
    assert(commands@ =~= old(commands)@ + disk(x, y, size, color));
}

/// Appends a player, disc and dots. The corner must leave room for the
/// disc within the range of the coordinates.
pub fn draw_player(commands: &mut Vec<DrawCommand>, player: &Player, x: i32, y: i32)
    requires
        i32::MIN + 1 <= x <= i32::MAX - 4,
        i32::MIN + 1 <= y <= i32::MAX - 4,
    ensures
        final(commands)@ == old(commands)@ + player_disk(*player, x, y),
{
    draw_disk(commands, x, y, PLAYER_SIZE, player.entity.color);
    commands.push(DrawCommand::Color(DRAW_COLOR_PLAIN));
    let cx: i32 = x + 3;
    let cy: i32 = y + 3;
    match player.player_number {
        PlayerN::P1 => {
            commands.push(DrawCommand::Pixel { x: cx, y: cy });
        },
        PlayerN::P2 => {
            commands.push(DrawCommand::Pixel { x: cx - 1, y: cy });
            commands.push(DrawCommand::Pixel { x: cx + 1, y: cy });
        },
        PlayerN::P3 => {
            commands.push(DrawCommand::Pixel { x: cx - 1, y: cy });
            commands.push(DrawCommand::Pixel { x: cx, y: cy - 1 });
            commands.push(DrawCommand::Pixel { x: cx + 1, y: cy });
        },
        PlayerN::P4 => {
            commands.push(DrawCommand::Pixel { x: cx - 1, y: cy });
            commands.push(DrawCommand::Pixel { x: cx, y: cy + 1 });
            commands.push(DrawCommand::Pixel { x: cx, y: cy - 1 });
            commands.push(DrawCommand::Pixel { x: cx + 1, y: cy });
        },
    }
    assert(commands@ =~= old(commands)@ + player_disk(*player, x, y));
}

/// The most lives that the display can paint: the heart of the last one
/// lies as far left as the coordinates reach.
pub const MAX_HEARTS: u32 = 268_435_475;

/// The heart of life number `l`, counted from zero at the right edge.
pub open spec fn heart(l: int) -> DrawCommand {
    DrawCommand::Blit { sprite: Sprite::Heart, x: (151 - l * 8) as i32, y: 151 }
}

/// The heads-up display: the score at the top left, the best score beside
/// it if it is shown, the multiplier at the bottom left, and one heart for
/// each life from the bottom right corner leftwards.
pub open spec fn hud(
    lives: u32,
    score: u32,
    high_score: u32,
    multiplier: u32,
    show_high_score: bool,
) -> Seq<DrawCommand> {
    seq![
        DrawCommand::Color(0x12),
        DrawCommand::Number { prefix: "", value: score, x: 1, y: 1 },
    ] + (if show_high_score {
        seq![DrawCommand::Number { prefix: "H:", value: high_score, x: 73, y: 1 }]
    } else {
        Seq::empty()
    }) + seq![
        DrawCommand::Color(0x12),
        DrawCommand::Number { prefix: "x", value: multiplier, x: 1, y: 152 },
        DrawCommand::Color(0x20),
    ] + Seq::new(lives as nat, |l: int| heart(l))
}

/// Draws score, best score, multiplier and the count of lives, one heart
/// for each life. Only the first player's lives count: they are the pool
/// that all players share. The place of the last heart must be within the
/// reach of the coordinates.
pub fn draw_hud(
    lives: u32,
    score: u32,
    high_score: u32,
    multiplier: u32,
    show_high_score: bool,
) -> (commands: Vec<DrawCommand>)
    requires
        lives <= MAX_HEARTS,
    ensures
        commands@ == hud(lives, score, high_score, multiplier, show_high_score),
{
    let mut commands: Vec<DrawCommand> = Vec::new();
    commands.push(DrawCommand::Color(0x12));
    commands.push(DrawCommand::Number { prefix: "", value: score, x: 1, y: 1 });
    if show_high_score {
        commands.push(DrawCommand::Number { prefix: "H:", value: high_score, x: 73, y: 1 });
    }
    commands.push(DrawCommand::Color(0x12));
    commands.push(
        DrawCommand::Number { prefix: "x", value: multiplier, x: 1, y: SCREEN_SIZE as i32 - 8 },
    );
    commands.push(DrawCommand::Color(0x20));
    let ghost head = commands@;
    let h_start: i32 = SCREEN_SIZE as i32 - 9;
    let mut l: u32 = 0;
    while l < lives
        invariant
            l <= lives <= MAX_HEARTS,
            h_start == 151,
            commands@ == head + Seq::new(l as nat, |k: int| heart(k)),
        decreases lives - l,
    {
        let x: i64 = h_start as i64 - l as i64 * 8;
        commands.push(DrawCommand::Blit { sprite: Sprite::Heart, x: x as i32, y: h_start });
        l += 1;
        assert(commands@ =~= head + Seq::new(l as nat, |k: int| heart(k)));
    }
    assert(commands@ =~= hud(lives, score, high_score, multiplier, show_high_score));
    commands
}

} // verus!
