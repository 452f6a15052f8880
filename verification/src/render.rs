//! What a frame draws: the color the surface is cleared to, and where on
//! the surface the player's sprite goes.

use vstd::prelude::*;

use crate::geometry::{clamp_coordinate, Position, Rect, COORD_MAX, COORD_MIN, SIZE_MAX};
use crate::movement::Player;

verus! {

/// An opaque color, by its red, green and blue parts.
#[derive(Clone, Copy, Debug, PartialEq, Eq, Structural)]
pub struct Color {
    pub r: u8,
    pub g: u8,
    pub b: u8,
}

/// The value of the frame counter after `counter`: one more, starting
/// over at 0 after 255.
pub open spec fn counter_after(counter: u8) -> u8 {
    ((counter + 1) % 256) as u8
}

/// The color that the surface is cleared to while the frame counter
/// stands at `counter`: red rises with the counter, blue falls by as much,
/// and green stays put.
pub open spec fn color_at(counter: u8) -> Color {
    Color { r: counter, g: 64, b: (255 - counter) as u8 }
}

/// The rectangle of the surface that the player's sprite is drawn into.
///
/// The player's position is relative to the middle of a surface of
/// `width` by `height` pixels, and the rectangle has the sprite's size and
/// its middle at the player.
pub open spec fn screen_rect_of(player: Player, width: u32, height: u32) -> Rect {
    Rect::centered(
        player.position.shifted(
            clamp_coordinate((width / 2) as int),
            clamp_coordinate((height / 2) as int),
        ),
        player.sprite.width as int,
        player.sprite.height as int,
    )
}

/// Steps the frame counter.
pub fn next_counter(counter: u8) -> (next: u8)
    ensures
        next == counter_after(counter),
{
    if counter == 255 {
        0
    } else {
        counter + 1
    }
}

/// The color to clear the surface to.
pub fn clear_color(counter: u8) -> (color: Color)
    ensures
        color == color_at(counter),
{
    Color { r: counter, g: 64, b: 255 - counter }
}

/// Where to draw the player on a surface of `width` by `height` pixels.
pub fn screen_rect(player: &Player, width: u32, height: u32) -> (rect: Rect)
    ensures
        rect == screen_rect_of(*player, width, height),
        rect.wf(),
{
    let middle: Position = Position::new((width / 2) as i32, (height / 2) as i32);
    let center: Position = player.position.offset(middle.x, middle.y);
    Rect::from_center(center, player.sprite.width, player.sprite.height)
}

/// The clear color returns to where it started after 256 frames and not
/// before: each counter value has a color of its own, and red and blue
/// always add up to 255.
pub proof fn lemma_color_cycle(a: u8, b: u8)
    ensures
        color_at(a).r + color_at(a).b == 255,
        color_at(a) == color_at(b) <==> a == b,
        counter_after(a) == counter_after(b) <==> a == b,
        a < 255 ==> counter_after(a) == a + 1,
        counter_after(255) == 0,
{
}

/// On a surface and with a sprite of ordinary size, and a player not
/// near the bounds of the plane, nothing saturates: the sprite is drawn
/// in its own size with its middle at the player's position, counted from
/// the middle of the surface.
pub proof fn lemma_screen_rect_centered(player: Player, width: u32, height: u32)
    requires
        player.sprite.wf(),
        width <= SIZE_MAX,
        height <= SIZE_MAX,
        COORD_MIN + player.sprite.width / 2 <= player.position.x + width / 2 <= COORD_MAX,
        COORD_MIN + player.sprite.height / 2 <= player.position.y + height / 2 <= COORD_MAX,
    ensures
        screen_rect_of(player, width, height).width == player.sprite.width,
        screen_rect_of(player, width, height).height == player.sprite.height,
        screen_rect_of(player, width, height).center() == (
            player.position.x + width / 2,
            player.position.y + height / 2,
        ),
{
}

} // verus!
