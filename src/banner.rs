//! The scrolling text banner: where it starts and how its offset moves.

use vstd::prelude::*;

use embedded_graphics::mono_font::ascii::FONT_10X20;

verus! {

/// Width of the display in pixels; a banner that has scrolled off the left
/// edge re-enters from here.
pub const DISPLAY_WIDTH: i32 = 128;

/// Row, in pixels, on which the banner is centred.
pub const BANNER_ROW: i32 = 32;

/// The message the banner shows.
pub const PUBLIC_SERVICE_ANNOUNCEMENT: &'static str =
    "This is another public service announcement brought to you, in part, by Slim Shady.";

/// A text banner drawn at a horizontal offset that scrolls leftwards.
pub struct Banner {
    /// The text shown.
    pub message: &'static str,
    /// Number of characters in `message`.
    pub message_len: usize,
    /// Width of one character cell of the banner's font, in pixels.
    pub glyph_width: i32,
    /// Horizontal offset of the text's left edge.
    pub offset_x: i32,
    /// Vertical offset of the text's middle line.
    pub offset_y: i32,
}

/// Relies on embedded_graphics::mono_font::ascii::FONT_10X20: its character
/// cells are 10 pixels wide.
#[verifier::external_body]
fn font_10x20_glyph_width() -> (w: u32)
    ensures
        w == 10,
{
    FONT_10X20.character_size.width
}

/// The announcement banner in its starting place: just past the right edge
/// of the display, on the middle row, set in the 10x20 font.
pub fn stuff() -> (b: Banner)
    ensures
        b.message@ == PUBLIC_SERVICE_ANNOUNCEMENT@,
        b.message_len == PUBLIC_SERVICE_ANNOUNCEMENT@.len(),
        b.glyph_width == 10,
        b.offset_x == DISPLAY_WIDTH,
        b.offset_y == BANNER_ROW,
{
    let message = PUBLIC_SERVICE_ANNOUNCEMENT;
    let message_len = message.unicode_len();
    let glyph_width = font_10x20_glyph_width() as i32;
    Banner { message, message_len, glyph_width, offset_x: DISPLAY_WIDTH, offset_y: BANNER_ROW }
}

/// Where a scrolling offset lands after moving `decr_value` pixels left: the
/// moved offset, or `DISPLAY_WIDTH` once a text of `messg_len` characters of
/// `font_width` pixels has gone wholly past the left edge.
pub open spec fn scrolled(num: int, decr_value: int, messg_len: int, font_width: int) -> int {
    if num - decr_value < -(messg_len * font_width) {
        DISPLAY_WIDTH as int
    } else {
        num - decr_value
    }
}

/// Moves a scrolling offset `decr_value` pixels left, wrapping it back to the
/// right edge of the display once the whole text is out of sight.
pub fn wrapping_decr(num: &mut i32, decr_value: i32, messg_len: usize, font_width: i32)
    requires
        i32::MIN <= *old(num) - decr_value <= i32::MAX,
        messg_len <= i32::MAX,
        i32::MIN < messg_len * font_width <= i32::MAX,
    ensures
        *final(num) == scrolled(*old(num) as int, decr_value as int, messg_len as int, font_width as int),
{
    *num -= decr_value;
    if *num < -(messg_len as i32 * font_width) {
        *num = DISPLAY_WIDTH;
    }
}

} // verus!
