use vstd::prelude::*;
use crate::geometry::Point;

verus! {

/// The two colors the demo draws with.
#[derive(Clone, Copy, PartialEq, Eq, Structural, Debug)]
pub enum Color {
    Black,
    Green,
}

/// How the demo's messages look: the font's glyph cell, dark text on a
/// bright band.
#[derive(Clone, Copy, PartialEq, Eq, Structural, Debug)]
pub struct TextStyle {
    pub glyph_width: u32,
    pub glyph_height: u32,
    pub text_color: Color,
    pub background: Color,
}

/// Packs three channel values into a 16-bit RGB565 word: five bits of
/// red on top, six of green, five of blue at the bottom.
pub fn rgb565(r5: u16, g6: u16, b5: u16) -> (c: u16)
    requires
        r5 < 32,
        g6 < 64,
        b5 < 32,
    ensures
        c == r5 * 2048 + g6 * 32 + b5,
{
    r5 * 2048 + g6 * 32 + b5
}

/// The RGB565 word of a demo color: black is all channels off, green is
/// the full green channel.
pub fn color_code(c: Color) -> (v: u16)
    ensures
        c == Color::Black ==> v == 0,
        c == Color::Green ==> v == 0x07E0,
{
    match c {
        Color::Black => rgb565(0, 0, 0),
        Color::Green => rgb565(0, 63, 0),
    }
}

/// The style every message is printed in: the 8-by-13 font, black text
/// on a green background.
pub fn message_style() -> (s: TextStyle)
    ensures
        s == (TextStyle {
            glyph_width: 8,
            glyph_height: 13,
            text_color: Color::Black,
            background: Color::Green,
        }),
{
    TextStyle {
        glyph_width: 8,
        glyph_height: 13,
        text_color: Color::Black,
        background: Color::Green,
    }
}

/// Where a message's first glyph is anchored on the screen.
pub fn message_anchor() -> (p: Point)
    ensures
        p == (Point { x: 40, y: 35 }),
{
    Point { x: 40, y: 35 }
}

/// Pixel width of the mascot image whose raw bytes the program carries.
pub const SPLASH_WIDTH: u32 = 86;

/// Height in pixel rows of a raw RGB565 image, as the graphics layer
/// derives it from the byte count: each pixel takes two bytes and each
/// row holds `width` pixels; trailing bytes short of a row are dropped.
pub fn raw_image_height(data_len: usize, width: usize) -> (h: usize)
    requires
        1 <= width,
        2 * width <= usize::MAX,
    ensures
        h == data_len as int / (2 * width as int),
{
    data_len / (2 * width)
}

} // verus!
