//! The hardware color palette and the packed attribute byte.
//!
//! The display hardware understands sixteen colors, numbered 0 through 15.
//! A cell's attribute byte packs a (foreground, background) pair: the low
//! nibble is the foreground index, the high nibble the background index.

use vstd::prelude::*;

verus! {

/// The sixteen colors of the hardware palette, in palette order
/// (`Black` is index 0, `White` is index 15).
#[derive(Debug, Clone, Copy, PartialEq, Eq, Structural)]
pub enum Color {
    Black,
    Blue,
    Green,
    Cyan,
    Red,
    Magenta,
    Brown,
    LightGray,
    DarkGray,
    LightBlue,
    LightGreen,
    LightCyan,
    LightRed,
    Pink,
    Yellow,
    White,
}

/// The palette index of a color.
pub open spec fn color_index_spec(c: Color) -> u8 {
    match c {
        Color::Black => 0,
        Color::Blue => 1,
        Color::Green => 2,
        Color::Cyan => 3,
        Color::Red => 4,
        Color::Magenta => 5,
        Color::Brown => 6,
        Color::LightGray => 7,
        Color::DarkGray => 8,
        Color::LightBlue => 9,
        Color::LightGreen => 10,
        Color::LightCyan => 11,
        Color::LightRed => 12,
        Color::Pink => 13,
        Color::Yellow => 14,
        Color::White => 15,
    }
}

/// The color with a given palette index.
pub open spec fn color_of_index_spec(idx: u8) -> Color {
    if idx == 0 {
        Color::Black
    } else if idx == 1 {
        Color::Blue
    } else if idx == 2 {
        Color::Green
    } else if idx == 3 {
        Color::Cyan
    } else if idx == 4 {
        Color::Red
    } else if idx == 5 {
        Color::Magenta
    } else if idx == 6 {
        Color::Brown
    } else if idx == 7 {
        Color::LightGray
    } else if idx == 8 {
        Color::DarkGray
    } else if idx == 9 {
        Color::LightBlue
    } else if idx == 10 {
        Color::LightGreen
    } else if idx == 11 {
        Color::LightCyan
    } else if idx == 12 {
        Color::LightRed
    } else if idx == 13 {
        Color::Pink
    } else if idx == 14 {
        Color::Yellow
    } else {
        Color::White
    }
}

/// Every palette index is below 16.
pub proof fn lemma_color_index_bound(c: Color)
    ensures
        color_index_spec(c) < 16,
{
}

/// Index and lookup invert each other: a color is recovered exactly from
/// its palette index.
pub proof fn lemma_color_index_roundtrip(c: Color)
    ensures
        color_of_index_spec(color_index_spec(c)) == c,
{
}

/// The palette index of a color, as the hardware encodes it.
pub fn color_index(c: Color) -> (r: u8)
    ensures
        r == color_index_spec(c),
{
    match c {
        Color::Black => 0,
        Color::Blue => 1,
        Color::Green => 2,
        Color::Cyan => 3,
        Color::Red => 4,
        Color::Magenta => 5,
        Color::Brown => 6,
        Color::LightGray => 7,
        Color::DarkGray => 8,
        Color::LightBlue => 9,
        Color::LightGreen => 10,
        Color::LightCyan => 11,
        Color::LightRed => 12,
        Color::Pink => 13,
        Color::Yellow => 14,
        Color::White => 15,
    }
}

/// The color a palette index denotes; indices are 0 through 15.
pub fn color_of_index(idx: u8) -> (c: Color)
    requires
        idx < 16,
    ensures
        c == color_of_index_spec(idx),
{
    if idx == 0 {
        Color::Black
    } else if idx == 1 {
        Color::Blue
    } else if idx == 2 {
        Color::Green
    } else if idx == 3 {
        Color::Cyan
    } else if idx == 4 {
        Color::Red
    } else if idx == 5 {
        Color::Magenta
    } else if idx == 6 {
        Color::Brown
    } else if idx == 7 {
        Color::LightGray
    } else if idx == 8 {
        Color::DarkGray
    } else if idx == 9 {
        Color::LightBlue
    } else if idx == 10 {
        Color::LightGreen
    } else if idx == 11 {
        Color::LightCyan
    } else if idx == 12 {
        Color::LightRed
    } else if idx == 13 {
        Color::Pink
    } else if idx == 14 {
        Color::Yellow
    } else {
        Color::White
    }
}

/// A packed attribute byte: background index in the high nibble,
/// foreground index in the low nibble.
#[derive(Debug, Clone, Copy, PartialEq, Eq, Structural)]
pub struct ColorCode(pub u8);

/// The attribute byte that encodes a (foreground, background) pair.
pub open spec fn color_code_spec(foreground: Color, background: Color) -> u8 {
    (color_index_spec(background) << 4) | color_index_spec(foreground)
}

/// The foreground palette index held in an attribute byte.
pub open spec fn foreground_index(code: u8) -> u8 {
    code & 0x0f
}

/// The background palette index held in an attribute byte.
pub open spec fn background_index(code: u8) -> u8 {
    code >> 4
}

/// Packing two palette indices and unpacking them returns the pair exactly.
proof fn lemma_nibble_roundtrip(f: u8, b: u8)
    requires
        f < 16,
        b < 16,
    ensures
        ((b << 4) | f) & 0x0f == f,
        ((b << 4) | f) >> 4 == b,
{
    assert(f < 16 && b < 16 ==> ((b << 4) | f) & 0x0f == f && ((b << 4) | f) >> 4 == b)
        by (bit_vector);
}

/// Encoding a (foreground, background) pair into an attribute byte and
/// decoding it again returns exactly the colors that went in.
pub proof fn lemma_color_code_roundtrip(foreground: Color, background: Color)
    ensures
        color_of_index_spec(foreground_index(color_code_spec(foreground, background)))
            == foreground,
        color_of_index_spec(background_index(color_code_spec(foreground, background)))
            == background,
{
    lemma_color_index_bound(foreground);
    lemma_color_index_bound(background);
    lemma_nibble_roundtrip(color_index_spec(foreground), color_index_spec(background));
    lemma_color_index_roundtrip(foreground);
    lemma_color_index_roundtrip(background);
}

impl ColorCode {
    /// Packs a (foreground, background) pair into one attribute byte.
    pub fn new(foreground: Color, background: Color) -> (r: ColorCode)
        ensures
            r.0 == color_code_spec(foreground, background),
    {
        ColorCode((color_index(background) << 4) | color_index(foreground))
    }

    /// The foreground color of this attribute byte.
    pub fn foreground(&self) -> (c: Color)
        ensures
            c == color_of_index_spec(foreground_index(self.0)),
    {
        proof {
            let code = self.0;
            assert(code & 0x0f < 16) by (bit_vector);
        }
        color_of_index(self.0 & 0x0f)
    }

    /// The background color of this attribute byte.
    pub fn background(&self) -> (c: Color)
        ensures
            c == color_of_index_spec(background_index(self.0)),
    {
        proof {
            let code = self.0;
            assert(code >> 4 < 16) by (bit_vector);
        }
        color_of_index(self.0 >> 4)
    }
}

} // verus!
