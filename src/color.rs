//! The sixteen palette colours and the packed attribute byte.
use vstd::prelude::*;

verus! {

/// The sixteen colours of the text-mode palette, in palette order.
#[derive(Debug, Clone, Copy, PartialEq, Eq, Structural)]
pub enum Color {
    Black,
    Blue,
    Green,
    Cyan,
    Red,
    Magenta,
    Brown,
    LightGray,
    DarkGray,
    LightBlue,
    LightGreen,
    LightCyan,
    LightRed,
    Pink,
    Yellow,
    White,
}

/// The palette index of a colour.
pub open spec fn color_index(c: Color) -> u8 {
    match c {
        Color::Black => 0,
        Color::Blue => 1,
        Color::Green => 2,
        Color::Cyan => 3,
        Color::Red => 4,
        Color::Magenta => 5,
        Color::Brown => 6,
        Color::LightGray => 7,
        Color::DarkGray => 8,
        Color::LightBlue => 9,
        Color::LightGreen => 10,
        Color::LightCyan => 11,
        Color::LightRed => 12,
        Color::Pink => 13,
        Color::Yellow => 14,
        Color::White => 15,
    }
}

impl Color {
    /// The palette index of this colour, from 0 to 15.
    pub fn index(self) -> (r: u8)
        ensures
            r == color_index(self),
            r < 16,
    {
        match self {
            Color::Black => 0,
            Color::Blue => 1,
            Color::Green => 2,
            Color::Cyan => 3,
            Color::Red => 4,
            Color::Magenta => 5,
            Color::Brown => 6,
            Color::LightGray => 7,
            Color::DarkGray => 8,
            Color::LightBlue => 9,
            Color::LightGreen => 10,
            Color::LightCyan => 11,
            Color::LightRed => 12,
            Color::Pink => 13,
            Color::Yellow => 14,
            Color::White => 15,
        }
    }
}

/// A packed attribute byte: background index in the high nibble,
/// foreground index in the low nibble.
#[derive(Debug, Clone, Copy, PartialEq, Eq, Structural)]
pub struct ColorCode(u8);

/// The attribute byte for a background and a foreground colour.
pub open spec fn attribute_byte(background: Color, foreground: Color) -> u8 {
    (color_index(background) * 16 + color_index(foreground)) as u8
}

impl ColorCode {
    /// The raw attribute byte.
    pub closed spec fn spec_byte(self) -> u8 {
        self.0
    }

    /// Packs a background and a foreground colour into one attribute.
    pub fn new(background: Color, foreground: Color) -> (r: ColorCode)
        ensures
            r.spec_byte() == attribute_byte(background, foreground),
            r.spec_byte() / 16 == color_index(background),
            r.spec_byte() % 16 == color_index(foreground),
    {
        let b: u8 = background.index();
        let f: u8 = foreground.index();
        assert((b << 4u8) | f == b * 16 + f) by (bit_vector)
            requires
                b < 16,
                f < 16,
        ;
        ColorCode((b << 4) | f)
    }

    /// The raw attribute byte, as the display hardware reads it.
    pub fn byte(&self) -> (r: u8)
        ensures
            r == self.spec_byte(),
    {
        self.0
    }
}

} // verus!
