//! The sixteen display colours and the packed attribute byte.

use vstd::prelude::*;

verus! {

/// One of the sixteen colours of the text-mode palette, in palette order.
#[derive(Debug, Clone, Copy, PartialEq, Eq, Structural)]
pub enum Color {
    Black,
    Blue,
    Green,
    Cyan,
    Red,
    Magenta,
    Brown,
    LightGray,
    DarkGray,
    LightBlue,
    LightGreen,
    LightCyan,
    LightRed,
    Pink,
    Yellow,
    White,
}

impl Color {
    /// The palette index of the colour: `Black` is 0 and `White` is 15.
    pub open spec fn index(self) -> u8 {
        match self {
            Color::Black => 0,
            Color::Blue => 1,
            Color::Green => 2,
            Color::Cyan => 3,
            Color::Red => 4,
            Color::Magenta => 5,
            Color::Brown => 6,
            Color::LightGray => 7,
            Color::DarkGray => 8,
            Color::LightBlue => 9,
            Color::LightGreen => 10,
            Color::LightCyan => 11,
            Color::LightRed => 12,
            Color::Pink => 13,
            Color::Yellow => 14,
            Color::White => 15,
        }
    }

    /// The palette index as a byte; it always fits in four bits.
    pub fn code(self) -> (code: u8)
        ensures
            code == self.index(),
            code < 16,
    {
        match self {
            Color::Black => 0,
            Color::Blue => 1,
            Color::Green => 2,
            Color::Cyan => 3,
            Color::Red => 4,
            Color::Magenta => 5,
            Color::Brown => 6,
            Color::LightGray => 7,
            Color::DarkGray => 8,
            Color::LightBlue => 9,
            Color::LightGreen => 10,
            Color::LightCyan => 11,
            Color::LightRed => 12,
            Color::Pink => 13,
            Color::Yellow => 14,
            Color::White => 15,
        }
    }
}

/// A foreground and a background colour packed into one attribute byte:
/// the background index in bits 4 to 7, the foreground index in bits 0 to 3.
#[derive(Debug, Clone, Copy, PartialEq, Eq, Structural)]
pub struct ColorCode(pub u8);

impl ColorCode {
    /// The attribute byte for a pair of palette indices.
    pub open spec fn pack(foreground: u8, background: u8) -> u8 {
        (background << 4) | foreground
    }

    /// The attribute byte.
    pub open spec fn bits(self) -> u8 {
        self.0
    }

    /// Packs `foreground` on `background`.
    pub fn new(foreground: Color, background: Color) -> (code: ColorCode)
        ensures
            code.bits() == Self::pack(foreground.index(), background.index()),
            code.bits() == 16 * background.index() + foreground.index(),
            code.bits() >> 4 == background.index(),
            code.bits() & 0x0f == foreground.index(),
    {
        let fg: u8 = foreground.code();
        let bg: u8 = background.code();
        assert(((bg << 4) | fg) == 16 * bg + fg && ((bg << 4) | fg) >> 4 == bg && ((bg << 4) | fg) & 0x0f == fg) by (bit_vector)
            requires
                fg < 16,
                bg < 16,
        ;
        ColorCode((bg << 4) | fg)
    }
}

} // verus!
