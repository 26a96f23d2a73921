//! The sixteen colours of the device and the attribute byte that packs two of
//! them.

use vstd::prelude::*;

verus! {

/// A colour of the text-mode palette. The order of the variants is the order
/// of the device's four-bit colour indices, from 0 (`Black`) to 15 (`White`).
#[allow(dead_code)]
#[derive(Debug, Clone, Copy, PartialEq, Eq, Structural)]
pub enum Color {
    Black,
    Blue,
    Green,
    Cyan,
    Red,
    Magenta,
    Brown,
    LightGray,
    DarkGray,
    LightBlue,
    LightGreen,
    LightCyan,
    LightRed,
    Pink,
    Yellow,
    White,
}

impl Color {
    /// The four-bit index that the device knows this colour by.
    pub open spec fn spec_code(self) -> u8 {
        match self {
            Color::Black => 0,
            Color::Blue => 1,
            Color::Green => 2,
            Color::Cyan => 3,
            Color::Red => 4,
            Color::Magenta => 5,
            Color::Brown => 6,
            Color::LightGray => 7,
            Color::DarkGray => 8,
            Color::LightBlue => 9,
            Color::LightGreen => 10,
            Color::LightCyan => 11,
            Color::LightRed => 12,
            Color::Pink => 13,
            Color::Yellow => 14,
            Color::White => 15,
        }
    }

    /// The four-bit index that the device knows this colour by.
    #[verifier::when_used_as_spec(spec_code)]
    pub fn code(self) -> (c: u8)
        ensures
            c == self.spec_code(),
            c <= 15,
    {
        match self {
            Color::Black => 0,
            Color::Blue => 1,
            Color::Green => 2,
            Color::Cyan => 3,
            Color::Red => 4,
            Color::Magenta => 5,
            Color::Brown => 6,
            Color::LightGray => 7,
            Color::DarkGray => 8,
            Color::LightBlue => 9,
            Color::LightGreen => 10,
            Color::LightCyan => 11,
            Color::LightRed => 12,
            Color::Pink => 13,
            Color::Yellow => 14,
            Color::White => 15,
        }
    }
}

/// The attribute byte of a cell: the foreground colour in bits 0 to 3, the
/// background colour in bits 4 to 7.
#[derive(Debug, Clone, Copy, PartialEq, Eq, Structural)]
pub struct ColorCode(pub u8);

impl ColorCode {
    /// The attribute byte for `foreground` on `background`.
    pub open spec fn spec_new(foreground: Color, background: Color) -> ColorCode {
        ColorCode((background.code() << 4) | foreground.code())
    }

    /// Packs a foreground and a background colour into one attribute byte.
    ///
    /// The low nibble of the byte is the foreground's code and the high
    /// nibble the background's, so either colour can be read back from it.
    #[verifier::when_used_as_spec(spec_new)]
    pub fn new(foreground: Color, background: Color) -> (code: ColorCode)
        ensures
            code == ColorCode::spec_new(foreground, background),
            code.0 == (background.code() << 4) | foreground.code(),
            code.0 == 16 * background.code() + foreground.code(),
            code.0 & 0x0F == foreground.code(),
            (code.0 >> 4) & 0x0F == background.code(),
    {
        let fg: u8 = foreground.code();
        let bg: u8 = background.code();
        assert(((bg << 4) | fg) == 16 * bg + fg && ((bg << 4) | fg) & 0x0F == fg && (((bg << 4)
            | fg) >> 4) & 0x0F == bg) by (bit_vector)
            requires
                fg <= 15,
                bg <= 15,
        ;
        ColorCode((bg << 4) | fg)
    }
}

} // verus!
