//! The cell of the grid and its two-byte format on the device.

use vstd::prelude::*;
use crate::color::ColorCode;

verus! {

/// The byte of the space character, which a cleared cell shows.
pub const SPACE: u8 = 0x20;

/// One position of the grid: a character byte and the attribute byte it is
/// drawn with.
#[derive(Debug, Clone, Copy, PartialEq, Eq, Structural)]
pub struct ScreenChar {
    pub ascii_character: u8,
    pub color_code: ColorCode,
}

impl ScreenChar {
    /// The cell that shows nothing: a space in the given colours.
    pub open spec fn spec_blank(color_code: ColorCode) -> ScreenChar {
        ScreenChar { ascii_character: SPACE, color_code }
    }

    /// The cell that shows nothing: a space in the given colours.
    #[verifier::when_used_as_spec(spec_blank)]
    pub fn blank(color_code: ColorCode) -> (cell: ScreenChar)
        ensures
            cell == ScreenChar::spec_blank(color_code),
    {
        ScreenChar { ascii_character: SPACE, color_code }
    }

    /// The cell as the device stores it: the character byte first, the
    /// attribute byte second.
    pub open spec fn bytes(self) -> Seq<u8> {
        seq![self.ascii_character, self.color_code.0]
    }

    /// The cell that the device shows for two stored bytes.
    pub open spec fn of_bytes(bytes: Seq<u8>) -> ScreenChar {
        ScreenChar { ascii_character: bytes[0], color_code: ColorCode(bytes[1]) }
    }

    /// Encodes the cell in the device's format.
    pub fn to_bytes(self) -> (bytes: [u8; 2])
        ensures
            bytes@ == self.bytes(),
    {
        [self.ascii_character, self.color_code.0]
    }

    /// Decodes a cell from the device's format.
    pub fn from_bytes(bytes: [u8; 2]) -> (cell: ScreenChar)
        ensures
            cell == ScreenChar::of_bytes(bytes@),
    {
        ScreenChar { ascii_character: bytes[0], color_code: ColorCode(bytes[1]) }
    }

    /// Encoding loses nothing: a cell decoded from its own two bytes is the
    /// same cell, and two bytes encoded from the cell they decode to are the
    /// same bytes.
    pub proof fn law_bytes_round_trip(cell: ScreenChar, bytes: Seq<u8>)
        requires
            bytes.len() == 2,
        ensures
            cell.bytes().len() == 2,
            ScreenChar::of_bytes(cell.bytes()) == cell,
            ScreenChar::of_bytes(bytes).bytes() == bytes,
    {
    }
}

} // verus!
