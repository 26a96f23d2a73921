//! What the writer does, stated on values: the column, the colours and the
//! rows that the grid shows.

use vstd::prelude::*;
use crate::buffer::{grid_shaped, Access, BUFFER_HEIGHT, BUFFER_WIDTH};
use crate::cell::ScreenChar;
use crate::color::ColorCode;

verus! {

/// The byte that ends a line.
pub const NEWLINE: u8 = 0x0A;

/// The byte that is drawn in place of one that the device cannot show.
pub const PLACEHOLDER: u8 = 0xFE;

/// Whether `byte` is a printable ASCII character, from the space to the tilde.
pub open spec fn printable(byte: u8) -> bool {
    0x20 <= byte <= 0x7E
}

/// The byte that is written for `byte` of a text: the byte itself where it is
/// printable or ends a line, the placeholder otherwise.
pub open spec fn forwarded(byte: u8) -> u8 {
    if printable(byte) || byte == NEWLINE {
        byte
    } else {
        PLACEHOLDER
    }
}

/// The bytes that are written for the bytes of a text, in the same order.
pub open spec fn forwarded_all(bytes: Seq<u8>) -> Seq<u8> {
    Seq::new(bytes.len(), |i: int| forwarded(bytes[i]))
}

/// The cell that shows `byte` in the given colours.
pub open spec fn drawn(byte: u8, color_code: ColorCode) -> ScreenChar {
    ScreenChar { ascii_character: byte, color_code }
}

/// A row of spaces in the given colours.
pub open spec fn blank_row(color_code: ColorCode) -> Seq<ScreenChar> {
    Seq::new(BUFFER_WIDTH as nat, |col: int| ScreenChar::blank(color_code))
}

/// The state of a writer: where the next character goes on the bottom row,
/// the colours it is drawn in, and what the grid shows.
pub struct Screen {
    pub column: nat,
    pub color_code: ColorCode,
    pub rows: Seq<Seq<ScreenChar>>,
}

impl Screen {
    /// The column is on the row or just past its end, and the rows have the
    /// shape of the grid.
    pub open spec fn wf(self) -> bool {
        &&& self.column <= BUFFER_WIDTH
        &&& grid_shaped(self.rows)
    }

    /// The bottom row, on which all writing happens.
    pub open spec fn bottom(self) -> Seq<ScreenChar> {
        self.rows[BUFFER_HEIGHT - 1]
    }

    /// Row `row` filled with spaces in the current colours.
    pub open spec fn clear_row(self, row: int) -> Screen {
        Screen { rows: self.rows.update(row, blank_row(self.color_code)), ..self }
    }

    /// One scroll: every row but the top one moves up by one, the bottom row
    /// becomes blank, and the column returns to the left edge.
    pub open spec fn new_line(self) -> Screen {
        Screen {
            column: 0,
            rows: self.rows.subrange(1, BUFFER_HEIGHT as int).push(blank_row(self.color_code)),
            ..self
        }
    }

    /// `byte` placed at the column on the bottom row, and the column moved
    /// one to the right.
    pub open spec fn put(self, byte: u8) -> Screen {
        Screen {
            column: self.column + 1,
            rows: self.rows.update(
                BUFFER_HEIGHT - 1,
                self.bottom().update(self.column as int, drawn(byte, self.color_code)),
            ),
            ..self
        }
    }

    /// One byte written: a newline scrolls; any other byte is placed on the
    /// bottom row, after a scroll if the row is full.
    pub open spec fn write_byte(self, byte: u8) -> Screen {
        if byte == NEWLINE {
            self.new_line()
        } else if self.column >= BUFFER_WIDTH {
            self.new_line().put(byte)
        } else {
            self.put(byte)
        }
    }

    /// The bytes written one after the other, from first to last.
    pub open spec fn write_bytes(self, bytes: Seq<u8>) -> Screen
        decreases bytes.len(),
    {
        if bytes.len() == 0 {
            self
        } else {
            self.write_bytes(bytes.drop_last()).write_byte(bytes.last())
        }
    }

    /// A text written: each of its bytes is written as `forwarded` gives it.
    pub open spec fn write_string(self, bytes: Seq<u8>) -> Screen {
        self.write_bytes(forwarded_all(bytes))
    }

    /// The accesses that clear row `row`: a blank written to each of its
    /// cells, from left to right.
    pub open spec fn clear_row_accesses(self, row: int) -> Seq<Access> {
        Seq::new(
            BUFFER_WIDTH as nat,
            |col: int| Access::Write { row, col, cell: ScreenChar::blank(self.color_code) },
        )
    }

    /// The accesses that move the rows up. The cells below the top row are
    /// taken row by row from the top, each row from left to right; each is
    /// read and then written one row higher, before the next is read.
    pub open spec fn shift_accesses(self) -> Seq<Access> {
        Seq::new(
            (2 * (BUFFER_HEIGHT - 1) * BUFFER_WIDTH) as nat,
            |i: int|
                {
                    let row = (i / 2) / (BUFFER_WIDTH as int);
                    let col = (i / 2) % (BUFFER_WIDTH as int);
                    if i % 2 == 0 {
                        Access::Read { row: row + 1, col }
                    } else {
                        Access::Write { row, col, cell: self.rows[row + 1][col] }
                    }
                },
        )
    }

    /// The accesses of one scroll: the rows are moved up, then the bottom row
    /// is cleared.
    pub open spec fn new_line_accesses(self) -> Seq<Access> {
        self.shift_accesses() + self.clear_row_accesses(BUFFER_HEIGHT - 1)
    }

    /// The one access that places `byte`: a write at the column on the
    /// bottom row.
    pub open spec fn put_accesses(self, byte: u8) -> Seq<Access> {
        seq![
            Access::Write {
                row: BUFFER_HEIGHT - 1,
                col: self.column as int,
                cell: drawn(byte, self.color_code),
            },
        ]
    }

    /// The accesses that one byte costs: those of a scroll for a newline;
    /// for any other byte the one write that places it, after those of a
    /// scroll if the row is full.
    pub open spec fn write_byte_accesses(self, byte: u8) -> Seq<Access> {
        if byte == NEWLINE {
            self.new_line_accesses()
        } else if self.column >= BUFFER_WIDTH {
            self.new_line_accesses() + self.new_line().put_accesses(byte)
        } else {
            self.put_accesses(byte)
        }
    }

    /// The accesses that the bytes cost, one byte after the other.
    pub open spec fn write_bytes_accesses(self, bytes: Seq<u8>) -> Seq<Access>
        decreases bytes.len(),
    {
        if bytes.len() == 0 {
            Seq::empty()
        } else {
            self.write_bytes_accesses(bytes.drop_last()) + self.write_bytes(
                bytes.drop_last(),
            ).write_byte_accesses(bytes.last())
        }
    }

    /// The accesses that a text costs.
    pub open spec fn write_string_accesses(self, bytes: Seq<u8>) -> Seq<Access> {
        self.write_bytes_accesses(forwarded_all(bytes))
    }
}

} // verus!
