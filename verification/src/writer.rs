//! The writer: a cursor on the bottom row of the grid that appends bytes,
//! wraps full lines and scrolls.

use vstd::prelude::*;
use vstd::string::StringSliceAdditionalSpecFns;
use crate::buffer::{grid_shaped, Buffer, Access, BUFFER_HEIGHT, BUFFER_WIDTH};
use crate::cell::ScreenChar;
use crate::color::ColorCode;
use crate::screen::{blank_row, forwarded, forwarded_all, Screen, NEWLINE, PLACEHOLDER};

verus! {

/// Writes text to the bottom row of a grid in one pair of colours.
pub struct Writer {
    column_position: usize,
    color_code: ColorCode,
    buffer: Buffer,
}

impl View for Writer {
    type V = Screen;

    closed spec fn view(&self) -> Screen {
        Screen {
            column: self.column_position as nat,
            color_code: self.color_code,
            rows: self.buffer@,
        }
    }
}

impl Writer {
    /// The reads and writes made on the grid through the writer's handle,
    /// oldest first.
    pub closed spec fn accesses(&self) -> Seq<Access> {
        self.buffer.accesses()
    }

    /// The rows of a writer's view always have the shape of the grid.
    pub proof fn lemma_grid_shaped(&self)
        ensures
            grid_shaped(self@.rows),
    {
        self.buffer.lemma_grid_shaped();
    }

    /// A writer at the left edge of the bottom row of `buffer`, which keeps
    /// what it shows.
    pub fn new(color_code: ColorCode, buffer: Buffer) -> (writer: Writer)
        ensures
            writer@ == (Screen { column: 0, color_code, rows: buffer@ }),
            writer@.wf(),
            writer.accesses() == buffer.accesses(),
    {
        proof {
            buffer.lemma_grid_shaped();
        }
        Writer { column_position: 0, color_code, buffer }
    }

    /// Fills row `row` with spaces in the writer's colours, by one write to
    /// each cell from left to right.
    pub fn clear_row(&mut self, row: usize)
        requires
            row < BUFFER_HEIGHT,
        ensures
            final(self)@ == old(self)@.clear_row(row as int),
            grid_shaped(final(self)@.rows),
            final(self).accesses() == old(self).accesses() + old(self)@.clear_row_accesses(row as int),
    {
        let blank: ScreenChar = ScreenChar::blank(self.color_code);
        let ghost before = self@;
        let ghost issued = self.accesses();
        let ghost planned = before.clear_row_accesses(row as int);
        proof {
            self.buffer.lemma_grid_shaped();
        }
        let mut col: usize = 0;
        while col < BUFFER_WIDTH
            invariant
                row < BUFFER_HEIGHT,
                col <= BUFFER_WIDTH,
                blank == ScreenChar::blank(before.color_code),
                planned == before.clear_row_accesses(row as int),
                grid_shaped(before.rows),
                self@.column == before.column,
                self@.color_code == before.color_code,
                grid_shaped(self@.rows),
                forall|r: int| 0 <= r < BUFFER_HEIGHT && r != row ==> self@.rows[r] == before.rows[r],
                forall|c: int| 0 <= c < col ==> self@.rows[row as int][c] == blank,
                forall|c: int|
                    col <= c < BUFFER_WIDTH ==> self@.rows[row as int][c] == before.rows[row as int][c],
                self.accesses() == issued + planned.take(col as int),
            decreases BUFFER_WIDTH - col,
        {
            self.buffer.write(row, col, blank);
            col += 1;
        }
        proof {
            assert(self@.rows[row as int] =~= blank_row(before.color_code));
            assert(self@.rows =~= before.clear_row(row as int).rows);
        }
    }

    /// Scrolls the grid up by one row: each row takes what the row below it
    /// showed, the bottom row is cleared, and the column returns to the left
    /// edge. What the top row showed is lost.
    ///
    /// Each cell is copied by one read and one write, row by row from the top
    /// and from left to right; the bottom row is cleared last.
    pub fn new_line(&mut self)
        ensures
            final(self)@ == old(self)@.new_line(),
            final(self)@.wf(),
            final(self).accesses() == old(self).accesses() + old(self)@.new_line_accesses(),
    {
        let ghost before = self@;
        let ghost issued = self.accesses();
        let ghost planned = before.shift_accesses();
        proof {
            self.buffer.lemma_grid_shaped();
        }
        let mut row: usize = 1;
        while row < BUFFER_HEIGHT
            invariant
                1 <= row <= BUFFER_HEIGHT,
                planned == before.shift_accesses(),
                grid_shaped(before.rows),
                grid_shaped(self@.rows),
                self@.column == before.column,
                self@.color_code == before.color_code,
                forall|r: int| 0 <= r < row - 1 ==> self@.rows[r] == before.rows[r + 1],
                forall|r: int| row - 1 <= r < BUFFER_HEIGHT ==> self@.rows[r] == before.rows[r],
                self.accesses() == issued + planned.take(2 * ((row - 1) * BUFFER_WIDTH)),
            decreases BUFFER_HEIGHT - row,
        {
            let above: usize = row - 1;
            let mut col: usize = 0;
            while col < BUFFER_WIDTH
                invariant
                    1 <= row < BUFFER_HEIGHT,
                    above == row - 1,
                    col <= BUFFER_WIDTH,
                    planned == before.shift_accesses(),
                    grid_shaped(before.rows),
                    grid_shaped(self@.rows),
                    self@.column == before.column,
                    self@.color_code == before.color_code,
                    forall|r: int| 0 <= r < above ==> self@.rows[r] == before.rows[r + 1],
                    forall|r: int| row <= r < BUFFER_HEIGHT ==> self@.rows[r] == before.rows[r],
                    forall|c: int|
                        0 <= c < col ==> self@.rows[above as int][c] == before.rows[row as int][c],
                    forall|c: int|
                        col <= c < BUFFER_WIDTH ==> self@.rows[above as int][c]
                            == before.rows[above as int][c],
                    self.accesses() == issued + planned.take(2 * (above * BUFFER_WIDTH + col)),
                decreases BUFFER_WIDTH - col,
            {
                let character: ScreenChar = self.buffer.read(row, col);
                self.buffer.write(above, col, character);
                col += 1;
            }
            row += 1;
        }
        self.clear_row(BUFFER_HEIGHT - 1);
        self.column_position = 0;
        proof {
            assert(self@.rows =~= before.new_line().rows);
        }
    }

    /// Writes one byte. A newline scrolls the grid. Any other byte goes to
    /// the bottom row at the column, which then moves one to the right; if
    /// the row is already full, the grid scrolls first.
    ///
    /// Placing the byte is one write to the grid; a scroll adds its own
    /// accesses before it.
    pub fn write_byte(&mut self, byte: u8)
        ensures
            final(self)@ == old(self)@.write_byte(byte),
            final(self)@.wf(),
            final(self).accesses() == old(self).accesses() + old(self)@.write_byte_accesses(byte),
    {
        if byte == NEWLINE {
            self.new_line();
        } else {
            if self.column_position >= BUFFER_WIDTH {
                self.new_line();
            }
            let row: usize = BUFFER_HEIGHT - 1;
            let col: usize = self.column_position;
            let color_code: ColorCode = self.color_code;
            self.buffer.write(row, col, ScreenChar { ascii_character: byte, color_code });
            self.column_position += 1;
        }
    }

    /// The byte that is written for `byte` of a text: the byte itself where
    /// it is printable ASCII or a newline, the placeholder otherwise.
    pub fn normalize(byte: u8) -> (out: u8)
        ensures
            out == forwarded(byte),
            byte == 0x0A || 0x20 <= byte <= 0x7E ==> out == byte,
            !(byte == 0x0A || 0x20 <= byte <= 0x7E) ==> out == 0xFE,
    {
        if (0x20 <= byte && byte <= 0x7E) || byte == NEWLINE {
            byte
        } else {
            PLACEHOLDER
        }
    }

    /// Writes a text byte by byte. Printable ASCII and newlines are written
    /// as they are; every other byte is written as the placeholder, so a
    /// character of several bytes gives as many placeholders.
    pub fn write_string(&mut self, s: &str)
        ensures
            final(self)@ == old(self)@.write_string(s.spec_bytes()),
            grid_shaped(final(self)@.rows),
            old(self)@.wf() ==> final(self)@.wf(),
            final(self).accesses() == old(self).accesses() + old(self)@.write_string_accesses(
                s.spec_bytes(),
            ),
    {
        let bytes: &[u8] = s.as_bytes();
        let ghost before = self@;
        let ghost issued = self.accesses();
        proof {
            self.buffer.lemma_grid_shaped();
        }
        let mut i: usize = 0;
        while i < bytes.len()
            invariant
                i <= bytes.len(),
                bytes@ == s.spec_bytes(),
                grid_shaped(self@.rows),
                before.wf() ==> self@.wf(),
                self@ == before.write_bytes(forwarded_all(bytes@.take(i as int))),
                self.accesses() == issued + before.write_bytes_accesses(
                    forwarded_all(bytes@.take(i as int)),
                ),
            decreases bytes.len() - i,
        {
            let byte: u8 = bytes[i];
            proof {
                let done = forwarded_all(bytes@.take(i as int));
                let next = forwarded_all(bytes@.take(i + 1));
                assert(next.drop_last() =~= done);
                assert(next.last() == forwarded(byte));
            }
            self.write_byte(Writer::normalize(byte));
            i += 1;
        }
        proof {
            assert(bytes@.take(bytes.len() as int) =~= bytes@);
        }
    }

    /// The column on the bottom row at which the next byte is placed.
    pub fn column_position(&self) -> (column: usize)
        ensures
            column == self@.column,
    {
        self.column_position
    }

    /// The colours in which the writer draws.
    pub fn color_code(&self) -> (color_code: ColorCode)
        ensures
            color_code == self@.color_code,
    {
        self.color_code
    }

    /// Reads the cell at (`row`, `col`) of the grid with one volatile read.
    /// The writer and what its grid shows stay as they were.
    pub fn read(&mut self, row: usize, col: usize) -> (cell: ScreenChar)
        requires
            row < BUFFER_HEIGHT,
            col < BUFFER_WIDTH,
        ensures
            cell == old(self)@.rows[row as int][col as int],
            final(self)@ == old(self)@,
            final(self).accesses() == old(self).accesses().push(
                Access::Read { row: row as int, col: col as int },
            ),
    {
        self.buffer.read(row, col)
    }
}

/// `core::fmt::Error`, which a formatter's sink may return. The writer never
/// makes one.
#[verifier::external_type_specification]
#[verifier::external_body]
pub struct ExFmtError(core::fmt::Error);

impl core::fmt::Write for Writer {
    /// Writes `s` as `write_string` does, and always succeeds.
    fn write_str(&mut self, s: &str) -> (result: core::fmt::Result)
        ensures
            result is Ok,
            final(self)@ == old(self)@.write_string(s.spec_bytes()),
            grid_shaped(final(self)@.rows),
            old(self)@.wf() ==> final(self)@.wf(),
            final(self).accesses() == old(self).accesses() + old(self)@.write_string_accesses(
                s.spec_bytes(),
            ),
    {
        self.write_string(s);
        Ok(())
    }
}

} // verus!
