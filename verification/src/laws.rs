//! What holds of the writer's behaviour on every state and every input.

use vstd::prelude::*;
use crate::buffer::{grid_shaped, Access, BUFFER_HEIGHT, BUFFER_WIDTH};
use crate::cell::ScreenChar;
use crate::color::{Color, ColorCode};
use crate::screen::{blank_row, drawn, forwarded, forwarded_all, printable, Screen, NEWLINE};

verus! {

/// Either colour can be read back from an attribute byte: its low four bits
/// are the foreground's code, its high four bits the background's.
pub proof fn law_attribute_nibbles(foreground: Color, background: Color)
    ensures
        ColorCode::new(foreground, background).0 & 0x0F == foreground.code(),
        (ColorCode::new(foreground, background).0 >> 4) & 0x0F == background.code(),
        ColorCode::new(foreground, background).0 == 16 * background.code() + foreground.code(),
{
    let fg: u8 = foreground.code();
    let bg: u8 = background.code();
    assert(((bg << 4) | fg) == 16 * bg + fg && ((bg << 4) | fg) & 0x0F == fg && (((bg << 4) | fg)
        >> 4) & 0x0F == bg) by (bit_vector)
        requires
            fg <= 15,
            bg <= 15,
    ;
}

/// A byte of a text is written unchanged if it is printable ASCII or a
/// newline, and as the placeholder otherwise. So but for the placeholder's
/// own byte, a byte comes through unchanged exactly if it is one of those.
pub proof fn law_forwarded(byte: u8)
    ensures
        byte == 0x0A || 0x20 <= byte <= 0x7E ==> forwarded(byte) == byte,
        !(byte == 0x0A || 0x20 <= byte <= 0x7E) ==> forwarded(byte) == 0xFE,
        byte != 0xFE ==> (forwarded(byte) == byte <==> byte == 0x0A || 0x20 <= byte <= 0x7E),
{
}

/// A text of printable ASCII and newlines is written byte for byte.
pub proof fn law_plain_text_unchanged(s: Screen, bytes: Seq<u8>)
    requires
        forall|i: int| 0 <= i < bytes.len() ==> printable(bytes[i]) || bytes[i] == NEWLINE,
    ensures
        forwarded_all(bytes) == bytes,
        s.write_string(bytes) == s.write_bytes(bytes),
{
    assert(forwarded_all(bytes) =~= bytes);
}

/// Bytes written in two runs leave the grid as the same bytes written in
/// one run do, and cost the same accesses in the same order.
pub proof fn law_bytes_in_pieces(s: Screen, first: Seq<u8>, second: Seq<u8>)
    ensures
        s.write_bytes(first + second) == s.write_bytes(first).write_bytes(second),
        s.write_bytes_accesses(first + second) == s.write_bytes_accesses(first) + s.write_bytes(
            first,
        ).write_bytes_accesses(second),
    decreases second.len(),
{
    if second.len() > 0 {
        law_bytes_in_pieces(s, first, second.drop_last());
        assert((first + second).drop_last() =~= first + second.drop_last());
    }
}

/// A text written in pieces, as a formatter hands it over, leaves the grid
/// as the whole text written at once does, and costs the same accesses in
/// the same order.
pub proof fn law_text_in_pieces(s: Screen, first: Seq<u8>, second: Seq<u8>)
    ensures
        s.write_string(first + second) == s.write_string(first).write_string(second),
        s.write_string_accesses(first + second) == s.write_string_accesses(first) + s.write_string(
            first,
        ).write_string_accesses(second),
{
    assert(forwarded_all(first + second) =~= forwarded_all(first) + forwarded_all(second));
    law_bytes_in_pieces(s, forwarded_all(first), forwarded_all(second));
}

/// Bytes that fit on the rest of the bottom row, none of them a newline, go
/// there one after the other from the column on. Nothing else on the grid
/// changes, and the column moves right by their number. Each byte costs one
/// write and nothing is read.
pub proof fn law_write_on_row(s: Screen, bytes: Seq<u8>)
    requires
        grid_shaped(s.rows),
        s.column + bytes.len() <= BUFFER_WIDTH,
        forall|i: int| 0 <= i < bytes.len() ==> bytes[i] != NEWLINE,
    ensures
        s.write_bytes(bytes).column == s.column + bytes.len(),
        s.write_bytes(bytes).color_code == s.color_code,
        s.write_bytes(bytes).wf(),
        forall|r: int|
            0 <= r < BUFFER_HEIGHT - 1 ==> (#[trigger] s.write_bytes(bytes).rows[r]) == s.rows[r],
        forall|c: int|
            s.column <= c < s.column + bytes.len() ==> (#[trigger] s.write_bytes(bytes).bottom()[c])
                == drawn(bytes[c - s.column], s.color_code),
        forall|c: int|
            0 <= c < s.column || s.column + bytes.len() <= c < BUFFER_WIDTH ==> (
            #[trigger] s.write_bytes(bytes).bottom()[c]) == s.bottom()[c],
        s.write_bytes_accesses(bytes) == Seq::new(
            bytes.len(),
            |i: int|
                Access::Write {
                    row: BUFFER_HEIGHT - 1,
                    col: s.column + i,
                    cell: drawn(bytes[i], s.color_code),
                },
        ),
    decreases bytes.len(),
{
    if bytes.len() > 0 {
        law_write_on_row(s, bytes.drop_last());
    }
}

/// Round trip: after a text of at most one row of printable bytes is written
/// from the left edge, the first cells of the bottom row show those bytes,
/// in order and in the writer's colours.
pub proof fn law_round_trip(s: Screen, bytes: Seq<u8>)
    requires
        s.wf(),
        s.column == 0,
        bytes.len() <= BUFFER_WIDTH,
        forall|i: int| 0 <= i < bytes.len() ==> printable(bytes[i]),
    ensures
        s.write_string(bytes) == s.write_bytes(bytes),
        forall|i: int|
            0 <= i < bytes.len() ==> (#[trigger] s.write_string(bytes).bottom()[i]) == drawn(
                bytes[i],
                s.color_code,
            ),
{
    law_plain_text_unchanged(s, bytes);
    law_write_on_row(s, bytes);
}

/// A full row of printable bytes written from the left edge fills the
/// bottom row exactly: each cell shows its byte, the rows above are as they
/// were, and the column stands just past the end of the row.
pub proof fn law_fill_row(s: Screen, bytes: Seq<u8>)
    requires
        s.wf(),
        s.column == 0,
        bytes.len() == BUFFER_WIDTH,
        forall|i: int| 0 <= i < bytes.len() ==> printable(bytes[i]),
    ensures
        s.write_string(bytes) == s.write_bytes(bytes),
        s.write_string(bytes).wf(),
        s.write_string(bytes).column == BUFFER_WIDTH,
        s.write_string(bytes).color_code == s.color_code,
        s.write_string(bytes).bottom() == Seq::new(
            BUFFER_WIDTH as nat,
            |c: int| drawn(bytes[c], s.color_code),
        ),
        forall|r: int|
            0 <= r < BUFFER_HEIGHT - 1 ==> (#[trigger] s.write_string(bytes).rows[r]) == s.rows[r],
{
    law_plain_text_unchanged(s, bytes);
    law_write_on_row(s, bytes);
}

/// A byte other than a newline that is written when the bottom row is full
/// scrolls the grid once and then stands alone at the left edge of the
/// bottom row. Its write is the last access, after those of the one scroll.
pub proof fn law_wrap(s: Screen, byte: u8)
    requires
        grid_shaped(s.rows),
        s.column >= BUFFER_WIDTH,
        byte != NEWLINE,
    ensures
        s.write_byte(byte) == s.new_line().put(byte),
        s.write_byte(byte).column == 1,
        s.write_byte(byte).color_code == s.color_code,
        s.write_byte(byte).wf(),
        forall|r: int|
            0 <= r < BUFFER_HEIGHT - 1 ==> (#[trigger] s.write_byte(byte).rows[r]) == s.rows[r + 1],
        s.write_byte(byte).bottom() == blank_row(s.color_code).update(0, drawn(byte, s.color_code)),
        s.write_byte_accesses(byte) == s.new_line_accesses().push(
            Access::Write { row: BUFFER_HEIGHT - 1, col: 0, cell: drawn(byte, s.color_code) },
        ),
{
}

/// One byte more than a full row: after a full row of printable bytes has
/// been written from the left edge, the next byte that is no newline scrolls
/// the grid exactly once. The full row then stands one row higher, and the
/// byte stands alone at the left edge of the bottom row.
pub proof fn law_fill_row_then_wrap(s: Screen, bytes: Seq<u8>, next: u8)
    requires
        s.wf(),
        s.column == 0,
        bytes.len() == BUFFER_WIDTH,
        forall|i: int| 0 <= i < bytes.len() ==> printable(bytes[i]),
        next != NEWLINE,
    ensures
        s.write_string(bytes).write_byte(next) == s.write_string(bytes).new_line().put(next),
        s.write_string(bytes).write_byte(next).column == 1,
        s.write_string(bytes).write_byte(next).bottom() == blank_row(s.color_code).update(
            0,
            drawn(next, s.color_code),
        ),
        s.write_string(bytes).write_byte(next).rows[BUFFER_HEIGHT - 2] == Seq::new(
            BUFFER_WIDTH as nat,
            |c: int| drawn(bytes[c], s.color_code),
        ),
        forall|r: int|
            0 <= r < BUFFER_HEIGHT - 2 ==> (#[trigger] s.write_string(bytes).write_byte(next).rows[r])
                == s.rows[r + 1],
        s.write_string(bytes).write_byte_accesses(next) == s.write_string(
            bytes,
        ).new_line_accesses().push(
            Access::Write { row: BUFFER_HEIGHT - 1, col: 0, cell: drawn(next, s.color_code) },
        ),
{
    law_fill_row(s, bytes);
    law_wrap(s.write_string(bytes), next);
}

/// A byte other than a newline that is written while the bottom row has
/// room costs exactly one access to the grid: the write of the byte in the
/// writer's colours, at the column on the bottom row.
pub proof fn law_one_write(s: Screen, byte: u8)
    requires
        s.column < BUFFER_WIDTH,
        byte != NEWLINE,
    ensures
        s.write_byte(byte) == s.put(byte),
        s.write_byte_accesses(byte) == seq![
            Access::Write {
                row: BUFFER_HEIGHT - 1,
                col: s.column as int,
                cell: drawn(byte, s.color_code),
            },
        ],
{
}

/// A newline scrolls the grid once, whatever the column was: every row
/// shows what the row below it showed, the bottom row is blank in the
/// writer's colours, and the column is back at the left edge.
pub proof fn law_newline(s: Screen)
    requires
        grid_shaped(s.rows),
    ensures
        s.write_byte(NEWLINE) == s.new_line(),
        s.new_line().column == 0,
        s.new_line().color_code == s.color_code,
        s.new_line().wf(),
        forall|r: int|
            0 <= r < BUFFER_HEIGHT - 1 ==> (#[trigger] s.new_line().rows[r]) == s.rows[r + 1],
        s.new_line().bottom() == blank_row(s.color_code),
        s.write_byte_accesses(NEWLINE) == s.new_line_accesses(),
{
}

/// The accesses of one scroll. Below the top row each cell is read once, and
/// what it showed is written to the cell above it at once, before any other
/// access; the cells are taken row by row from the top and from left to
/// right. After them each cell of the bottom row is written once with a
/// blank, from left to right. So a scroll writes every cell of the grid
/// once and reads every cell below the top row once.
pub proof fn law_scroll_accesses(s: Screen, row: int, col: int)
    requires
        0 <= row < BUFFER_HEIGHT - 1,
        0 <= col < BUFFER_WIDTH,
    ensures
        s.new_line_accesses().len() == 2 * (BUFFER_HEIGHT - 1) * BUFFER_WIDTH + BUFFER_WIDTH,
        s.new_line_accesses()[2 * (row * BUFFER_WIDTH + col)] == (Access::Read { row: row + 1, col }),
        s.new_line_accesses()[2 * (row * BUFFER_WIDTH + col) + 1] == (Access::Write {
            row,
            col,
            cell: s.rows[row + 1][col],
        }),
        s.new_line_accesses()[2 * (BUFFER_HEIGHT - 1) * BUFFER_WIDTH + col] == (Access::Write {
            row: BUFFER_HEIGHT - 1,
            col,
            cell: ScreenChar::blank(s.color_code),
        }),
{
}

/// Clearing a row leaves it blank in the writer's colours and touches no
/// other row; clearing it again changes nothing.
pub proof fn law_clear_row_idempotent(s: Screen, row: int)
    requires
        grid_shaped(s.rows),
        0 <= row < BUFFER_HEIGHT,
    ensures
        s.clear_row(row).clear_row(row) == s.clear_row(row),
        s.clear_row(row).rows[row] == blank_row(s.color_code),
        forall|c: int|
            0 <= c < BUFFER_WIDTH ==> (#[trigger] s.clear_row(row).rows[row][c]) == ScreenChar::blank(
                s.color_code,
            ),
        forall|r: int|
            0 <= r < BUFFER_HEIGHT && r != row ==> (#[trigger] s.clear_row(row).rows[r]) == s.rows[r],
        s.clear_row(row).column == s.column,
        s.clear_row(row).color_code == s.color_code,
        grid_shaped(s.clear_row(row).rows),
        s.clear_row(row).clear_row_accesses(row) == s.clear_row_accesses(row),
        s.clear_row_accesses(row).len() == BUFFER_WIDTH,
        forall|c: int|
            0 <= c < BUFFER_WIDTH ==> (#[trigger] s.clear_row_accesses(row)[c]) == (Access::Write {
                row,
                col: c,
                cell: ScreenChar::blank(s.color_code),
            }),
{
    assert(s.clear_row(row).clear_row(row).rows =~= s.clear_row(row).rows);
}

} // verus!
