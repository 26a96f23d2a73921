//! The grid in device memory and the handle through which it is read and
//! written, one volatile access per cell.

use vstd::prelude::*;
use volatile::Volatile;
use crate::cell::ScreenChar;

verus! {

/// The number of rows of the grid.
pub const BUFFER_HEIGHT: usize = 25;

/// The number of columns of the grid.
pub const BUFFER_WIDTH: usize = 80;

/// `volatile::Volatile`, a value that is only read and written by volatile
/// accesses. Nothing of its inside is visible to proofs.
#[verifier::external_type_specification]
#[verifier::external_body]
#[verifier::reject_recursive_types(T)]
pub struct ExVolatile<T: Copy>(Volatile<T>);

/// The two bytes that a volatile cell of the grid holds: what `Volatile::read`
/// returns from it and `Volatile::write` stores in it.
pub uninterp spec fn held(slot: Volatile<[u8; 2]>) -> Seq<u8>;

/// `Volatile::read`: one volatile read of the cell. It is taken to return the
/// bytes that the cell holds, as memory does that nothing else writes to. It
/// never panics.
#[verifier::external_body]
fn volatile_read(slot: &Volatile<[u8; 2]>) -> (bytes: [u8; 2])
    ensures
        bytes@ == held(*slot),
{
    slot.read()
}

/// `Volatile::write`: one volatile write to the cell. It is taken to leave
/// the cell holding the bytes written. It never panics.
#[verifier::external_body]
fn volatile_write(slot: &mut Volatile<[u8; 2]>, bytes: [u8; 2])
    ensures
        held(*final(slot)) == bytes@,
{
    slot.write(bytes)
}

/// The grid as it lies in device memory: rows of cells, each cell two bytes
/// behind a volatile wrapper, with nothing between them.
pub type Cells = [[Volatile<[u8; 2]>; BUFFER_WIDTH]; BUFFER_HEIGHT];

/// What a grid shows: its rows from top to bottom, each row its cells from
/// left to right.
pub open spec fn shown(cells: Cells) -> Seq<Seq<ScreenChar>> {
    Seq::new(
        BUFFER_HEIGHT as nat,
        |row: int| Seq::new(BUFFER_WIDTH as nat, |col: int| ScreenChar::of_bytes(held(cells[row][col]))),
    )
}

/// Whether `rows` has the shape of the grid.
pub open spec fn grid_shaped(rows: Seq<Seq<ScreenChar>>) -> bool {
    &&& rows.len() == BUFFER_HEIGHT
    &&& forall|row: int| 0 <= row < BUFFER_HEIGHT ==> (#[trigger] rows[row]).len() == BUFFER_WIDTH
}

/// One access to the grid: a read of the cell at a place, or a write of a
/// cell to a place.
pub enum Access {
    Read { row: int, col: int },
    Write { row: int, col: int, cell: ScreenChar },
}

/// The handle to the grid. It holds the only reference to the device memory
/// and lets a cell be reached by volatile reads and writes alone. For proofs
/// it keeps a record of the reads and writes made through it, in the order
/// in which they were made.
pub struct Buffer {
    chars: &'static mut Cells,
    log: Ghost<Seq<Access>>,
}

impl View for Buffer {
    type V = Seq<Seq<ScreenChar>>;

    closed spec fn view(&self) -> Seq<Seq<ScreenChar>> {
        shown(*self.chars)
    }
}

impl Buffer {
    /// The reads and writes made through this handle since it was made,
    /// oldest first.
    pub closed spec fn accesses(&self) -> Seq<Access> {
        self.log@
    }

    /// Takes over the grid behind `chars`, whatever it shows at that moment.
    pub fn new(chars: &'static mut Cells) -> (buffer: Buffer)
        ensures
            buffer@ == shown(*old(chars)),
            grid_shaped(buffer@),
            buffer.accesses() == Seq::<Access>::empty(),
    {
        Buffer { chars, log: Ghost(Seq::empty()) }
    }

    /// The view of a buffer always has the shape of the grid.
    pub proof fn lemma_grid_shaped(&self)
        ensures
            grid_shaped(self@),
    {
    }

    /// Reads the cell at (`row`, `col`) with one volatile read. The grid
    /// shows what it showed before.
    pub fn read(&mut self, row: usize, col: usize) -> (cell: ScreenChar)
        requires
            row < BUFFER_HEIGHT,
            col < BUFFER_WIDTH,
        ensures
            cell == old(self)@[row as int][col as int],
            final(self)@ == old(self)@,
            final(self).accesses() == old(self).accesses().push(
                Access::Read { row: row as int, col: col as int },
            ),
    {
        let cell: ScreenChar = ScreenChar::from_bytes(volatile_read(&self.chars[row][col]));
        self.log = Ghost(self.log@.push(Access::Read { row: row as int, col: col as int }));
        cell
    }

    /// Writes `cell` at (`row`, `col`) with one volatile write. No other cell
    /// changes.
    pub fn write(&mut self, row: usize, col: usize, cell: ScreenChar)
        requires
            row < BUFFER_HEIGHT,
            col < BUFFER_WIDTH,
        ensures
            final(self)@ == old(self)@.update(
                row as int,
                old(self)@[row as int].update(col as int, cell),
            ),
            grid_shaped(final(self)@),
            final(self).accesses() == old(self).accesses().push(
                Access::Write { row: row as int, col: col as int, cell },
            ),
    {
        volatile_write(&mut self.chars[row][col], cell.to_bytes());
        self.log = Ghost(self.log@.push(Access::Write { row: row as int, col: col as int, cell }));
        proof {
            let expected = old(self)@.update(
                row as int,
                old(self)@[row as int].update(col as int, cell),
            );
            assert forall|r: int| 0 <= r < BUFFER_HEIGHT implies self@[r] == expected[r] by {
                assert(self@[r] =~= expected[r]);
            }
        }
    }
}

} // verus!
