//! The cursor/scroll state machine over the display grid.
//!
//! New content always lands on the bottom row; existing content is shifted
//! up rather than a cursor moving down, the classic terminal-scroll model.
//! `ScreenState` is the abstract state — grid contents, cursor column and
//! active color — and the `*_spec` functions below are the transition
//! relation that every executable operation is proved to follow.

use vstd::prelude::*;
use vstd::string::StringSliceAdditionalSpecFns;

use crate::color::ColorCode;
use crate::screen::{
    blank_char, blank_row, grid_wf, Buffer, ScreenChar, BLANK_BYTE, BUFFER_HEIGHT, BUFFER_WIDTH,
    NEWLINE_BYTE,
};

verus! {

/// The abstract state of a writer: the grid of cells, the cursor column and
/// the active color.
#[verifier::ext_equal]
pub ghost struct ScreenState {
    pub grid: Seq<Seq<ScreenChar>>,
    pub col: int,
    pub color: ColorCode,
}

impl ScreenState {
    /// The grid is full-sized and the cursor column is within `0..=BUFFER_WIDTH`.
    /// A column equal to `BUFFER_WIDTH` means the bottom row is full and the
    /// next visible byte will first trigger a scroll.
    pub open spec fn wf(self) -> bool {
        &&& grid_wf(self.grid)
        &&& 0 <= self.col <= BUFFER_WIDTH
    }
}

/// One scroll step of the grid: each row takes the contents of the row below
/// it, and the bottom row becomes blank in the given color.
pub open spec fn scroll_grid(g: Seq<Seq<ScreenChar>>, color: ColorCode) -> Seq<Seq<ScreenChar>> {
    Seq::new(
        BUFFER_HEIGHT as nat,
        |r: int|
            if r < BUFFER_HEIGHT - 1 {
                g[r + 1]
            } else {
                blank_row(color)
            },
    )
}

/// A line advance: scroll once and reset the cursor to column 0.
pub open spec fn advance_line_spec(s: ScreenState) -> ScreenState {
    ScreenState { grid: scroll_grid(s.grid, s.color), col: 0, color: s.color }
}

/// Placing one visible character: the cell at the cursor position on the
/// bottom row takes the byte in the active color, and the cursor moves right.
pub open spec fn place_char_spec(s: ScreenState, b: u8) -> ScreenState {
    ScreenState {
        grid: s.grid.update(
            BUFFER_HEIGHT - 1,
            s.grid[BUFFER_HEIGHT - 1].update(
                s.col,
                ScreenChar { ascii_char: b, color_code: s.color },
            ),
        ),
        col: s.col + 1,
        color: s.color,
    }
}

/// The effect of feeding one byte to the writer: a newline only advances the
/// line; any other byte is placed at the cursor, after an implicit line
/// advance if the bottom row is already full.
pub open spec fn write_byte_spec(s: ScreenState, b: u8) -> ScreenState {
    if b == NEWLINE_BYTE {
        advance_line_spec(s)
    } else if s.col >= BUFFER_WIDTH {
        place_char_spec(advance_line_spec(s), b)
    } else {
        place_char_spec(s, b)
    }
}

/// The effect of feeding a byte sequence to the writer, one byte at a time,
/// in order.
pub open spec fn write_text_spec(s: ScreenState, bytes: Seq<u8>) -> ScreenState
    decreases bytes.len(),
{
    if bytes.len() == 0 {
        s
    } else {
        write_text_spec(write_byte_spec(s, bytes[0]), bytes.drop_first())
    }
}

/// Every transition preserves well-formedness of the state.
pub proof fn lemma_write_byte_spec_wf(s: ScreenState, b: u8)
    requires
        s.wf(),
    ensures
        write_byte_spec(s, b).wf(),
{
}

/// Feeding a sequence and then one more byte is feeding the sequence with
/// that byte appended.
pub proof fn lemma_write_text_spec_snoc(s: ScreenState, bytes: Seq<u8>, b: u8)
    ensures
        write_text_spec(s, bytes.push(b)) == write_byte_spec(write_text_spec(s, bytes), b),
    decreases bytes.len(),
{
    let t = bytes.push(b);
    if bytes.len() == 0 {
        assert(t.drop_first() =~= Seq::<u8>::empty());
        assert(t[0] == b);
        assert(write_text_spec(s, t) == write_text_spec(write_byte_spec(s, b), t.drop_first()));
        assert(write_text_spec(write_byte_spec(s, b), Seq::<u8>::empty())
            == write_byte_spec(s, b));
        assert(write_text_spec(s, bytes) == s);
    } else {
        assert(t[0] == bytes[0]);
        assert(t.drop_first() =~= bytes.drop_first().push(b));
        assert(write_text_spec(s, t)
            == write_text_spec(write_byte_spec(s, bytes[0]), t.drop_first()));
        lemma_write_text_spec_snoc(write_byte_spec(s, bytes[0]), bytes.drop_first(), b);
        assert(write_text_spec(s, bytes)
            == write_text_spec(write_byte_spec(s, bytes[0]), bytes.drop_first()));
    }
}

/// The writer: cursor column, active color, and the grid it renders into.
pub struct Writer {
    column_pos: usize,
    color_code: ColorCode,
    buffer: Buffer,
}

impl View for Writer {
    type V = ScreenState;

    closed spec fn view(&self) -> ScreenState {
        ScreenState { grid: self.buffer@, col: self.column_pos as int, color: self.color_code }
    }
}

impl Writer {
    /// The abstract state of this writer is well-formed.
    pub open spec fn wf(&self) -> bool {
        self@.wf()
    }

    /// A writer over the given grid, starting at column 0 with the given
    /// active color. The grid's cells keep whatever they held.
    pub fn new(color_code: ColorCode, buffer: Buffer) -> (w: Writer)
        requires
            buffer.wf(),
        ensures
            w.wf(),
            w@ == (ScreenState { grid: buffer@, col: 0, color: color_code }),
    {
        Writer { column_pos: 0, color_code, buffer }
    }

    /// The cursor column.
    pub fn column_pos(&self) -> (c: usize)
        ensures
            c == self@.col,
    {
        self.column_pos
    }

    /// The active color.
    pub fn color_code(&self) -> (c: ColorCode)
        ensures
            c == self@.color,
    {
        self.color_code
    }

    /// The grid this writer renders into.
    pub fn buffer(&self) -> (b: &Buffer)
        ensures
            b@ == self@.grid,
    {
        &self.buffer
    }

    /// A copy of this writer with the same abstract state: every cell, the
    /// cursor column and the active color carry over exactly.
    pub fn duplicate(&self) -> (w: Writer)
        requires
            self.wf(),
        ensures
            w.wf(),
            w@ == self@,
    {
        let mut buffer = Buffer::new(
            ScreenChar { ascii_char: BLANK_BYTE, color_code: self.color_code },
        );
        let mut row: usize = 0;
        while row < BUFFER_HEIGHT
            invariant
                row <= BUFFER_HEIGHT,
                self.wf(),
                buffer.wf(),
                forall|r: int| 0 <= r < row ==> #[trigger] buffer@[r] == self@.grid[r],
            decreases BUFFER_HEIGHT - row,
        {
            let ghost ri: int = row as int;
            let mut col: usize = 0;
            while col < BUFFER_WIDTH
                invariant
                    row < BUFFER_HEIGHT,
                    ri == row,
                    col <= BUFFER_WIDTH,
                    self.wf(),
                    buffer.wf(),
                    forall|r: int| 0 <= r < ri ==> #[trigger] buffer@[r] == self@.grid[r],
                    forall|c: int|
                        0 <= c < col ==> #[trigger] buffer@[ri][c] == self@.grid[ri][c],
                decreases BUFFER_WIDTH - col,
            {
                buffer.write(row, col, self.buffer.read(row, col));
                col = col + 1;
            }
            proof {
                assert(buffer@[ri] =~= self@.grid[ri]);
            }
            row = row + 1;
        }
        proof {
            assert(buffer@ =~= self@.grid);
        }
        Writer { column_pos: self.column_pos, color_code: self.color_code, buffer }
    }

    /// Reads one cell of the grid.
    pub fn read_cell(&self, row: usize, col: usize) -> (c: ScreenChar)
        requires
            self.wf(),
            row < BUFFER_HEIGHT,
            col < BUFFER_WIDTH,
        ensures
            c == self@.grid[row as int][col as int],
    {
        self.buffer.read(row, col)
    }

    /// Feeds one byte to the writer. A newline advances the line; any other
    /// byte value is placed as-is at the cursor — no validation or
    /// filtering — after an implicit line advance if the row was full.
    pub fn write_byte(&mut self, byte: u8)
        requires
            old(self).wf(),
        ensures
            final(self).wf(),
            final(self)@ == write_byte_spec(old(self)@, byte),
    {
        if byte == NEWLINE_BYTE {
            self.insert_newline();
        } else {
            if self.column_pos >= BUFFER_WIDTH {
                self.insert_newline();
            }
            let row = BUFFER_HEIGHT - 1;
            let col = self.column_pos;
            let color_code = self.color_code;
            self.buffer.write(row, col, ScreenChar { ascii_char: byte, color_code });
            self.column_pos = self.column_pos + 1;
        }
    }

    /// Feeds a slice of bytes to the writer, one byte at a time, in order.
    pub fn write_text(&mut self, bytes: &[u8])
        requires
            old(self).wf(),
        ensures
            final(self).wf(),
            final(self)@ == write_text_spec(old(self)@, bytes@),
    {
        let n = bytes.len();
        let mut i: usize = 0;
        while i < n
            invariant
                i <= n,
                n == bytes@.len(),
                self.wf(),
                self@ == write_text_spec(old(self)@, bytes@.take(i as int)),
            decreases n - i,
        {
            let b = bytes[i];
            proof {
                assert(bytes@.take(i + 1) =~= bytes@.take(i as int).push(bytes@[i as int]));
                lemma_write_text_spec_snoc(old(self)@, bytes@.take(i as int), bytes@[i as int]);
            }
            self.write_byte(b);
            i = i + 1;
        }
        proof {
            assert(bytes@.take(n as int) =~= bytes@);
        }
    }

    /// Feeds the UTF-8 bytes of a string to the writer, in order.
    pub fn write_str(&mut self, s: &str)
        requires
            old(self).wf(),
        ensures
            final(self).wf(),
            final(self)@ == write_text_spec(old(self)@, s.spec_bytes()),
    {
        self.write_text(s.as_bytes());
    }

    /// Advances the line: every row takes the contents of the row below it
    /// (rows are copied in increasing order, so no row's old contents are
    /// read after being overwritten), the bottom row is cleared in the
    /// active color, and the cursor returns to column 0.
    pub fn insert_newline(&mut self)
        requires
            old(self).wf(),
        ensures
            final(self).wf(),
            final(self)@ == advance_line_spec(old(self)@),
    {
        let mut row: usize = 1;
        while row < BUFFER_HEIGHT
            invariant
                1 <= row <= BUFFER_HEIGHT,
                self.wf(),
                self@.col == old(self)@.col,
                self@.color == old(self)@.color,
                forall|r: int| 0 <= r < row - 1 ==> self@.grid[r] == old(self)@.grid[r + 1],
                forall|r: int|
                    row - 1 <= r < BUFFER_HEIGHT ==> self@.grid[r] == old(self)@.grid[r],
            decreases BUFFER_HEIGHT - row,
        {
            let ghost prow: int = row - 1;
            let mut col: usize = 0;
            while col < BUFFER_WIDTH
                invariant
                    1 <= row < BUFFER_HEIGHT,
                    prow == row - 1,
                    col <= BUFFER_WIDTH,
                    self.wf(),
                    self@.col == old(self)@.col,
                    self@.color == old(self)@.color,
                    forall|r: int| 0 <= r < prow ==> #[trigger] self@.grid[r] == old(self)@.grid[r + 1],
                    forall|r: int|
                        row <= r < BUFFER_HEIGHT ==> #[trigger] self@.grid[r] == old(self)@.grid[r],
                    forall|c: int|
                        0 <= c < col ==> #[trigger] self@.grid[prow][c]
                            == old(self)@.grid[row as int][c],
                    forall|c: int|
                        col <= c < BUFFER_WIDTH ==> #[trigger] self@.grid[prow][c]
                            == old(self)@.grid[prow][c],
                decreases BUFFER_WIDTH - col,
            {
                let c = self.buffer.read(row, col);
                self.buffer.write(row - 1, col, c);
                col = col + 1;
            }
            proof {
                assert(self@.grid[prow] =~= old(self)@.grid[row as int]);
            }
            row = row + 1;
        }
        self.clear_row(BUFFER_HEIGHT - 1);
        self.column_pos = 0;
        proof {
            assert(self@.grid =~~= scroll_grid(old(self)@.grid, old(self)@.color));
        }
    }

    /// Fills one row with blank cells in the active color; every other row
    /// and the cursor are untouched.
    pub fn clear_row(&mut self, row: usize)
        requires
            old(self).wf(),
            row < BUFFER_HEIGHT,
        ensures
            final(self).wf(),
            final(self)@.col == old(self)@.col,
            final(self)@.color == old(self)@.color,
            final(self)@.grid == old(self)@.grid.update(
                row as int,
                blank_row(old(self)@.color),
            ),
    {
        let blank = ScreenChar { ascii_char: BLANK_BYTE, color_code: self.color_code };
        let ghost ri: int = row as int;
        let mut col: usize = 0;
        while col < BUFFER_WIDTH
            invariant
                col <= BUFFER_WIDTH,
                row < BUFFER_HEIGHT,
                ri == row,
                self.wf(),
                self@.col == old(self)@.col,
                self@.color == old(self)@.color,
                blank == blank_char(old(self)@.color),
                forall|r: int|
                    0 <= r < BUFFER_HEIGHT && r != ri ==> #[trigger] self@.grid[r]
                        == old(self)@.grid[r],
                forall|c: int|
                    0 <= c < col ==> #[trigger] self@.grid[ri][c] == blank_char(old(self)@.color),
                forall|c: int|
                    col <= c < BUFFER_WIDTH ==> #[trigger] self@.grid[ri][c]
                        == old(self)@.grid[ri][c],
            decreases BUFFER_WIDTH - col,
        {
            self.buffer.write(row, col, blank);
            col = col + 1;
        }
        proof {
            assert(self@.grid[ri] =~= blank_row(old(self)@.color));
            assert(self@.grid =~= old(self)@.grid.update(ri, blank_row(old(self)@.color)));
        }
    }

    /// Clears the whole display by issuing one line advance per row — the
    /// grid ends entirely blank in the active color and the cursor at
    /// column 0, whatever the cells held before.
    pub fn clear_screen(&mut self)
        requires
            old(self).wf(),
        ensures
            final(self).wf(),
            final(self)@.col == 0,
            final(self)@.color == old(self)@.color,
            forall|r: int|
                0 <= r < BUFFER_HEIGHT
                    ==> final(self)@.grid[r] == blank_row(old(self)@.color),
    {
        let mut i: usize = 0;
        while i < BUFFER_HEIGHT
            invariant
                i <= BUFFER_HEIGHT,
                self.wf(),
                self@.color == old(self)@.color,
                i > 0 ==> self@.col == 0,
                i == 0 ==> self@ == old(self)@,
                forall|r: int|
                    BUFFER_HEIGHT - i <= r < BUFFER_HEIGHT
                        ==> self@.grid[r] == blank_row(old(self)@.color),
            decreases BUFFER_HEIGHT - i,
        {
            self.insert_newline();
            i = i + 1;
        }
    }
}

} // verus!
