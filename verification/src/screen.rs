//! The display cell grid and the cursor/scroll state machine.
//!
//! The hardware surface is a fixed `BUFFER_HEIGHT` x `BUFFER_WIDTH` grid of
//! two-byte cells: a character byte followed by an attribute byte. `Buffer`
//! holds that grid; `Writer` owns the cursor column and active color and
//! turns a stream of bytes into correctly placed, correctly scrolled cells.

use vstd::prelude::*;

use crate::color::{color_code_spec, Color, ColorCode};

verus! {

/// Columns of the display grid.
pub const BUFFER_WIDTH: usize = 80;

/// Rows of the display grid.
pub const BUFFER_HEIGHT: usize = 25;

/// The byte that triggers a line advance instead of being displayed.
pub const NEWLINE_BYTE: u8 = 10;

/// The character byte a cleared cell shows (an ASCII space).
pub const BLANK_BYTE: u8 = 32;

/// One display cell: a character byte and its attribute byte, in the
/// two-byte layout the hardware expects.
#[derive(Debug, Clone, Copy, PartialEq, Eq, Structural)]
pub struct ScreenChar {
    pub ascii_char: u8,
    pub color_code: ColorCode,
}

/// The cell a cleared position holds: a space in the given color.
pub open spec fn blank_char(color: ColorCode) -> ScreenChar {
    ScreenChar { ascii_char: BLANK_BYTE, color_code: color }
}

/// A whole row of blank cells in the given color.
pub open spec fn blank_row(color: ColorCode) -> Seq<ScreenChar> {
    Seq::new(BUFFER_WIDTH as nat, |c: int| blank_char(color))
}

/// The fixed-size grid of display cells.
///
/// On the reference hardware this grid lives at a fixed physical address and
/// every access must be a volatile load or store; that address binding and
/// the volatile access discipline are the unverifiable hardware edge and sit
/// outside this library. Here the grid is held directly, and `read` and
/// `write` are the only cell-access operations, mirroring the hardware
/// surface's interface.
pub struct Buffer {
    chars: Vec<Vec<ScreenChar>>,
}

impl View for Buffer {
    type V = Seq<Seq<ScreenChar>>;

    closed spec fn view(&self) -> Seq<Seq<ScreenChar>> {
        Seq::new(self.chars@.len(), |r: int| self.chars@[r]@)
    }
}

/// A grid has exactly `BUFFER_HEIGHT` rows of `BUFFER_WIDTH` cells each.
pub open spec fn grid_wf(g: Seq<Seq<ScreenChar>>) -> bool {
    &&& g.len() == BUFFER_HEIGHT
    &&& forall|r: int| 0 <= r < BUFFER_HEIGHT ==> (#[trigger] g[r]).len() == BUFFER_WIDTH
}

impl Buffer {
    /// The grid this buffer holds is full-sized.
    pub open spec fn wf(&self) -> bool {
        grid_wf(self@)
    }

    /// A full-sized grid with every cell set to `fill`.
    ///
    /// The reference hardware's grid is never constructed — it exists at a
    /// known address with arbitrary power-on contents. A freshly built grid
    /// stands in for it; `fill` plays the role of whatever the memory holds.
    pub fn new(fill: ScreenChar) -> (b: Buffer)
        ensures
            b.wf(),
            forall|r: int, c: int|
                0 <= r < BUFFER_HEIGHT && 0 <= c < BUFFER_WIDTH ==> b@[r][c] == fill,
    {
        let mut chars: Vec<Vec<ScreenChar>> = Vec::new();
        let mut r: usize = 0;
        while r < BUFFER_HEIGHT
            invariant
                r <= BUFFER_HEIGHT,
                chars@.len() == r,
                forall|i: int| 0 <= i < r ==> (#[trigger] chars@[i])@.len() == BUFFER_WIDTH,
                forall|i: int, j: int|
                    0 <= i < r && 0 <= j < BUFFER_WIDTH ==> chars@[i]@[j] == fill,
            decreases BUFFER_HEIGHT - r,
        {
            let mut row: Vec<ScreenChar> = Vec::new();
            let mut c: usize = 0;
            while c < BUFFER_WIDTH
                invariant
                    c <= BUFFER_WIDTH,
                    row@.len() == c,
                    forall|j: int| 0 <= j < c ==> row@[j] == fill,
                decreases BUFFER_WIDTH - c,
            {
                row.push(fill);
                c = c + 1;
            }
            chars.push(row);
            r = r + 1;
        }
        Buffer { chars }
    }

    /// Reads the current contents of one cell.
    pub fn read(&self, row: usize, col: usize) -> (c: ScreenChar)
        requires
            self.wf(),
            row < BUFFER_HEIGHT,
            col < BUFFER_WIDTH,
        ensures
            c == self@[row as int][col as int],
    {
        proof {
            assert(self.chars@.len() == self@.len());
            assert(self.chars@[row as int]@ == self@[row as int]);
        }
        self.chars[row][col]
    }

    /// Writes one cell; every other cell keeps its contents.
    pub fn write(&mut self, row: usize, col: usize, cell: ScreenChar)
        requires
            old(self).wf(),
            row < BUFFER_HEIGHT,
            col < BUFFER_WIDTH,
        ensures
            final(self).wf(),
            final(self)@ == old(self)@.update(
                row as int,
                old(self)@[row as int].update(col as int, cell),
            ),
    {
        proof {
            assert(self.chars@.len() == self@.len());
            assert(self.chars@[row as int]@ == self@[row as int]);
        }
        self.chars[row][col] = cell;
        proof {
            assert(self@ =~~= old(self)@.update(
                row as int,
                old(self)@[row as int].update(col as int, cell),
            ));
        }
    }
}

/// The attribute byte of the emergency indicator: white on red.
pub const PANIC_ATTRIBUTE: u8 = 0x4f;

/// The attribute byte of the emergency indicator is exactly the white-on-red
/// encoding.
pub proof fn lemma_panic_attribute_is_white_on_red()
    ensures
        color_code_spec(Color::White, Color::Red) == PANIC_ATTRIBUTE,
{
    assert(((4u8 << 4) | 15u8) == 0x4fu8) by (bit_vector);
}

/// The bytes of the fixed emergency message, "Oh no!".
pub open spec fn panic_message() -> Seq<u8> {
    seq![79u8, 104u8, 32u8, 110u8, 111u8, 33u8]
}

/// The grid's bottom row with the emergency message over its final six
/// cells, each in white-on-red, and every other cell as it was.
pub open spec fn indicator_row(g: Seq<Seq<ScreenChar>>) -> Seq<ScreenChar> {
    Seq::new(
        BUFFER_WIDTH as nat,
        |c: int|
            if c < BUFFER_WIDTH - 6 {
                g[BUFFER_HEIGHT - 1][c]
            } else {
                ScreenChar {
                    ascii_char: panic_message()[c - (BUFFER_WIDTH - 6)],
                    color_code: ColorCode(PANIC_ATTRIBUTE),
                }
            },
    )
}

/// Writes the fixed emergency indicator — "Oh no!" in white-on-red — into
/// the final six cells of the bottom row, and touches nothing else.
///
/// This is the last-resort output path for an unrecoverable fault. It
/// deliberately bypasses the writer and its lock: no cursor logic and no
/// lock acquisition stand between the fault and the indicator, so a corrupt
/// writer state or a held lock can never keep the failure from being shown.
/// The caller halts for good once this returns.
pub fn write_panic_indicator(buffer: &mut Buffer)
    requires
        old(buffer).wf(),
    ensures
        final(buffer).wf(),
        final(buffer)@ == old(buffer)@.update(BUFFER_HEIGHT - 1, indicator_row(old(buffer)@)),
{
    let attr = ColorCode(PANIC_ATTRIBUTE);
    let row = BUFFER_HEIGHT - 1;
    let start = BUFFER_WIDTH - 6;
    buffer.write(row, start, ScreenChar { ascii_char: 79, color_code: attr });
    buffer.write(row, start + 1, ScreenChar { ascii_char: 104, color_code: attr });
    buffer.write(row, start + 2, ScreenChar { ascii_char: 32, color_code: attr });
    buffer.write(row, start + 3, ScreenChar { ascii_char: 110, color_code: attr });
    buffer.write(row, start + 4, ScreenChar { ascii_char: 111, color_code: attr });
    buffer.write(row, start + 5, ScreenChar { ascii_char: 33, color_code: attr });
    proof {
        assert(buffer@[BUFFER_HEIGHT - 1] =~= indicator_row(old(buffer)@));
        assert(buffer@ =~= old(buffer)@.update(BUFFER_HEIGHT - 1, indicator_row(old(buffer)@)));
    }
}

} // verus!
