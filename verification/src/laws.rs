//! The behavioral laws of the writer, stated and proved over the abstract
//! transition functions that the executable operations are verified against.

use vstd::prelude::*;

use crate::screen::{blank_row, ScreenChar, BUFFER_HEIGHT, BUFFER_WIDTH, NEWLINE_BYTE};
use crate::writer::{
    advance_line_spec, place_char_spec, scroll_grid, write_byte_spec, write_text_spec,
    ScreenState,
};

verus! {

/// The visible bottom row of a grid — the row new content lands on.
pub open spec fn bottom_row(g: Seq<Seq<ScreenChar>>) -> Seq<ScreenChar> {
    g[BUFFER_HEIGHT - 1]
}

/// A byte sequence with no newline in it.
pub open spec fn no_newline(bytes: Seq<u8>) -> bool {
    forall|i: int| 0 <= i < bytes.len() ==> bytes[i] != NEWLINE_BYTE
}

/// Feeding one sequence and then another is feeding their concatenation.
pub proof fn lemma_write_text_spec_append(s: ScreenState, a: Seq<u8>, b: Seq<u8>)
    ensures
        write_text_spec(s, a + b) == write_text_spec(write_text_spec(s, a), b),
    decreases a.len(),
{
    if a.len() == 0 {
        assert(a + b =~= b);
        assert(write_text_spec(s, a) == s);
    } else {
        assert((a + b)[0] == a[0]);
        assert((a + b).drop_first() =~= a.drop_first() + b);
        lemma_write_text_spec_append(write_byte_spec(s, a[0]), a.drop_first(), b);
        assert(write_text_spec(s, a)
            == write_text_spec(write_byte_spec(s, a[0]), a.drop_first()));
    }
}

/// Newline: the newline byte never places a visible character. Whatever the
/// cursor column — including column 0 — it triggers exactly one scroll and
/// resets the cursor to column 0.
pub proof fn lemma_newline(s: ScreenState)
    requires
        s.wf(),
    ensures
        write_byte_spec(s, NEWLINE_BYTE) == advance_line_spec(s),
        write_byte_spec(s, NEWLINE_BYTE).grid == scroll_grid(s.grid, s.color),
        write_byte_spec(s, NEWLINE_BYTE).col == 0,
{
}

/// Scroll content preservation: after one scroll, each row except the last
/// holds exactly what the row below it held before, and the last row is
/// entirely blank in the active color.
pub proof fn lemma_scroll_content_preservation(s: ScreenState)
    requires
        s.wf(),
    ensures
        forall|r: int|
            0 <= r < BUFFER_HEIGHT - 1
                ==> #[trigger] advance_line_spec(s).grid[r] == s.grid[r + 1],
        bottom_row(advance_line_spec(s).grid) == blank_row(s.color),
        advance_line_spec(s).col == 0,
        advance_line_spec(s).color == s.color,
{
}

/// Writing a run of non-newline bytes that fits on the bottom row places each
/// byte at the column where the cursor stood when it arrived, in the active
/// color; it advances the cursor by the run's length, triggers no scroll, and
/// touches no other cell.
pub proof fn lemma_write_run(s: ScreenState, bytes: Seq<u8>)
    requires
        s.wf(),
        no_newline(bytes),
        s.col + bytes.len() <= BUFFER_WIDTH,
    ensures
        write_text_spec(s, bytes).wf(),
        write_text_spec(s, bytes).col == s.col + bytes.len(),
        write_text_spec(s, bytes).color == s.color,
        forall|r: int|
            0 <= r < BUFFER_HEIGHT - 1
                ==> #[trigger] write_text_spec(s, bytes).grid[r] == s.grid[r],
        forall|c: int|
            0 <= c < BUFFER_WIDTH && !(s.col <= c < s.col + bytes.len())
                ==> #[trigger] bottom_row(write_text_spec(s, bytes).grid)[c]
                    == bottom_row(s.grid)[c],
        forall|c: int|
            s.col <= c < s.col + bytes.len()
                ==> #[trigger] bottom_row(write_text_spec(s, bytes).grid)[c]
                    == (ScreenChar { ascii_char: bytes[c - s.col], color_code: s.color }),
    decreases bytes.len(),
{
    if bytes.len() == 0 {
    } else {
        let s1 = write_byte_spec(s, bytes[0]);
        assert(s1 == place_char_spec(s, bytes[0]));
        lemma_write_run(s1, bytes.drop_first());
        assert(write_text_spec(s, bytes) == write_text_spec(s1, bytes.drop_first()));
        assert forall|c: int| s.col <= c < s.col + bytes.len() implies #[trigger] bottom_row(
            write_text_spec(s, bytes).grid,
        )[c] == (ScreenChar { ascii_char: bytes[c - s.col], color_code: s.color }) by {
            if c == s.col {
                assert(bottom_row(write_text_spec(s1, bytes.drop_first()).grid)[c]
                    == bottom_row(s1.grid)[c]);
            } else {
                assert(bytes.drop_first()[c - s1.col] == bytes[c - s.col]);
            }
        }
    }
}

/// Column wrap: from column 0, a full row's worth of non-newline bytes fills
/// the bottom row exactly, leaves the cursor at `BUFFER_WIDTH`, and triggers
/// no scroll — every other row is untouched. One further non-newline byte
/// then triggers exactly one scroll before being placed, and lands at column
/// 0 of the (still) bottom row.
pub proof fn lemma_column_wrap(s: ScreenState, bytes: Seq<u8>, b: u8)
    requires
        s.wf(),
        s.col == 0,
        no_newline(bytes),
        bytes.len() == BUFFER_WIDTH,
        b != NEWLINE_BYTE,
    ensures
        write_text_spec(s, bytes).col == BUFFER_WIDTH,
        forall|r: int|
            0 <= r < BUFFER_HEIGHT - 1
                ==> #[trigger] write_text_spec(s, bytes).grid[r] == s.grid[r],
        forall|c: int|
            0 <= c < BUFFER_WIDTH
                ==> #[trigger] bottom_row(write_text_spec(s, bytes).grid)[c]
                    == (ScreenChar { ascii_char: bytes[c], color_code: s.color }),
        write_byte_spec(write_text_spec(s, bytes), b)
            == place_char_spec(advance_line_spec(write_text_spec(s, bytes)), b),
        write_byte_spec(write_text_spec(s, bytes), b).col == 1,
        bottom_row(write_byte_spec(write_text_spec(s, bytes), b).grid)[0]
            == (ScreenChar { ascii_char: b, color_code: s.color }),
{
    lemma_write_run(s, bytes);
    let t = write_text_spec(s, bytes);
    assert(write_byte_spec(t, b) == place_char_spec(advance_line_spec(t), b));
}

/// Writing a run of newlines shifts the grid up by the run's length: each
/// remaining row holds what stood that many rows below it, the vacated
/// bottom rows are blank in the active color, and the cursor is at column 0.
pub proof fn lemma_newline_run(s: ScreenState, bytes: Seq<u8>)
    requires
        s.wf(),
        bytes.len() <= BUFFER_HEIGHT,
        forall|i: int| 0 <= i < bytes.len() ==> bytes[i] == NEWLINE_BYTE,
    ensures
        write_text_spec(s, bytes).wf(),
        write_text_spec(s, bytes).color == s.color,
        bytes.len() > 0 ==> write_text_spec(s, bytes).col == 0,
        forall|r: int|
            0 <= r < BUFFER_HEIGHT - bytes.len()
                ==> #[trigger] write_text_spec(s, bytes).grid[r] == s.grid[r + bytes.len()],
        forall|r: int|
            BUFFER_HEIGHT - bytes.len() <= r < BUFFER_HEIGHT
                ==> #[trigger] write_text_spec(s, bytes).grid[r] == blank_row(s.color),
    decreases bytes.len(),
{
    if bytes.len() == 0 {
    } else {
        let s1 = write_byte_spec(s, bytes[0]);
        assert(s1 == advance_line_spec(s));
        lemma_newline_run(s1, bytes.drop_first());
        assert(write_text_spec(s, bytes) == write_text_spec(s1, bytes.drop_first()));
    }
}

/// Clearing the screen is a full screen-height run of newlines: it scrolls
/// the buffer empty, leaving every row blank in the active color and the
/// cursor at column 0, whatever the grid held before.
pub proof fn lemma_clear_by_newlines(s: ScreenState, bytes: Seq<u8>)
    requires
        s.wf(),
        bytes.len() == BUFFER_HEIGHT,
        forall|i: int| 0 <= i < bytes.len() ==> bytes[i] == NEWLINE_BYTE,
    ensures
        write_text_spec(s, bytes).col == 0,
        write_text_spec(s, bytes).color == s.color,
        forall|r: int|
            0 <= r < BUFFER_HEIGHT
                ==> #[trigger] write_text_spec(s, bytes).grid[r] == blank_row(s.color),
{
    lemma_newline_run(s, bytes);
}

/// Serialization of whole messages: two non-newline messages fed to the
/// writer one after the other land as two adjacent contiguous runs on the
/// bottom row — the first message's bytes, then the second's, never an
/// interleaving — provided both fit on the row.
pub proof fn lemma_serialized_messages(s: ScreenState, a: Seq<u8>, b: Seq<u8>)
    requires
        s.wf(),
        no_newline(a),
        no_newline(b),
        s.col + a.len() + b.len() <= BUFFER_WIDTH,
    ensures
        write_text_spec(write_text_spec(s, a), b).col == s.col + a.len() + b.len(),
        forall|c: int|
            s.col <= c < s.col + a.len()
                ==> #[trigger] bottom_row(write_text_spec(write_text_spec(s, a), b).grid)[c]
                    == (ScreenChar { ascii_char: a[c - s.col], color_code: s.color }),
        forall|c: int|
            s.col + a.len() <= c < s.col + a.len() + b.len()
                ==> #[trigger] bottom_row(write_text_spec(write_text_spec(s, a), b).grid)[c]
                    == (ScreenChar { ascii_char: b[c - s.col - a.len()], color_code: s.color }),
{
    lemma_write_run(s, a);
    let t = write_text_spec(s, a);
    lemma_write_run(t, b);
}

} // verus!
