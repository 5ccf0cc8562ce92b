//! Properties of the writer's state model that relate several operations or
//! hold of every state.
use vstd::prelude::*;

use crate::buffer::{ScreenChar, BUFFER_CELLS, BUFFER_HEIGHT, BUFFER_WIDTH};
use crate::writer::{blank, is_printable, last_row_start, shown_byte, WriterView, NEWLINE, PLACEHOLDER};

verus! {

/// A printable byte written before the end of the row moves the cursor one
/// column on, lands at the old cursor position, and leaves every other cell,
/// in particular every row above the bottom one, as it was.
pub proof fn printable_byte_advances_cursor(w: WriterView, b: u8)
    requires
        w.wf(),
        is_printable(b),
        w.column < BUFFER_WIDTH,
    ensures
        w.put_byte(b).wf(),
        w.put_byte(b).column == w.column + 1,
        w.put_byte(b).color == w.color,
        w.put_byte(b).cells[last_row_start() + w.column] == (ScreenChar {
            ascii_character: b,
            color_code: w.color,
        }),
        forall|k: int|
            0 <= k < BUFFER_CELLS && k != last_row_start() + w.column ==> #[trigger] w.put_byte(
                b,
            ).cells[k] == w.cells[k],
{
}

/// Rendering text in pieces: the state after `a + c` is the state after `a`,
/// then `c`.
pub proof fn put_text_concat(w: WriterView, a: Seq<u8>, c: Seq<u8>)
    ensures
        w.put_text(a + c) == w.put_text(a).put_text(c),
    decreases c.len(),
{
    if c.len() == 0 {
        assert(a + c =~= a);
    } else {
        put_text_concat(w, a, c.drop_last());
        assert((a + c).drop_last() =~= a + c.drop_last());
        assert((a + c).last() == c.last());
    }
}

/// An unsupported byte anywhere in a text changes the grid exactly as the
/// placeholder glyph in its place would.
pub proof fn unsupported_byte_renders_as_placeholder(
    w: WriterView,
    prefix: Seq<u8>,
    b: u8,
    suffix: Seq<u8>,
)
    requires
        b != NEWLINE,
        !is_printable(b),
    ensures
        w.put_text(prefix.push(b) + suffix) == w.put_text(prefix.push(PLACEHOLDER) + suffix),
{
    put_text_concat(w, prefix.push(b), suffix);
    put_text_concat(w, prefix.push(PLACEHOLDER), suffix);
    assert(prefix.push(b).drop_last() =~= prefix);
    assert(prefix.push(PLACEHOLDER).drop_last() =~= prefix);
}

/// Printable bytes that fit on the bottom row land there one after another
/// from the cursor on, and nothing else changes.
pub proof fn printable_run_fills_row(w: WriterView, bytes: Seq<u8>)
    requires
        w.wf(),
        w.column + bytes.len() <= BUFFER_WIDTH,
        forall|i: int| 0 <= i < bytes.len() ==> is_printable(#[trigger] bytes[i]),
    ensures
        w.put_text(bytes).wf(),
        w.put_text(bytes).column == w.column + bytes.len(),
        w.put_text(bytes).color == w.color,
        forall|k: int|
            0 <= k < BUFFER_CELLS ==> #[trigger] w.put_text(bytes).cells[k] == if last_row_start()
                + w.column <= k < last_row_start() + w.column + bytes.len() {
                ScreenChar {
                    ascii_character: bytes[k - last_row_start() - w.column],
                    color_code: w.color,
                }
            } else {
                w.cells[k]
            },
    decreases bytes.len(),
{
    if bytes.len() > 0 {
        let init = bytes.drop_last();
        assert forall|i: int| 0 <= i < init.len() implies is_printable(#[trigger] init[i]) by {
            assert(init[i] == bytes[i]);
        }
        printable_run_fills_row(w, init);
        assert(is_printable(bytes.last()));
    }
}

/// A full row of printable bytes and then one more scroll the grid exactly
/// once: the old top row is lost, the rows below it move up, the full row
/// ends just above the bottom one, and the bottom row holds the last byte at
/// column 0 and blanks after it.
pub proof fn overflowing_row_scrolls_once(w: WriterView, bytes: Seq<u8>)
    requires
        w.wf(),
        w.column == 0,
        bytes.len() == BUFFER_WIDTH + 1,
        forall|i: int| 0 <= i < bytes.len() ==> is_printable(#[trigger] bytes[i]),
    ensures
        w.put_text(bytes).wf(),
        w.put_text(bytes).column == 1,
        forall|k: int|
            0 <= k < last_row_start() - BUFFER_WIDTH ==> #[trigger] w.put_text(bytes).cells[k]
                == w.cells[k + BUFFER_WIDTH],
        forall|j: int|
            0 <= j < BUFFER_WIDTH ==> #[trigger] w.put_text(bytes).cells[last_row_start()
                - BUFFER_WIDTH + j] == (ScreenChar { ascii_character: bytes[j], color_code: w.color }),
        w.put_text(bytes).cells[last_row_start()] == (ScreenChar {
            ascii_character: bytes[BUFFER_WIDTH as int],
            color_code: w.color,
        }),
        forall|j: int|
            0 < j < BUFFER_WIDTH ==> #[trigger] w.put_text(bytes).cells[last_row_start() + j]
                == blank(w.color),
{
    let row = bytes.drop_last();
    assert forall|i: int| 0 <= i < row.len() implies is_printable(#[trigger] row[i]) by {
        assert(row[i] == bytes[i]);
    }
    printable_run_fills_row(w, row);
    let full = w.put_text(row);
    assert(is_printable(bytes.last()));
    assert forall|j: int| 0 <= j < BUFFER_WIDTH implies #[trigger] w.put_text(bytes).cells[
        last_row_start() - BUFFER_WIDTH + j] == (ScreenChar {
        ascii_character: bytes[j],
        color_code: w.color,
    }) by {
        assert(full.cells[last_row_start() + j] == (ScreenChar {
            ascii_character: row[j],
            color_code: w.color,
        }));
    }
}

/// A line break always puts the cursor at column 0 and keeps the attribute.
pub proof fn new_line_resets_column(w: WriterView)
    ensures
        w.scrolled().column == 0,
        w.scrolled().color == w.color,
        w.put_byte(NEWLINE) == w.scrolled(),
{
}

/// The state after `n` line breaks.
pub open spec fn scrolled_times(w: WriterView, n: nat) -> WriterView
    decreases n,
{
    if n == 0 {
        w
    } else {
        scrolled_times(w, (n - 1) as nat).scrolled()
    }
}

/// After `n` line breaks each remaining row has moved up by `n` rows and the
/// `n` bottom rows are blank.
pub proof fn scrolled_times_shifts(w: WriterView, n: nat)
    requires
        w.wf(),
        n <= BUFFER_HEIGHT,
    ensures
        scrolled_times(w, n).cells.len() == BUFFER_CELLS,
        scrolled_times(w, n).color == w.color,
        forall|k: int|
            0 <= k < BUFFER_CELLS ==> #[trigger] scrolled_times(w, n).cells[k] == if k
                < BUFFER_CELLS - n * BUFFER_WIDTH {
                w.cells[k + n * BUFFER_WIDTH]
            } else {
                blank(w.color)
            },
    decreases n,
{
    if n > 0 {
        scrolled_times_shifts(w, (n - 1) as nat);
        let p = scrolled_times(w, (n - 1) as nat);
        assert forall|k: int| 0 <= k < BUFFER_CELLS implies #[trigger] scrolled_times(
            w,
            n,
        ).cells[k] == if k < BUFFER_CELLS - n * BUFFER_WIDTH {
            w.cells[k + n * BUFFER_WIDTH]
        } else {
            blank(w.color)
        } by {
            if k < last_row_start() {
                assert(p.cells[k + BUFFER_WIDTH] == if k + BUFFER_WIDTH < BUFFER_CELLS - (n - 1)
                    * BUFFER_WIDTH {
                    w.cells[k + BUFFER_WIDTH + (n - 1) * BUFFER_WIDTH]
                } else {
                    blank(w.color)
                });
                assert(k + BUFFER_WIDTH + (n - 1) * BUFFER_WIDTH == k + n * BUFFER_WIDTH)
                    by (nonlinear_arith);
            }
        }
    }
}

/// As many line breaks as the grid has rows leave every cell blank, in the
/// current attribute, with the cursor at column 0.
pub proof fn scrolling_every_row_blanks_grid(w: WriterView)
    requires
        w.wf(),
    ensures
        scrolled_times(w, BUFFER_HEIGHT as nat).column == 0,
        scrolled_times(w, BUFFER_HEIGHT as nat).cells == Seq::new(
            BUFFER_CELLS as nat,
            |i: int| blank(w.color),
        ),
{
    scrolled_times_shifts(w, BUFFER_HEIGHT as nat);
    assert(scrolled_times(w, BUFFER_HEIGHT as nat).cells =~= Seq::new(
        BUFFER_CELLS as nat,
        |i: int| blank(w.color),
    ));
}

} // verus!
