//! The line writer: a cursor on the bottom row that renders bytes into the
//! grid, wraps at the end of a row and scrolls the grid up on a line break.
use vstd::prelude::*;
use vstd::string::StringSliceAdditionalSpecFns;

use crate::buffer::{cell_index, Buffer, ScreenChar, BUFFER_CELLS, BUFFER_HEIGHT, BUFFER_WIDTH};
use crate::color::{attribute_byte, Color, ColorCode};

verus! {

/// The glyph that stands for a byte the display cannot show.
pub const PLACEHOLDER: u8 = 0xfe;

/// The line-break byte.
pub const NEWLINE: u8 = 0x0a;

/// The space byte, which blank cells hold.
pub const SPACE: u8 = 0x20;

/// The blank cell in a given attribute.
pub open spec fn blank(color: ColorCode) -> ScreenChar {
    ScreenChar { ascii_character: SPACE, color_code: color }
}

/// A printable ASCII byte, from space to tilde.
pub open spec fn is_printable(b: u8) -> bool {
    0x20 <= b <= 0x7e
}

/// The byte that text rendering hands on for `b`: itself if it is a line
/// break or printable, else the placeholder glyph.
pub open spec fn shown_byte(b: u8) -> u8 {
    if b == NEWLINE || is_printable(b) {
        b
    } else {
        PLACEHOLDER
    }
}

/// The state of a writer: every cell of the grid in row-major order, the
/// cursor column on the bottom row, and the current attribute.
pub struct WriterView {
    pub cells: Seq<ScreenChar>,
    pub column: nat,
    pub color: ColorCode,
}

/// The index of the first cell of the bottom row.
pub open spec fn last_row_start() -> int {
    cell_index(BUFFER_HEIGHT as int - 1, 0)
}

impl WriterView {
    /// The grid has its fixed size and the cursor lies within a row or just
    /// past its end.
    pub open spec fn wf(self) -> bool {
        self.cells.len() == BUFFER_CELLS && self.column <= BUFFER_WIDTH
    }

    /// The state after a line break: each row moves up by one, the top row
    /// is lost, the bottom row is blank and the cursor is at column 0.
    pub open spec fn scrolled(self) -> WriterView {
        WriterView {
            cells: Seq::new(
                BUFFER_CELLS as nat,
                |i: int|
                    if i < last_row_start() {
                        self.cells[i + BUFFER_WIDTH]
                    } else {
                        blank(self.color)
                    },
            ),
            column: 0,
            color: self.color,
        }
    }

    /// The state after writing one byte: a line break scrolls; any other
    /// byte first scrolls if the bottom row is full, then lands at the
    /// cursor and moves it one column on.
    pub open spec fn put_byte(self, b: u8) -> WriterView {
        if b == NEWLINE {
            self.scrolled()
        } else {
            let w = if self.column >= BUFFER_WIDTH {
                self.scrolled()
            } else {
                self
            };
            WriterView {
                cells: w.cells.update(
                    last_row_start() + w.column,
                    ScreenChar { ascii_character: b, color_code: w.color },
                ),
                column: w.column + 1,
                color: w.color,
            }
        }
    }

    /// The state after rendering a byte sequence as text: each byte in turn,
    /// through `shown_byte`.
    pub open spec fn put_text(self, bytes: Seq<u8>) -> WriterView
        decreases bytes.len(),
    {
        if bytes.len() == 0 {
            self
        } else {
            self.put_text(bytes.drop_last()).put_byte(shown_byte(bytes.last()))
        }
    }
}

/// A writer that owns its grid.
pub struct Writer {
    column_position: usize,
    color_code: ColorCode,
    buffer: Buffer,
}

impl View for Writer {
    type V = WriterView;

    closed spec fn view(&self) -> WriterView {
        WriterView {
            cells: self.buffer@,
            column: self.column_position as nat,
            color: self.color_code,
        }
    }
}

impl Writer {
    /// The grid has its fixed size and the cursor is in range.
    pub open spec fn wf(&self) -> bool {
        self@.wf()
    }

    /// A writer over a blank grid, with the cursor at column 0 and the given
    /// colours.
    pub fn new(background: Color, foreground: Color) -> (r: Writer)
        ensures
            r.wf(),
            r@.column == 0,
            r@.color.spec_byte() == attribute_byte(background, foreground),
            r@.cells == Seq::new(BUFFER_CELLS as nat, |i: int| blank(r@.color)),
    {
        let color_code = ColorCode::new(background, foreground);
        let buffer = Buffer::filled(ScreenChar { ascii_character: SPACE, color_code });
        Writer { column_position: 0, color_code, buffer }
    }

    /// Writes one byte. A line break scrolls the grid; any other byte is
    /// stored as it is at the cursor, after a scroll if the row is full.
    pub fn write_byte(&mut self, byte: u8)
        requires
            old(self).wf(),
        ensures
            final(self).wf(),
            final(self)@ == old(self)@.put_byte(byte),
    {
        if byte == NEWLINE {
            self.new_line();
        } else {
            if self.column_position >= BUFFER_WIDTH {
                self.new_line();
            }
            let row = BUFFER_HEIGHT - 1;
            let col = self.column_position;
            let color_code = self.color_code;
            self.buffer.write(row, col, ScreenChar { ascii_character: byte, color_code });
            self.column_position += 1;
        }
    }

    /// Writes the bytes of `s` in order, each printable byte and line break
    /// as it is and every other byte as the placeholder glyph.
    pub fn write_string(&mut self, s: &str)
        requires
            old(self).wf(),
        ensures
            final(self).wf(),
            final(self)@ == old(self)@.put_text(s.spec_bytes()),
    {
        let bytes = s.as_bytes();
        let ghost start = self@;
        let mut i: usize = 0;
        while i < bytes.len()
            invariant
                self.wf(),
                i <= bytes@.len(),
                bytes@ == s.spec_bytes(),
                self@ == start.put_text(bytes@.subrange(0, i as int)),
            decreases bytes@.len() - i,
        {
            let byte = bytes[i];
            if byte == NEWLINE || (0x20 <= byte && byte <= 0x7e) {
                self.write_byte(byte);
            } else {
                self.write_byte(PLACEHOLDER);
            }
            assert(bytes@.subrange(0, i + 1).drop_last() =~= bytes@.subrange(0, i as int));
            i += 1;
        }
        assert(bytes@.subrange(0, i as int) =~= bytes@);
    }

    /// Scrolls the grid up by one row, blanks the bottom row in the current
    /// attribute and puts the cursor at column 0.
    pub fn new_line(&mut self)
        requires
            old(self).wf(),
        ensures
            final(self).wf(),
            final(self)@ == old(self)@.scrolled(),
    {
        let ghost before = self@.cells;
        let mut row: usize = 1;
        while row < BUFFER_HEIGHT
            invariant
                1 <= row <= BUFFER_HEIGHT,
                self.wf(),
                before == old(self)@.cells,
                before.len() == BUFFER_CELLS,
                self.color_code == old(self).color_code,
                self.column_position == old(self).column_position,
                forall|k: int|
                    0 <= k < cell_index(row - 1, 0) ==> #[trigger] self@.cells[k] == before[k
                        + BUFFER_WIDTH],
                forall|k: int|
                    cell_index(row - 1, 0) <= k < BUFFER_CELLS ==> #[trigger] self@.cells[k]
                        == before[k],
            decreases BUFFER_HEIGHT - row,
        {
            let mut col: usize = 0;
            while col < BUFFER_WIDTH
                invariant
                    1 <= row < BUFFER_HEIGHT,
                    col <= BUFFER_WIDTH,
                    self.wf(),
                    before == old(self)@.cells,
                    before.len() == BUFFER_CELLS,
                    self.color_code == old(self).color_code,
                    self.column_position == old(self).column_position,
                    forall|k: int|
                        0 <= k < cell_index(row - 1, col as int) ==> #[trigger] self@.cells[k]
                            == before[k + BUFFER_WIDTH],
                    forall|k: int|
                        cell_index(row - 1, col as int) <= k < BUFFER_CELLS
                            ==> #[trigger] self@.cells[k] == before[k],
                decreases BUFFER_WIDTH - col,
            {
                let character = self.buffer.read(row, col);
                self.buffer.write(row - 1, col, character);
                col += 1;
            }
            row += 1;
        }
        self.clear_row(BUFFER_HEIGHT - 1);
        self.column_position = 0;
        assert(self@.cells =~= old(self)@.scrolled().cells);
    }

    /// Changes the attribute used by later writes and blanks; the cells
    /// already on the grid keep theirs.
    pub fn set_color(&mut self, background: Color, foreground: Color)
        requires
            old(self).wf(),
        ensures
            final(self).wf(),
            final(self)@.cells == old(self)@.cells,
            final(self)@.column == old(self)@.column,
            final(self)@.color.spec_byte() == attribute_byte(background, foreground),
    {
        self.color_code = ColorCode::new(background, foreground);
    }

    /// Tests at run time that the grid has its fixed size and the cursor is
    /// in range.
    pub fn is_well_formed(&self) -> (r: bool)
        ensures
            r == self.wf(),
    {
        self.column_position <= BUFFER_WIDTH && self.buffer.len() == BUFFER_CELLS
    }

    /// The cursor column on the bottom row.
    pub fn column_position(&self) -> (r: usize)
        ensures
            r == self@.column,
    {
        self.column_position
    }

    /// The attribute used by later writes and blanks.
    pub fn color_code(&self) -> (r: ColorCode)
        ensures
            r == self@.color,
    {
        self.color_code
    }

    /// The cell at (row, col).
    pub fn cell(&self, row: usize, col: usize) -> (r: ScreenChar)
        requires
            self.wf(),
            row < BUFFER_HEIGHT,
            col < BUFFER_WIDTH,
        ensures
            r == self@.cells[cell_index(row as int, col as int)],
    {
        self.buffer.read(row, col)
    }

    /// Sets every cell of `row` to a blank in the current attribute.
    fn clear_row(&mut self, row: usize)
        requires
            old(self).wf(),
            row < BUFFER_HEIGHT,
        ensures
            final(self).wf(),
            final(self).color_code == old(self).color_code,
            final(self).column_position == old(self).column_position,
            forall|k: int|
                0 <= k < BUFFER_CELLS ==> #[trigger] final(self)@.cells[k] == if cell_index(
                    row as int,
                    0,
                ) <= k < cell_index(row as int + 1, 0) {
                    blank(old(self).color_code)
                } else {
                    old(self)@.cells[k]
                },
    {
        let blank = ScreenChar { ascii_character: SPACE, color_code: self.color_code };
        let mut col: usize = 0;
        while col < BUFFER_WIDTH
            invariant
                col <= BUFFER_WIDTH,
                row < BUFFER_HEIGHT,
                self.wf(),
                self.color_code == old(self).color_code,
                self.column_position == old(self).column_position,
                blank == crate::writer::blank(self.color_code),
                forall|k: int|
                    0 <= k < BUFFER_CELLS ==> #[trigger] self@.cells[k] == if cell_index(
                        row as int,
                        0,
                    ) <= k < cell_index(row as int, col as int) {
                        blank
                    } else {
                        old(self)@.cells[k]
                    },
            decreases BUFFER_WIDTH - col,
        {
            self.buffer.write(row, col, blank);
            col += 1;
        }
    }
}

/// Writes already formatted text: the bytes of `s`, as `write_string` does.
pub fn _print(writer: &mut Writer, s: &str)
    requires
        old(writer).wf(),
    ensures
        final(writer).wf(),
        final(writer)@ == old(writer)@.put_text(s.spec_bytes()),
{
    writer.write_string(s);
}

#[verifier::external_type_specification]
#[verifier::external_body]
pub struct ExFmtError(core::fmt::Error);

/// Makes core::fmt::Error, the formatting machinery's one error value.
#[verifier::external_body]
fn format_error() -> (r: core::fmt::Error) {
    core::fmt::Error
}

impl core::fmt::Write for Writer {
    /// Writes `s` as `write_string` does. Every writer that this library
    /// builds is well formed, so this never fails.
    fn write_str(&mut self, s: &str) -> (r: core::fmt::Result)
        ensures
            r.is_ok() == old(self).wf(),
            old(self).wf() ==> final(self)@ == old(self)@.put_text(s.spec_bytes()),
            !old(self).wf() ==> *final(self) == *old(self),
    {
        if self.is_well_formed() {
            self.write_string(s);
            Ok(())
        } else {
            Err(format_error())
        }
    }
}

} // verus!
