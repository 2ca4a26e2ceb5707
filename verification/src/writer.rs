//! The writer: a cursor on the bottom row of the grid that turns bytes into
//! cell writes, wraps at the right edge and scrolls the grid upwards.

use vstd::prelude::*;
use vstd::string::StringSliceAdditionalSpecFns;
use crate::attribute::ColorCode;
use crate::buffer::Buffer;
use crate::buffer::BUFFER_HEIGHT;
use crate::buffer::BUFFER_WIDTH;
use crate::cell::ScreenChar;
use crate::cell::NEWLINE;
use crate::cell::PLACEHOLDER;
use crate::model;
use crate::model::WriterView;

verus! {

/// `core::fmt::Error`, the failure that a formatter's sink may report. It
/// carries nothing.
#[verifier::external_type_specification]
#[verifier::external_body]
pub struct ExFmtError(core::fmt::Error);

/// Writes text to a frame buffer, always on the bottom row.
pub struct Writer {
    column_position: usize,
    color_code: ColorCode,
    buffer: Buffer,
}

impl View for Writer {
    type V = WriterView;

    closed spec fn view(&self) -> WriterView {
        WriterView {
            column: self.column_position as nat,
            color_code: self.color_code,
            rows: self.buffer@,
        }
    }
}

impl Writer {
    #[verifier::type_invariant]
    spec fn column_on_grid(self) -> bool {
        self.column_position <= BUFFER_WIDTH
    }

    /// A writer at the left edge of the bottom row. The grid keeps what it
    /// holds.
    pub fn new(color_code: ColorCode, buffer: Buffer) -> (writer: Writer)
        ensures
            writer@ == (WriterView { column: 0, color_code, rows: buffer@ }),
            writer@.wf(),
    {
        Writer { column_position: 0, color_code, buffer }
    }

    /// Overwrites one row with blanks in the writer's colours.
    pub fn clear_row(&mut self, row: usize)
        requires
            row < BUFFER_HEIGHT,
        ensures
            final(self)@ == model::clear_row(old(self)@, row as int),
            final(self)@.wf(),
    {
        proof {
            use_type_invariant(&*self);
        }
        let blank = ScreenChar::blank(self.color_code);
        let ghost before = self.buffer@;
        for col in 0..BUFFER_WIDTH
            invariant
                row < BUFFER_HEIGHT,
                self.column_position <= BUFFER_WIDTH,
                blank == ScreenChar::spec_blank(self.color_code),
                self.column_position == old(self).column_position,
                self.color_code == old(self).color_code,
                before == old(self).buffer@,
                forall|r: int| 0 <= r < BUFFER_HEIGHT && r != row ==> self.buffer@[r] == before[r],
                forall|c: int| 0 <= c < col ==> self.buffer@[row as int][c] == blank,
                forall|c: int|
                    col <= c < BUFFER_WIDTH ==> self.buffer@[row as int][c] == before[row as int][c],
        {
            self.buffer.write(row, col, blank);
        }
        assert(self.buffer@[row as int] =~= model::blank_row(self.color_code));
        assert(self.buffer@ =~= before.update(row as int, model::blank_row(self.color_code)));
    }

    /// Scrolls the grid: copies every row into the row above it, top to
    /// bottom, clears the bottom row and returns to the left edge. What the
    /// top row held is lost.
    pub fn new_line(&mut self)
        ensures
            final(self)@ == model::new_line(old(self)@),
            final(self)@.wf(),
    {
        proof {
            use_type_invariant(&*self);
        }
        let ghost before = self.buffer@;
        for row in 1..BUFFER_HEIGHT
            invariant
                self.column_position <= BUFFER_WIDTH,
                self.column_position == old(self).column_position,
                self.color_code == old(self).color_code,
                before == old(self).buffer@,
                forall|r: int| 0 <= r < row - 1 ==> self.buffer@[r] == before[r + 1],
                forall|r: int| row - 1 <= r < BUFFER_HEIGHT ==> self.buffer@[r] == before[r],
        {
            let ghost above = self.buffer@;
            let ghost target: int = row - 1;
            let ghost source_row = before[row as int];
            let ghost target_row = before[row - 1];
            for col in 0..BUFFER_WIDTH
                invariant
                    1 <= row < BUFFER_HEIGHT,
                    target == row - 1,
                    self.column_position <= BUFFER_WIDTH,
                    self.column_position == old(self).column_position,
                    self.color_code == old(self).color_code,
                    above[row as int] == source_row,
                    forall|r: int|
                        0 <= r < BUFFER_HEIGHT && r != target ==> self.buffer@[r] == above[r],
                    forall|c: int| 0 <= c < col ==> self.buffer@[target][c] == source_row[c],
                    forall|c: int|
                        col <= c < BUFFER_WIDTH ==> self.buffer@[target][c] == target_row[c],
            {
                let character = self.buffer.read(row, col);
                self.buffer.write(row - 1, col, character);
            }
            assert forall|r: int| 0 <= r < row implies self.buffer@[r] == before[r + 1] by {
                if r == target {
                    assert(self.buffer@[r] =~= source_row);
                } else {
                    assert(self.buffer@[r] == above[r]);
                }
            }
        }
        self.clear_row(BUFFER_HEIGHT - 1);
        self.column_position = 0;
        assert(self.buffer@ =~= model::new_line(old(self)@).rows);
    }

    /// Writes one byte. A line feed scrolls the grid. Any other byte goes to
    /// the bottom row at the column, after a scroll if that row is full, and
    /// moves the column one to the right.
    pub fn write_byte(&mut self, byte: u8)
        ensures
            final(self)@ == model::write_byte(old(self)@, byte),
            final(self)@.wf(),
    {
        proof {
            use_type_invariant(&*self);
        }
        if byte == NEWLINE {
            self.new_line();
        } else {
            if self.column_position >= BUFFER_WIDTH {
                self.new_line();
            }
            let row = BUFFER_HEIGHT - 1;
            let col = self.column_position;
            let color_code = self.color_code;
            self.buffer.write(row, col, ScreenChar { ascii_character: byte, color_code });
            self.column_position += 1;
        }
    }

    /// Writes a string byte by byte. Bytes that are neither printable ASCII
    /// nor the line feed are written as the placeholder.
    pub fn write_string(&mut self, s: &str)
        ensures
            final(self)@ == model::write_string(old(self)@, s.spec_bytes()),
            final(self)@.wf(),
    {
        proof {
            use_type_invariant(&*self);
        }
        let bytes = s.as_bytes();
        for i in 0..bytes.len()
            invariant
                bytes@ == s.spec_bytes(),
                self@.wf(),
                self@ == model::write_string(old(self)@, bytes@.take(i as int)),
        {
            let byte = bytes[i];
            assert(bytes@.take(i + 1).drop_last() =~= bytes@.take(i as int));
            if (0x20 <= byte && byte <= 0x7e) || byte == NEWLINE {
                self.write_byte(byte);
            } else {
                self.write_byte(PLACEHOLDER);
            }
        }
        assert(bytes@.take(bytes@.len() as int) =~= bytes@);
    }

    /// Takes one piece of rendered text from a formatter and writes it as
    /// `write_string` does. Writing a cell cannot fail, so neither can this.
    pub fn write_str(&mut self, s: &str) -> (result: Result<(), core::fmt::Error>)
        ensures
            result is Ok,
            final(self)@ == model::write_string(old(self)@, s.spec_bytes()),
            final(self)@.wf(),
    {
        self.write_string(s);
        Ok(())
    }

    /// The column of the bottom row that the next character goes to. It is
    /// the width of the grid when the row is full.
    pub fn column_position(&self) -> (column: usize)
        ensures
            column == self@.column,
            column <= BUFFER_WIDTH,
            self@.wf(),
    {
        proof {
            use_type_invariant(self);
        }
        self.column_position
    }

    /// The attribute that characters are written with.
    pub fn color_code(&self) -> (color_code: ColorCode)
        ensures
            color_code == self@.color_code,
    {
        self.color_code
    }

    /// Reads the cell at a position of the grid.
    pub fn read(&self, row: usize, col: usize) -> (cell: ScreenChar)
        requires
            row < BUFFER_HEIGHT,
            col < BUFFER_WIDTH,
        ensures
            cell == self@.rows[row as int][col as int],
    {
        self.buffer.read(row, col)
    }
}

/// Writes one piece of rendered text to the writer that the caller holds
/// exclusively. The write cannot fail, so there is no failure to report.
pub fn _print(writer: &mut Writer, text: &str)
    ensures
        final(writer)@ == model::write_string(old(writer)@, text.spec_bytes()),
        final(writer)@.wf(),
{
    writer.write_str(text).unwrap();
}

} // verus!
