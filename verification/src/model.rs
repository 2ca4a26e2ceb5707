//! What the writer does, stated on plain values: the state of a writer as a
//! column, an attribute and rows of cells, and each operation as a function
//! from state to state.

use vstd::prelude::*;
use crate::attribute::ColorCode;
use crate::buffer::BUFFER_HEIGHT;
use crate::buffer::BUFFER_WIDTH;
use crate::cell::ScreenChar;
use crate::cell::NEWLINE;
use crate::cell::PLACEHOLDER;

verus! {

/// The state of a writer.
pub struct WriterView {
    /// The column of the bottom row that the next character goes to.
    pub column: nat,
    /// The attribute that characters are written with.
    pub color_code: ColorCode,
    /// The grid, top row first.
    pub rows: Seq<Seq<ScreenChar>>,
}

impl WriterView {
    /// The grid has its full shape, and the column is on it or just past
    /// its right edge.
    pub open spec fn wf(self) -> bool {
        &&& self.column <= BUFFER_WIDTH
        &&& self.rows.len() == BUFFER_HEIGHT
        &&& forall|row: int| 0 <= row < BUFFER_HEIGHT ==> (#[trigger] self.rows[row]).len()
            == BUFFER_WIDTH
    }

    /// The bottom row, where every character is written.
    pub open spec fn bottom(self) -> Seq<ScreenChar> {
        self.rows[BUFFER_HEIGHT - 1]
    }
}

/// A row of blank cells in the given colours.
pub open spec fn blank_row(color_code: ColorCode) -> Seq<ScreenChar> {
    Seq::new(BUFFER_WIDTH as nat, |col: int| ScreenChar::spec_blank(color_code))
}

/// The state after one row is cleared: that row is blank in the writer's
/// colours, and nothing else changes.
pub open spec fn clear_row(v: WriterView, row: int) -> WriterView {
    WriterView { rows: v.rows.update(row, blank_row(v.color_code)), ..v }
}

/// The state after a scroll: every row moves up by one, the top row is lost,
/// the bottom row is blank, and the column is back at the left edge.
pub open spec fn new_line(v: WriterView) -> WriterView {
    WriterView {
        column: 0,
        rows: v.rows.subrange(1, BUFFER_HEIGHT as int).push(blank_row(v.color_code)),
        ..v
    }
}

/// The state after a character is put at the column on the bottom row.
pub open spec fn place(v: WriterView, byte: u8) -> WriterView {
    WriterView {
        column: v.column + 1,
        rows: v.rows.update(
            BUFFER_HEIGHT - 1,
            v.bottom().update(
                v.column as int,
                ScreenChar { ascii_character: byte, color_code: v.color_code },
            ),
        ),
        ..v
    }
}

/// Whether writing the byte scrolls the grid first: a line feed always does,
/// any other byte does when the bottom row is full.
pub open spec fn scrolls(v: WriterView, byte: u8) -> bool {
    byte == NEWLINE || v.column >= BUFFER_WIDTH
}

/// The state after one byte is written: the grid scrolls if the byte calls
/// for it, and any byte but the line feed is then put on the bottom row.
pub open spec fn write_byte(v: WriterView, byte: u8) -> WriterView {
    let ready = if scrolls(v, byte) {
        new_line(v)
    } else {
        v
    };
    if byte == NEWLINE {
        ready
    } else {
        place(ready, byte)
    }
}

/// Whether a byte is written as it is: printable ASCII or the line feed.
pub open spec fn is_printable(byte: u8) -> bool {
    0x20 <= byte <= 0x7e || byte == NEWLINE
}

/// The byte that is written for a byte of a string: the byte itself where it
/// is printable, the placeholder otherwise.
pub open spec fn glyph(byte: u8) -> u8 {
    if is_printable(byte) {
        byte
    } else {
        PLACEHOLDER
    }
}

/// The state after the bytes of a string are written, first to last.
pub open spec fn write_string(v: WriterView, bytes: Seq<u8>) -> WriterView
    decreases bytes.len(),
{
    if bytes.len() == 0 {
        v
    } else {
        write_byte(write_string(v, bytes.drop_last()), glyph(bytes.last()))
    }
}

/// How many times the grid scrolls while the bytes of a string are written.
pub open spec fn scroll_count(v: WriterView, bytes: Seq<u8>) -> nat
    decreases bytes.len(),
{
    if bytes.len() == 0 {
        0
    } else {
        let before = write_string(v, bytes.drop_last());
        let here: nat = if scrolls(before, glyph(bytes.last())) {
            1
        } else {
            0
        };
        scroll_count(v, bytes.drop_last()) + here
    }
}

} // verus!
