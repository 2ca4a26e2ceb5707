//! What holds of the writer on every input, proved of the state model that
//! the writer's contracts are stated in.

use vstd::prelude::*;
use crate::buffer::BUFFER_HEIGHT;
use crate::buffer::BUFFER_WIDTH;
use crate::cell::ScreenChar;
use crate::cell::NEWLINE;
use crate::cell::PLACEHOLDER;
use crate::model::blank_row;
use crate::model::clear_row;
use crate::model::glyph;
use crate::model::is_printable;
use crate::model::new_line;
use crate::model::place;
use crate::model::scroll_count;
use crate::model::write_byte;
use crate::model::write_string;
use crate::model::WriterView;

verus! {

/// Whether every byte is printable ASCII, the line feed not among them.
pub open spec fn all_visible(bytes: Seq<u8>) -> bool {
    forall|i: int| 0 <= i < bytes.len() ==> 0x20 <= #[trigger] bytes[i] <= 0x7e
}

/// A row after a run of characters was written into it from a column on.
pub open spec fn row_with_run(
    row: Seq<ScreenChar>,
    column: int,
    bytes: Seq<u8>,
    v: WriterView,
) -> Seq<ScreenChar> {
    Seq::new(
        row.len(),
        |col: int|
            if column <= col < column + bytes.len() {
                ScreenChar { ascii_character: bytes[col - column], color_code: v.color_code }
            } else {
                row[col]
            },
    )
}

/// Writing a byte keeps the grid's shape and the column within reach of it,
/// and never changes the attribute.
pub proof fn lemma_write_byte_wf(v: WriterView, byte: u8)
    requires
        v.wf(),
    ensures
        write_byte(v, byte).wf(),
        write_byte(v, byte).color_code == v.color_code,
{
    let scrolled = new_line(v);
    assert forall|row: int| 0 <= row < BUFFER_HEIGHT implies (#[trigger] scrolled.rows[row]).len()
        == BUFFER_WIDTH by {
        if row < BUFFER_HEIGHT - 1 {
            assert(scrolled.rows[row] == v.rows[row + 1]);
        }
    }
}

/// Writing a string keeps the grid's shape and the column within reach of
/// it, and never changes the attribute.
pub proof fn lemma_write_string_wf(v: WriterView, bytes: Seq<u8>)
    requires
        v.wf(),
    ensures
        write_string(v, bytes).wf(),
        write_string(v, bytes).color_code == v.color_code,
    decreases bytes.len(),
{
    if bytes.len() > 0 {
        lemma_write_string_wf(v, bytes.drop_last());
        lemma_write_byte_wf(write_string(v, bytes.drop_last()), glyph(bytes.last()));
    }
}

/// Writes take effect in the order in which they are issued: writing one
/// string and then another is writing the two joined, and scrolls as often.
pub proof fn lemma_write_string_concat(v: WriterView, first: Seq<u8>, second: Seq<u8>)
    ensures
        write_string(v, first + second) == write_string(write_string(v, first), second),
        scroll_count(v, first + second) == scroll_count(v, first) + scroll_count(
            write_string(v, first),
            second,
        ),
    decreases second.len(),
{
    if second.len() == 0 {
        assert(first + second =~= first);
    } else {
        assert((first + second).drop_last() =~= first + second.drop_last());
        lemma_write_string_concat(v, first, second.drop_last());
    }
}

/// Writing a string of one byte is writing the glyph of that byte.
pub proof fn lemma_write_string_single(v: WriterView, byte: u8)
    ensures
        write_string(v, seq![byte]) == write_byte(v, glyph(byte)),
{
    let bytes = seq![byte];
    assert(bytes.drop_last() =~= Seq::<u8>::empty());
    assert(write_string(v, bytes.drop_last()) == v);
}

/// A run of printable characters that fits in what is left of the bottom
/// row goes into that row from the column on, left to right, and moves the
/// column past it. The grid does not scroll and no other cell changes.
pub proof fn lemma_run_fits(v: WriterView, bytes: Seq<u8>)
    requires
        v.wf(),
        all_visible(bytes),
        v.column + bytes.len() <= BUFFER_WIDTH,
    ensures
        write_string(v, bytes).column == v.column + bytes.len(),
        write_string(v, bytes).color_code == v.color_code,
        write_string(v, bytes).rows == v.rows.update(
            BUFFER_HEIGHT - 1,
            row_with_run(v.bottom(), v.column as int, bytes, v),
        ),
        scroll_count(v, bytes) == 0,
    decreases bytes.len(),
{
    let run = row_with_run(v.bottom(), v.column as int, bytes, v);
    if bytes.len() == 0 {
        assert(run =~= v.bottom());
        assert(v.rows =~= v.rows.update(BUFFER_HEIGHT - 1, run));
    } else {
        lemma_run_fits(v, bytes.drop_last());
        assert(glyph(bytes.last()) == bytes.last());
        assert(write_string(v, bytes).bottom() =~= run);
        assert(write_string(v, bytes).rows =~= v.rows.update(BUFFER_HEIGHT - 1, run));
    }
}

/// Text of printable characters no longer than a row, written to a writer
/// at the left edge of a blank bottom row, stands in that row from the left
/// edge on, followed by blanks; the column is the length of the text, and
/// the grid has not scrolled.
pub proof fn lemma_short_text_on_blank_row(v: WriterView, bytes: Seq<u8>)
    requires
        v.wf(),
        v.column == 0,
        v.bottom() == blank_row(v.color_code),
        all_visible(bytes),
        bytes.len() <= BUFFER_WIDTH,
    ensures
        write_string(v, bytes).column == bytes.len(),
        write_string(v, bytes).bottom().len() == BUFFER_WIDTH,
        forall|col: int|
            0 <= col < bytes.len() ==> #[trigger] write_string(v, bytes).bottom()[col]
                == (ScreenChar { ascii_character: bytes[col], color_code: v.color_code }),
        forall|col: int|
            bytes.len() <= col < BUFFER_WIDTH ==> #[trigger] write_string(v, bytes).bottom()[col]
                == ScreenChar::spec_blank(v.color_code),
        forall|row: int|
            0 <= row < BUFFER_HEIGHT - 1 ==> #[trigger] write_string(v, bytes).rows[row]
                == v.rows[row],
        scroll_count(v, bytes) == 0,
{
    lemma_run_fits(v, bytes);
}

/// A byte of a string that is neither printable ASCII nor the line feed is
/// written as the placeholder: the cell that it goes to, at the column or at
/// the left edge after a wrap, holds the placeholder code.
pub proof fn lemma_unprintable_becomes_placeholder(v: WriterView, bytes: Seq<u8>, byte: u8)
    requires
        v.wf(),
        !is_printable(byte),
    ensures
        write_string(v, bytes.push(byte)) == write_byte(write_string(v, bytes), PLACEHOLDER),
        ({
            let before = write_string(v, bytes);
            let after = write_string(v, bytes.push(byte));
            let target: int = if before.column >= BUFFER_WIDTH {
                0
            } else {
                before.column as int
            };
            &&& after.column == target + 1
            &&& after.bottom()[target] == (ScreenChar {
                ascii_character: PLACEHOLDER,
                color_code: v.color_code,
            })
        }),
{
    let longer = bytes.push(byte);
    assert(longer.drop_last() =~= bytes);
    lemma_write_string_wf(v, bytes);
    lemma_write_byte_wf(write_string(v, bytes), PLACEHOLDER);
}

/// A line feed always puts the column back at the left edge and moves every
/// row up by one: the top row is lost and the bottom row is blank.
pub proof fn lemma_line_feed_scrolls(v: WriterView)
    requires
        v.wf(),
    ensures
        write_byte(v, NEWLINE) == new_line(v),
        write_string(v, seq![NEWLINE]) == new_line(v),
        scroll_count(v, seq![NEWLINE]) == 1,
        new_line(v).column == 0,
        new_line(v).rows.len() == BUFFER_HEIGHT,
        forall|row: int|
            0 <= row < BUFFER_HEIGHT - 1 ==> #[trigger] new_line(v).rows[row] == v.rows[row + 1],
        new_line(v).bottom() == blank_row(v.color_code),
{
    lemma_write_string_single(v, NEWLINE);
    let bytes = seq![NEWLINE];
    assert(bytes.drop_last() =~= Seq::<u8>::empty());
    assert(write_string(v, bytes.drop_last()) == v);
    assert(scroll_count(v, bytes.drop_last()) == 0);
}

/// A full row of printable characters written from the left edge does not
/// scroll the grid; one more printable character scrolls it exactly once and
/// then stands at the left edge of the bottom row, with the full row above it.
pub proof fn lemma_wrap_scrolls_once(v: WriterView, bytes: Seq<u8>, extra: u8)
    requires
        v.wf(),
        v.column == 0,
        all_visible(bytes),
        bytes.len() == BUFFER_WIDTH,
        0x20 <= extra <= 0x7e,
    ensures
        scroll_count(v, bytes) == 0,
        scroll_count(v, bytes.push(extra)) == 1,
        write_string(v, bytes.push(extra)).column == 1,
        write_string(v, bytes.push(extra)).bottom() == blank_row(v.color_code).update(
            0,
            ScreenChar { ascii_character: extra, color_code: v.color_code },
        ),
        write_string(v, bytes.push(extra)).rows[BUFFER_HEIGHT - 2] == Seq::new(
            BUFFER_WIDTH as nat,
            |col: int| ScreenChar { ascii_character: bytes[col], color_code: v.color_code },
        ),
        forall|row: int|
            0 <= row < BUFFER_HEIGHT - 2 ==> #[trigger] write_string(v, bytes.push(extra)).rows[row]
                == v.rows[row + 1],
{
    let full = write_string(v, bytes);
    let scrolled = new_line(full);
    let after = write_string(v, bytes.push(extra));
    lemma_run_fits(v, bytes);
    assert(bytes.push(extra).drop_last() =~= bytes);
    assert(after == place(scrolled, extra));
    assert(after.bottom() =~= blank_row(v.color_code).update(
        0,
        ScreenChar { ascii_character: extra, color_code: v.color_code },
    ));
    assert(full.bottom() =~= Seq::new(
        BUFFER_WIDTH as nat,
        |col: int| ScreenChar { ascii_character: bytes[col], color_code: v.color_code },
    ));
    assert(after.rows[BUFFER_HEIGHT - 2] == full.bottom());
    assert forall|row: int| 0 <= row < BUFFER_HEIGHT - 2 implies #[trigger] after.rows[row]
        == v.rows[row + 1] by {
        assert(after.rows[row] == scrolled.rows[row]);
        assert(scrolled.rows[row] == full.rows[row + 1]);
    }
}

/// A cleared row is a full row of blanks in the writer's colours, the other
/// rows are as they were, and clearing the row again changes nothing.
pub proof fn lemma_clear_row_blanks(v: WriterView, row: int)
    requires
        v.wf(),
        0 <= row < BUFFER_HEIGHT,
    ensures
        clear_row(v, row).wf(),
        clear_row(v, row).rows[row].len() == BUFFER_WIDTH,
        forall|col: int|
            0 <= col < BUFFER_WIDTH ==> #[trigger] clear_row(v, row).rows[row][col]
                == ScreenChar::spec_blank(v.color_code),
        forall|other: int|
            0 <= other < BUFFER_HEIGHT && other != row ==> #[trigger] clear_row(v, row).rows[other]
                == v.rows[other],
        clear_row(clear_row(v, row), row) == clear_row(v, row),
        clear_row(v, row).column == v.column,
{
    assert(clear_row(clear_row(v, row), row).rows =~= clear_row(v, row).rows);
}

} // verus!
