use vstd::prelude::*;

use crate::document::{last_row_index, row_len_at};
use crate::editor::{cursor_in_bounds, move_cursor_spec, scroll_offset_spec};
use crate::key::Key;

verus! {

/// Every navigation key, applied to an in-bounds cursor of a document
/// that fits in memory, lands on an in-bounds cursor: the row stays at
/// or before the last row, and the column stays at or before the end
/// of the landing row.
pub proof fn lemma_navigation_preserves_bounds(
    doc: Seq<Seq<char>>,
    x: int,
    y: int,
    key: Key,
    terminal_height: int,
)
    requires
        cursor_in_bounds(doc, x, y),
        doc.len() <= usize::MAX,
        0 <= terminal_height <= usize::MAX,
    ensures
        cursor_in_bounds(
            doc,
            move_cursor_spec(doc, x, y, key, terminal_height).0,
            move_cursor_spec(doc, x, y, key, terminal_height).1,
        ),
{
}

/// Right at the end of a row that is not the last wraps to the start
/// of the next row, and Left undoes it exactly: the cursor returns to
/// the end of the original row.
pub proof fn lemma_left_undoes_right(
    doc: Seq<Seq<char>>,
    x: int,
    y: int,
    terminal_height: int,
)
    requires
        0 <= y < last_row_index(doc),
        x == row_len_at(doc, y),
    ensures
        move_cursor_spec(doc, x, y, Key::Right, terminal_height) == ((0int, y + 1)),
        move_cursor_spec(doc, 0, y + 1, Key::Left, terminal_height) == ((x, y)),
{
}

/// Left at the start of a row that is not the first moves to the end
/// of the previous row, and Right undoes it exactly: the cursor
/// returns to the start of the original row.
pub proof fn lemma_right_undoes_left(
    doc: Seq<Seq<char>>,
    y: int,
    terminal_height: int,
)
    requires
        0 < y <= last_row_index(doc),
    ensures
        move_cursor_spec(doc, 0, y, Key::Left, terminal_height) == ((row_len_at(doc, y - 1), y
            - 1)),
        move_cursor_spec(
            doc,
            row_len_at(doc, y - 1),
            y - 1,
            Key::Right,
            terminal_height,
        ) == ((0int, y)),
{
}

/// Scrolling is idempotent: with the cursor and the terminal size
/// unchanged, updating the viewport offset twice in a row yields the
/// same offset as updating it once. (A terminal dimension of 0 is
/// excluded: against a zero-width or zero-height viewport the offset
/// chases the cursor forever and never settles.)
pub proof fn lemma_scroll_idempotent(
    offset: (int, int),
    cursor: (int, int),
    width: int,
    height: int,
)
    requires
        0 <= offset.0 <= usize::MAX,
        0 <= offset.1 <= usize::MAX,
        0 <= cursor.0 <= usize::MAX,
        0 <= cursor.1 <= usize::MAX,
        1 <= width,
        1 <= height,
    ensures
        scroll_offset_spec(
            scroll_offset_spec(offset, cursor, width, height),
            cursor,
            width,
            height,
        ) == scroll_offset_spec(offset, cursor, width, height),
{
}

/// A cursor already inside the viewport leaves the offset untouched:
/// whenever the cursor row lies within [offset row, offset row +
/// height) and the cursor column within [offset column, offset column
/// + width), the scroll update changes nothing.
pub proof fn lemma_scroll_keeps_offset_when_visible(
    offset: (int, int),
    cursor: (int, int),
    width: int,
    height: int,
)
    requires
        0 <= offset.0,
        0 <= offset.1,
        offset.0 <= cursor.0 < offset.0 + width,
        offset.1 <= cursor.1 < offset.1 + height,
        offset.0 + width <= usize::MAX,
        offset.1 + height <= usize::MAX,
    ensures
        scroll_offset_spec(offset, cursor, width, height) == offset,
{
}

/// Home always puts the cursor at column 0 of its row.
pub proof fn lemma_home_goes_to_line_start(
    doc: Seq<Seq<char>>,
    x: int,
    y: int,
    terminal_height: int,
)
    ensures
        move_cursor_spec(doc, x, y, Key::Home, terminal_height) == ((0int, y)),
{
}

/// End always puts the cursor at the end of its row: the column
/// becomes exactly the current row's length.
pub proof fn lemma_end_goes_to_line_end(
    doc: Seq<Seq<char>>,
    x: int,
    y: int,
    terminal_height: int,
)
    ensures
        move_cursor_spec(doc, x, y, Key::End, terminal_height) == ((row_len_at(doc, y), y)),
{
}

} // verus!
