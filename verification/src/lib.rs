//! Core of a terminal text editor: a cursor moving over a multi-row
//! document, a viewport that scrolls to keep the cursor visible, and a
//! renderer that turns the visible slice of the document into printable
//! screen lines.
//!
//! Everything here is pure: key events come in as values, frames go out
//! as values. The surrounding program owns the terminal, feeds key
//! events to [`Editor::process_keypress`] and prints the frames that
//! [`Editor::compose_frame`] returns.

mod document;
mod editor;
mod key;
mod laws;
mod position;
mod render;
mod row;

pub use document::{last_row_index, row_len_at, Document};
pub use editor::{
    cursor_in_bounds, move_cursor_spec, run_spec, sat_add, scroll_axis_spec, scroll_offset_spec,
    step_spec, Editor, EditorModel,
};
pub use key::{is_navigation_key, Key};
pub use laws::{
    lemma_end_goes_to_line_end, lemma_home_goes_to_line_start, lemma_left_undoes_right,
    lemma_navigation_preserves_bounds, lemma_right_undoes_left, lemma_scroll_idempotent,
    lemma_scroll_keeps_offset_when_visible,
};
pub use position::Position;
pub use render::{
    line_parts, paper_part_spec, repeat_spec, row_line_spec, screen_line_spec, status_bar_line,
    welcome_line, welcome_line_spec, Frame, ScreenLine, PAPER_WIDTH,
};
pub use row::{render_spec, Row};
