use vstd::prelude::*;

use crate::document::{last_row_index, row_len_at, Document};
use crate::key::{is_navigation_key, Key};
use crate::position::Position;

verus! {

/// Addition capped at `usize::MAX`, mirroring the saturating
/// arithmetic the executable code performs on coordinates.
pub open spec fn sat_add(a: int, b: int) -> int {
    if a + b > usize::MAX {
        usize::MAX as int
    } else {
        a + b
    }
}

/// The cursor bounds every navigation step maintains: the cursor row
/// never exceeds the last row (0 on an empty document), and the cursor
/// column never exceeds the length of the row it is on.
pub open spec fn cursor_in_bounds(doc: Seq<Seq<char>>, x: int, y: int) -> bool {
    &&& 0 <= y <= last_row_index(doc)
    &&& 0 <= x <= row_len_at(doc, y)
}

/// The mathematical state of the editor: the document's rows, the
/// cursor and scroll offset in document coordinates, and the quit flag.
#[verifier::ext_equal]
pub struct EditorModel {
    pub doc: Seq<Seq<char>>,
    pub cursor: (int, int),
    pub offset: (int, int),
    pub quit: bool,
}

/// Where one navigation key moves the cursor. The cursor row is capped
/// at the last row; the cursor column is clamped, after every move, to
/// the length of the row the cursor lands on.
pub open spec fn move_cursor_spec(
    doc: Seq<Seq<char>>,
    x: int,
    y: int,
    key: Key,
    terminal_height: int,
) -> (int, int) {
    let bottom = last_row_index(doc);
    let width = row_len_at(doc, y);
    let moved: (int, int) = match key {
        Key::Up => (x, if y > 0 { y - 1 } else { 0 }),
        Key::Down => (x, if y < bottom { y + 1 } else { y }),
        Key::Left => if x > 0 {
            (x - 1, y)
        } else if y > 0 {
            (row_len_at(doc, y - 1), y - 1)
        } else {
            (x, y)
        },
        Key::Right => if x < width {
            (x + 1, y)
        } else if y < bottom {
            (0, y + 1)
        } else {
            (x, y)
        },
        Key::PageUp => (x, if y > terminal_height { y - terminal_height } else { 0 }),
        Key::PageDown => (
            x,
            if sat_add(y, terminal_height) < bottom { y + terminal_height } else { bottom },
        ),
        Key::Home => (0, y),
        Key::End => (width, y),
        Key::Quit | Key::Other => (x, y),
    };
    let landing_width = row_len_at(doc, moved.1);
    (if moved.0 > landing_width { landing_width } else { moved.0 }, moved.1)
}

/// The scroll rule for one axis: scroll back exactly to the cursor when
/// it lies before the viewport, scroll forward exactly far enough to
/// put the cursor on the last visible line or column when it lies at or
/// past the viewport's end, and otherwise leave the offset alone.
pub open spec fn scroll_axis_spec(offset: int, cursor: int, dimension: int) -> int {
    if cursor < offset {
        cursor
    } else if cursor >= sat_add(offset, dimension) {
        sat_add(if cursor >= dimension { cursor - dimension } else { 0 }, 1)
    } else {
        offset
    }
}

/// The scroll rule applied independently per axis: columns against the
/// terminal width, rows against the terminal height.
pub open spec fn scroll_offset_spec(
    offset: (int, int),
    cursor: (int, int),
    width: int,
    height: int,
) -> (int, int) {
    (scroll_axis_spec(offset.0, cursor.0, width), scroll_axis_spec(offset.1, cursor.1, height))
}

/// One full reaction to a key event: the quit chord raises the quit
/// flag, a navigation key moves the cursor, anything else is ignored;
/// in every case the viewport then scrolls to keep the cursor visible.
pub open spec fn step_spec(m: EditorModel, key: Key, width: int, height: int) -> EditorModel {
    let moved = EditorModel {
        quit: m.quit || key is Quit,
        cursor: if is_navigation_key(key) {
            move_cursor_spec(m.doc, m.cursor.0, m.cursor.1, key, height)
        } else {
            m.cursor
        },
        ..m
    };
    EditorModel { offset: scroll_offset_spec(moved.offset, moved.cursor, width, height), ..moved }
}

/// The state after reacting to a sequence of key events in order,
/// stopping as soon as the quit flag is up.
pub open spec fn run_spec(m: EditorModel, keys: Seq<Key>, width: int, height: int) -> EditorModel
    decreases keys.len(),
{
    if m.quit || keys.len() == 0 {
        m
    } else {
        run_spec(step_spec(m, keys[0], width, height), keys.drop_first(), width, height)
    }
}

/// The editor core: a document, a cursor and a scroll offset in
/// document coordinates, and a quit flag. The terminal size is not part
/// of the state: it is read fresh by the caller and passed in on every
/// use, since it may change between frames.
pub struct Editor {
    pub should_quit: bool,
    pub cursor_position: Position,
    pub offset: Position,
    pub document: Document,
}

impl View for Editor {
    type V = EditorModel;

    open spec fn view(&self) -> EditorModel {
        EditorModel {
            doc: self.document@,
            cursor: (self.cursor_position.x as int, self.cursor_position.y as int),
            offset: (self.offset.x as int, self.offset.y as int),
            quit: self.should_quit,
        }
    }
}

impl Default for Editor {
    /// A fresh editor over the empty document, cursor and offset at the
    /// origin, not quitting.
    fn default() -> (editor: Editor)
        ensures
            editor@.doc == Seq::<Seq<char>>::empty(),
            editor@.cursor == (0int, 0int),
            editor@.offset == (0int, 0int),
            !editor@.quit,
    {
        Editor {
            should_quit: false,
            cursor_position: Position { x: 0, y: 0 },
            offset: Position { x: 0, y: 0 },
            document: Document::default(),
        }
    }
}

impl Editor {
    /// A fresh editor over the given document, cursor and offset at the
    /// origin, not quitting.
    pub fn with_document(document: Document) -> (editor: Editor)
        ensures
            editor@.doc == document@,
            editor@.cursor == (0int, 0int),
            editor@.offset == (0int, 0int),
            !editor@.quit,
    {
        Editor {
            should_quit: false,
            cursor_position: Position { x: 0, y: 0 },
            offset: Position { x: 0, y: 0 },
            document,
        }
    }

    /// Move the cursor as the given key directs, clamping it to the
    /// document's bounds; everything else in the state is untouched.
    pub fn move_cursor(&mut self, key: Key, terminal_height: usize)
        ensures
            final(self)@ == (EditorModel {
                cursor: move_cursor_spec(
                    old(self)@.doc,
                    old(self)@.cursor.0,
                    old(self)@.cursor.1,
                    key,
                    terminal_height as int,
                ),
                ..old(self)@
            }),
    {
        let mut x = self.cursor_position.x;
        let mut y = self.cursor_position.y;
        let bottom = self.document.len().saturating_sub(1);
        let width = match self.document.row(y) {
            Some(row) => row.len(),
            None => 0,
        };
        match key {
            Key::Up => {
                if y > 0 {
                    y = y - 1;
                }
            },
            Key::Down => {
                if y < bottom {
                    y = y + 1;
                }
            },
            Key::Left => {
                if x > 0 {
                    x = x - 1;
                } else if y > 0 {
                    y = y - 1;
                    x = match self.document.row(y) {
                        Some(row) => row.len(),
                        None => 0,
                    };
                }
            },
            Key::Right => {
                if x < width {
                    x = x + 1;
                } else if y < bottom {
                    y = y + 1;
                    x = 0;
                }
            },
            Key::PageUp => {
                y = if y > terminal_height {
                    y - terminal_height
                } else {
                    0
                };
            },
            Key::PageDown => {
                y = if y.saturating_add(terminal_height) < bottom {
                    y + terminal_height
                } else {
                    bottom
                };
            },
            Key::Home => {
                x = 0;
            },
            Key::End => {
                x = width;
            },
            Key::Quit | Key::Other => {},
        }
        let landing_width = match self.document.row(y) {
            Some(row) => row.len(),
            None => 0,
        };
        if x > landing_width {
            x = landing_width;
        }
        self.cursor_position = Position { x, y };
    }

    /// Scroll the viewport so the cursor stays within it, independently
    /// per axis; the cursor, document and quit flag are untouched. A
    /// cursor already visible on both axes leaves the offset unchanged.
    pub fn scroll(&mut self, width: usize, height: usize)
        ensures
            final(self)@ == (EditorModel {
                offset: scroll_offset_spec(
                    old(self)@.offset,
                    old(self)@.cursor,
                    width as int,
                    height as int,
                ),
                ..old(self)@
            }),
            (old(self)@.offset.0 <= old(self)@.cursor.0 < old(self)@.offset.0 + width
                && old(self)@.offset.1 <= old(self)@.cursor.1 < old(self)@.offset.1 + height
                && old(self)@.offset.0 + width <= usize::MAX && old(self)@.offset.1 + height
                <= usize::MAX) ==> final(self)@.offset == old(self)@.offset,
    {
        let x = self.cursor_position.x;
        let y = self.cursor_position.y;
        if y < self.offset.y {
            self.offset.y = y;
        } else if y >= self.offset.y.saturating_add(height) {
            self.offset.y = y.saturating_sub(height).saturating_add(1);
        }
        if x < self.offset.x {
            self.offset.x = x;
        } else if x >= self.offset.x.saturating_add(width) {
            self.offset.x = x.saturating_sub(width).saturating_add(1);
        }
    }

    /// React to one key event: quit on the quit chord, navigate on a
    /// navigation key, ignore anything else; then scroll the viewport.
    pub fn process_keypress(&mut self, key: Key, width: usize, height: usize)
        ensures
            final(self)@ == step_spec(old(self)@, key, width as int, height as int),
    {
        match key {
            Key::Quit => {
                self.should_quit = true;
            },
            Key::Up | Key::Down | Key::Left | Key::Right | Key::PageUp | Key::PageDown | Key::Home
            | Key::End => {
                self.move_cursor(key, height);
            },
            Key::Other => {},
        }
        self.scroll(width, height);
    }

    /// Drive the editor through a sequence of key events in order,
    /// stopping as soon as the quit flag goes up.
    pub fn run(&mut self, keys: &Vec<Key>, width: usize, height: usize)
        ensures
            final(self)@ == run_spec(old(self)@, keys@, width as int, height as int),
    {
        let mut i: usize = 0;
        proof {
            assert(keys@.skip(0) =~= keys@);
        }
        while i < keys.len() && !self.should_quit
            invariant
                i <= keys@.len(),
                run_spec(old(self)@, keys@, width as int, height as int) == run_spec(
                    self@,
                    keys@.skip(i as int),
                    width as int,
                    height as int,
                ),
            decreases keys@.len() - i,
        {
            let key = keys[i];
            proof {
                assert(keys@.skip(i as int)[0] == keys@[i as int]);
                assert(keys@.skip(i as int).drop_first() =~= keys@.skip(i + 1));
            }
            self.process_keypress(key, width, height);
            i = i + 1;
        }
        proof {
            assert(keys@.skip(keys@.len() as int) =~= Seq::<Key>::empty());
        }
    }
}

} // verus!
