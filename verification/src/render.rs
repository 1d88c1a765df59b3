use vstd::prelude::*;

use crate::editor::Editor;
use crate::position::Position;
use crate::row::{render_spec, Row};

verus! {

/// Width, in columns, of the "paper" band: the fixed-width region
/// starting at document column 0 that is drawn with a distinct
/// background, like a page lying on the desk.
pub const PAPER_WIDTH: usize = 80;

/// One line of a composed frame.
pub enum ScreenLine {
    /// A document row that overlaps the paper band: `paper` is the part
    /// to print on the paper background (content padded with spaces out
    /// to the band's edge), `rest` the part past the band, printed on
    /// the default background.
    Banded { paper: Vec<char>, rest: Vec<char> },
    /// A line printed entirely on the default background: a document
    /// row once the viewport has scrolled past the paper band, the
    /// welcome banner, or the `~` placeholder of a line past the end of
    /// the document.
    Plain(Vec<char>),
}

/// The two prints a screen line consists of: what goes on the paper
/// background and what goes on the default background. A `Plain` line
/// has no paper part; a `Banded` line's paper part is never empty.
pub open spec fn line_parts(line: ScreenLine) -> (Seq<char>, Seq<char>) {
    match line {
        ScreenLine::Banded { paper, rest } => (paper@, rest@),
        ScreenLine::Plain(text) => (Seq::empty(), text@),
    }
}

/// `n` copies of one character.
pub open spec fn repeat_spec(c: char, n: int) -> Seq<char> {
    Seq::new(if n >= 0 {
        n as nat
    } else {
        0
    }, |i: int| c)
}

/// The paper part of a row drawn with horizontal offset `start` inside
/// the band: the row's characters from `start` to the band's edge,
/// padded with spaces so that the band is always `PAPER_WIDTH - start`
/// columns wide on screen.
pub open spec fn paper_part_spec(row: Seq<char>, start: int) -> Seq<char> {
    let pad = if start > row.len() {
        PAPER_WIDTH - start
    } else if row.len() < PAPER_WIDTH {
        PAPER_WIDTH - row.len()
    } else {
        0
    };
    render_spec(row, start, PAPER_WIDTH as int) + repeat_spec(' ', pad)
}

/// How one document row appears on screen, as its two parts, given the
/// horizontal scroll offset and the terminal width: while the viewport
/// still overlaps the paper band the row is split at the band's edge;
/// past the band the whole visible slice is plain.
pub open spec fn row_line_spec(row: Seq<char>, offset_x: int, width: int) -> (Seq<char>, Seq<char>) {
    if offset_x < PAPER_WIDTH {
        (paper_part_spec(row, offset_x), render_spec(row, PAPER_WIDTH as int, offset_x + width))
    } else {
        (Seq::empty(), render_spec(row, offset_x, offset_x + width))
    }
}

/// The welcome banner for an empty document: a `~`, then spaces to
/// center the message, then the message, the whole truncated to the
/// terminal width.
pub open spec fn welcome_line_spec(width: int, message: Seq<char>) -> Seq<char> {
    let padding = (if width > message.len() {
        width - message.len()
    } else {
        0
    }) / 2;
    let spacer = repeat_spec(' ', if padding > 0 {
        padding - 1
    } else {
        0
    });
    let full = seq!['~'] + spacer + message;
    if full.len() <= width {
        full
    } else {
        full.take(width)
    }
}

/// How screen line `i` of a frame appears, as its two parts: the
/// document row at `offset_y + i` where there is one; on an empty
/// document, the welcome banner at the middle screen row; a bare `~`
/// on every other line past the end of the document.
pub open spec fn screen_line_spec(
    doc: Seq<Seq<char>>,
    offset_x: int,
    offset_y: int,
    width: int,
    height: int,
    banner: Seq<char>,
    i: int,
) -> (Seq<char>, Seq<char>) {
    if offset_y + i < doc.len() {
        row_line_spec(doc[offset_y + i], offset_x, width)
    } else if doc.len() == 0 && i == height / 2 {
        (Seq::empty(), welcome_line_spec(width, banner))
    } else {
        (Seq::empty(), seq!['~'])
    }
}

/// A full composed frame, ready to print.
pub enum Frame {
    /// The editor is quitting: the screen is to be cleared and a
    /// farewell printed instead of a frame.
    Exit,
    /// One frame: the screen lines top to bottom, the status bar below
    /// them, and where to put the terminal cursor, in screen-relative
    /// coordinates.
    Draw { lines: Vec<ScreenLine>, status: Vec<char>, cursor: Position },
}

/// `n` copies of `c` as a vector.
fn repeat_char(c: char, n: usize) -> (out: Vec<char>)
    ensures
        out@ == repeat_spec(c, n as int),
{
    let mut out: Vec<char> = Vec::new();
    let mut i: usize = 0;
    while i < n
        invariant
            i <= n,
            out@ == repeat_spec(c, i as int),
        decreases n - i,
    {
        out.push(c);
        proof {
            assert(out@ =~= repeat_spec(c, i + 1));
        }
        i = i + 1;
    }
    out
}

/// The welcome banner line for the given terminal width and message.
pub fn welcome_line(width: usize, message: &Vec<char>) -> (out: Vec<char>)
    ensures
        out@ == welcome_line_spec(width as int, message@),
{
    let len = message.len();
    let padding = (if width > len {
        width - len
    } else {
        0
    }) / 2;
    let spacer_len = if padding > 0 {
        padding - 1
    } else {
        0
    };
    let mut out: Vec<char> = Vec::new();
    out.push('~');
    let mut i: usize = 0;
    while i < spacer_len
        invariant
            i <= spacer_len,
            out@ == seq!['~'] + repeat_spec(' ', i as int),
        decreases spacer_len - i,
    {
        out.push(' ');
        proof {
            assert(out@ =~= seq!['~'] + repeat_spec(' ', i + 1));
        }
        i = i + 1;
    }
    let mut j: usize = 0;
    while j < message.len()
        invariant
            j <= message@.len(),
            len == message@.len(),
            out@ == seq!['~'] + repeat_spec(' ', spacer_len as int) + message@.take(j as int),
        decreases message@.len() - j,
    {
        out.push(message[j]);
        proof {
            assert(out@ =~= seq!['~'] + repeat_spec(' ', spacer_len as int) + message@.take(
                j + 1,
            ));
        }
        j = j + 1;
    }
    proof {
        assert(message@.take(message@.len() as int) =~= message@);
    }
    out.truncate(width);
    proof {
        assert(out@ =~= welcome_line_spec(width as int, message@));
    }
    out
}

/// The status bar: a full-width blank bar, printed inverse-colored,
/// reserved for future status text.
pub fn status_bar_line(width: usize) -> (out: Vec<char>)
    ensures
        out@ == repeat_spec(' ', width as int),
{
    repeat_char(' ', width)
}

impl Editor {
    /// The visible slice of one document row, split into its paper and
    /// plain parts according to the horizontal scroll offset.
    pub fn draw_row(&self, row: &Row, width: usize) -> (line: ScreenLine)
        requires
            self.offset.x + width <= usize::MAX,
        ensures
            line_parts(line) == row_line_spec(row@, self.offset.x as int, width as int),
            line is Banded <==> self.offset.x < PAPER_WIDTH,
    {
        let start = self.offset.x;
        let end = start + width;
        let len = row.len();
        if start < PAPER_WIDTH {
            let mut paper = row.render(start, PAPER_WIDTH);
            let pad = if start > len {
                PAPER_WIDTH - start
            } else if len < PAPER_WIDTH {
                PAPER_WIDTH - len
            } else {
                0
            };
            let mut spaces = repeat_char(' ', pad);
            paper.append(&mut spaces);
            let rest = row.render(PAPER_WIDTH, end);
            proof {
                assert(paper@ =~= paper_part_spec(row@, start as int));
            }
            ScreenLine::Banded { paper, rest }
        } else {
            ScreenLine::Plain(row.render(start, end))
        }
    }

    /// Every screen line of one frame, top to bottom: the visible
    /// document rows, or the welcome banner and `~` placeholders where
    /// the document ends or is empty.
    pub fn draw_rows(&self, width: usize, height: usize, banner: &Vec<char>) -> (lines: Vec<
        ScreenLine,
    >)
        requires
            self.offset.x + width <= usize::MAX,
            self.offset.y + height <= usize::MAX,
        ensures
            lines@.len() == height,
            forall|i: int|
                0 <= i < height ==> line_parts(#[trigger] lines@[i]) == screen_line_spec(
                    self.document@,
                    self.offset.x as int,
                    self.offset.y as int,
                    width as int,
                    height as int,
                    banner@,
                    i,
                ),
            forall|i: int|
                0 <= i < height ==> ((#[trigger] lines@[i]) is Banded <==> (self.offset.y + i
                    < self.document@.len() && self.offset.x < PAPER_WIDTH)),
    {
        let mut lines: Vec<ScreenLine> = Vec::new();
        let mut r: usize = 0;
        while r < height
            invariant
                r <= height,
                self.offset.x + width <= usize::MAX,
                self.offset.y + height <= usize::MAX,
                lines@.len() == r,
                forall|i: int|
                    0 <= i < r ==> line_parts(#[trigger] lines@[i]) == screen_line_spec(
                        self.document@,
                        self.offset.x as int,
                        self.offset.y as int,
                        width as int,
                        height as int,
                        banner@,
                        i,
                    ),
                forall|i: int|
                    0 <= i < r ==> ((#[trigger] lines@[i]) is Banded <==> (self.offset.y + i
                        < self.document@.len() && self.offset.x < PAPER_WIDTH)),
            decreases height - r,
        {
            let line = match self.document.row(self.offset.y + r) {
                Some(row) => self.draw_row(row, width),
                None => {
                    if self.document.is_empty() && r == height / 2 {
                        ScreenLine::Plain(welcome_line(width, banner))
                    } else {
                        let mut tilde: Vec<char> = Vec::new();
                        tilde.push('~');
                        proof {
                            assert(tilde@ =~= seq!['~']);
                        }
                        ScreenLine::Plain(tilde)
                    }
                },
            };
            lines.push(line);
            r = r + 1;
        }
        lines
    }

    /// One full frame for the current state: `Exit` once the quit flag
    /// is up; otherwise the screen lines, the status bar, and the
    /// cursor's screen-relative coordinates.
    pub fn compose_frame(&self, width: usize, height: usize, banner: &Vec<char>) -> (frame: Frame)
        requires
            self.offset.x + width <= usize::MAX,
            self.offset.y + height <= usize::MAX,
        ensures
            self.should_quit ==> frame is Exit,
            !self.should_quit ==> (frame matches Frame::Draw { lines, status, cursor }
                && lines@.len() == height && (forall|i: int|
                0 <= i < height ==> line_parts(#[trigger] lines@[i]) == screen_line_spec(
                    self.document@,
                    self.offset.x as int,
                    self.offset.y as int,
                    width as int,
                    height as int,
                    banner@,
                    i,
                )) && (forall|i: int|
                0 <= i < height ==> ((#[trigger] lines@[i]) is Banded <==> (self.offset.y + i
                    < self.document@.len() && self.offset.x < PAPER_WIDTH))) && status@
                == repeat_spec(' ', width as int) && cursor.x as int == (
            if self.cursor_position.x >= self.offset.x {
                self.cursor_position.x - self.offset.x
            } else {
                0
            }) && cursor.y as int == (if self.cursor_position.y >= self.offset.y {
                self.cursor_position.y - self.offset.y
            } else {
                0
            })),
    {
        if self.should_quit {
            Frame::Exit
        } else {
            let lines = self.draw_rows(width, height, banner);
            let status = status_bar_line(width);
            let cursor = Position {
                x: self.cursor_position.x.saturating_sub(self.offset.x),
                y: self.cursor_position.y.saturating_sub(self.offset.y),
            };
            Frame::Draw { lines, status, cursor }
        }
    }
}

} // verus!
