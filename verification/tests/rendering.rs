use cutted::{
    status_bar_line, welcome_line, Document, Editor, Frame, Position, Row, ScreenLine, PAPER_WIDTH,
};

fn chars(text: &str) -> Vec<char> {
    text.chars().collect()
}

fn text(v: &[char]) -> String {
    v.iter().collect()
}

fn editor_with_rows(lines: &[&str]) -> Editor {
    let mut rows: Vec<Row> = Vec::new();
    for line in lines {
        rows.push(Row::new(line.chars().collect()));
    }
    Editor::with_document(Document::from_rows(rows))
}

/// Rendering a sub-range of a row clips it to the row's bounds and
/// yields nothing for a range entirely past the end.
#[test]
fn render_clips_to_row_bounds() {
    let row = Row::new(chars("hello"));
    assert_eq!(text(&row.render(0, 5)), "hello");
    assert_eq!(text(&row.render(1, 3)), "el");
    assert_eq!(text(&row.render(3, 100)), "lo");
    assert_eq!(text(&row.render(10, 20)), "");
    assert_eq!(text(&row.render(4, 2)), "");
    assert_eq!(row.len(), 5);
}

/// A row drawn while the viewport overlaps the paper band is split in
/// two: the content up to the band's edge, space-padded out to the
/// band, and the content past the band on the default background.
#[test]
fn draw_row_pads_paper_band() {
    let e = editor_with_rows(&["hello"]);
    let row = Row::new(chars("hello"));
    match e.draw_row(&row, 10) {
        ScreenLine::Banded { paper, rest } => {
            assert_eq!(paper.len(), PAPER_WIDTH);
            assert_eq!(text(&paper), format!("hello{}", " ".repeat(75)));
            assert_eq!(text(&rest), "");
        }
        ScreenLine::Plain(_) => panic!("expected a banded line"),
    }
}

/// When the viewport starts inside the band but past the row's end,
/// the paper part is all padding, out to the band's edge.
#[test]
fn draw_row_pads_past_short_row() {
    let mut e = editor_with_rows(&["ab"]);
    e.offset = Position { x: 10, y: 0 };
    let row = Row::new(chars("ab"));
    match e.draw_row(&row, 20) {
        ScreenLine::Banded { paper, rest } => {
            assert_eq!(text(&paper), " ".repeat(70));
            assert_eq!(text(&rest), "");
        }
        ScreenLine::Plain(_) => panic!("expected a banded line"),
    }
}

/// A long row drawn near the band's edge splits exactly there, and the
/// part past the band is clipped to the terminal width.
#[test]
fn draw_row_splits_at_band_edge() {
    let long_line: String = ('a'..='z').cycle().take(100).collect();
    let mut e = editor_with_rows(&[&long_line]);
    e.offset = Position { x: 78, y: 0 };
    let row = Row::new(chars(&long_line));
    match e.draw_row(&row, 10) {
        ScreenLine::Banded { paper, rest } => {
            assert_eq!(text(&paper), long_line[78..80].to_string());
            assert_eq!(text(&rest), long_line[80..88].to_string());
        }
        ScreenLine::Plain(_) => panic!("expected a banded line"),
    }
}

/// Once the viewport has scrolled wholly past the paper band, the row
/// renders as one plain slice.
#[test]
fn draw_row_past_band_is_plain() {
    let long_line: String = ('a'..='z').cycle().take(100).collect();
    let mut e = editor_with_rows(&[&long_line]);
    e.offset = Position { x: 85, y: 0 };
    let row = Row::new(chars(&long_line));
    match e.draw_row(&row, 10) {
        ScreenLine::Plain(line) => {
            assert_eq!(text(&line), long_line[85..95].to_string());
        }
        ScreenLine::Banded { .. } => panic!("expected a plain line"),
    }
}

/// On an empty document with terminal height 24, the welcome banner
/// appears exactly at screen row 12, centered, prefixed with `~`, and
/// every other line is a bare `~`.
#[test]
fn welcome_banner_sits_mid_screen() {
    let e = Editor::default();
    let banner = chars("cutted v.0.1.0");
    let lines = e.draw_rows(80, 24, &banner);
    assert_eq!(lines.len(), 24);
    for (i, line) in lines.iter().enumerate() {
        match line {
            ScreenLine::Plain(content) => {
                if i == 12 {
                    assert_eq!(text(content), format!("~{}cutted v.0.1.0", " ".repeat(32)));
                } else {
                    assert_eq!(text(content), "~");
                }
            }
            ScreenLine::Banded { .. } => panic!("expected plain lines only"),
        }
    }
}

/// The welcome banner is truncated to the terminal width when the
/// width is too small for the whole message.
#[test]
fn welcome_banner_truncates_to_width() {
    let line = welcome_line(5, &chars("cutted v.0.1.0"));
    assert_eq!(text(&line), "~cutt");
}

/// A document row visible on screen appears at its screen line, offset
/// by the scroll; lines past the end of a non-empty document show `~`
/// and no welcome banner.
#[test]
fn draw_rows_shows_visible_slice() {
    let mut e = editor_with_rows(&["first", "second", "third"]);
    e.offset = Position { x: 0, y: 1 };
    let lines = e.draw_rows(80, 24, &chars("greeting"));
    assert_eq!(lines.len(), 24);
    match &lines[0] {
        ScreenLine::Banded { paper, .. } => assert!(text(paper).starts_with("second")),
        ScreenLine::Plain(_) => panic!("expected a banded content line"),
    }
    match &lines[1] {
        ScreenLine::Banded { paper, .. } => assert!(text(paper).starts_with("third")),
        ScreenLine::Plain(_) => panic!("expected a banded content line"),
    }
    for line in &lines[2..] {
        match line {
            ScreenLine::Plain(content) => assert_eq!(text(content), "~"),
            ScreenLine::Banded { .. } => panic!("expected `~` filler"),
        }
    }
}

/// The status bar is a full-width blank bar, reserved for future
/// status text.
#[test]
fn status_bar_fills_width() {
    let bar = status_bar_line(7);
    assert_eq!(text(&bar), "       ");
    assert_eq!(bar.len(), 7);
}

/// A full frame carries the screen lines, the status bar, and the
/// cursor translated to screen-relative coordinates.
#[test]
fn frame_translates_cursor_to_screen_space() {
    let lines: Vec<String> = (0..40).map(|i| format!("row {i}")).collect();
    let refs: Vec<&str> = lines.iter().map(|s| s.as_str()).collect();
    let mut e = editor_with_rows(&refs);
    e.cursor_position = Position { x: 3, y: 30 };
    e.offset = Position { x: 1, y: 28 };
    match e.compose_frame(80, 24, &chars("greeting")) {
        Frame::Draw {
            lines,
            status,
            cursor,
        } => {
            assert_eq!(lines.len(), 24);
            assert_eq!(status.len(), 80);
            assert_eq!(cursor, Position { x: 2, y: 2 });
        }
        Frame::Exit => panic!("expected a drawn frame"),
    }
}

/// Once the quit flag is up, composing a frame yields the exit frame.
#[test]
fn quitting_frame_is_exit() {
    let mut e = Editor::default();
    e.should_quit = true;
    match e.compose_frame(80, 24, &chars("greeting")) {
        Frame::Exit => {}
        Frame::Draw { .. } => panic!("expected the exit frame"),
    }
}
