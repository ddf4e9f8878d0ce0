use modal_edit::buffer::Buffer;
use modal_edit::window::Window;

fn window_with(content: &str) -> Window {
    let buf = Buffer::from_file_content(1, "scratch.txt", content);
    Window::new(buf, 80, 24)
}

#[test]
fn empty_buffer_type_hi() {
    let buf = Buffer::empty(1);
    let mut w = Window::new(buf, 80, 24);
    w.type_char('h');
    w.type_char('i');
    assert_eq!(w.buffer.line(0), "hi");
    assert_eq!(w.cursor.row, 0);
    assert_eq!(w.cursor.col, 2);
    assert!(w.buffer.edited);
    assert_eq!(w.buffer.lines, 1);
}

#[test]
fn newline_splits_line() {
    let mut w = window_with("abc\ndef");
    assert_eq!(w.buffer.lines, 2);
    w.cursor_move_to(0, 3);
    assert_eq!(w.cursor.col, 3);
    w.type_char('\n');
    assert_eq!(w.buffer.lines, 3);
    assert_eq!(w.buffer.line(0), "abc");
    assert_eq!(w.buffer.line(1), "");
    assert_eq!(w.buffer.line(2), "def");
    assert_eq!(w.cursor.row, 1);
    assert_eq!(w.cursor.col, 0);
}

#[test]
fn backspace_joins_lines_after_split() {
    let mut w = window_with("abc\ndef");
    w.cursor_move_to(0, 3);
    w.type_char('\n');
    w.backspace();
    assert_eq!(w.buffer.lines, 2);
    assert_eq!(w.buffer.line(0), "abc");
    assert_eq!(w.buffer.line(1), "def");
    assert_eq!(w.cursor.row, 0);
    assert_eq!(w.cursor.col, 3);
}

#[test]
fn type_then_backspace_restores_state() {
    let mut w = window_with("hello\nworld");
    w.cursor_move_to(1, 2);
    w.type_char('x');
    assert_eq!(w.buffer.line(1), "woxrld");
    assert_eq!(w.cursor.col, 3);
    w.backspace();
    assert_eq!(w.buffer.line(0), "hello");
    assert_eq!(w.buffer.line(1), "world");
    assert_eq!(w.cursor.row, 1);
    assert_eq!(w.cursor.col, 2);
}

#[test]
fn backspace_mid_line_removes_previous_char() {
    let mut w = window_with("abcd");
    w.cursor_move_to(0, 2);
    w.backspace();
    assert_eq!(w.buffer.line(0), "acd");
    assert_eq!(w.cursor.col, 1);
    assert!(w.buffer.edited);
}

#[test]
fn backspace_at_document_start_is_noop() {
    let mut w = window_with("abc");
    w.backspace();
    assert_eq!(w.buffer.line(0), "abc");
    assert_eq!(w.cursor.row, 0);
    assert_eq!(w.cursor.col, 0);
    assert_eq!(w.buffer.lines, 1);
    assert!(!w.buffer.edited);
}

#[test]
fn cursor_up_at_origin_is_noop() {
    let mut w = window_with("abc\ndef");
    w.cursor_up();
    assert_eq!(w.cursor.row, 0);
    assert_eq!(w.cursor.col, 0);
    assert_eq!(w.topline, 0);
}

#[test]
fn cursor_bounds_hold_under_moves() {
    let mut w = window_with("ab\nlonger line\nx");
    for _ in 0..5 {
        w.cursor_right();
    }
    assert_eq!(w.cursor.col, 2);
    w.cursor_down();
    for _ in 0..20 {
        w.cursor_right();
    }
    assert_eq!(w.cursor.col, 11);
    w.cursor_down();
    assert_eq!(w.cursor.col, 1);
    w.cursor_down();
    assert_eq!(w.cursor.row, 2);
    for _ in 0..9 {
        w.cursor_left();
    }
    assert_eq!(w.cursor.col, 0);
}

#[test]
fn line_count_tracks_terminators() {
    let mut w = window_with("");
    assert_eq!(w.buffer.lines, 1);
    w.type_char('a');
    w.type_char('\n');
    w.type_char('b');
    w.type_char('\n');
    assert_eq!(w.buffer.lines, 3);
    w.backspace();
    assert_eq!(w.buffer.lines, 2);
    assert_eq!(w.buffer.line(0), "a");
    assert_eq!(w.buffer.line(1), "b");
}

#[test]
fn vertical_moves_scroll_at_viewport_edges() {
    let buf = Buffer::from_file_content(1, "t.txt", "l0\nl1\nl2\nl3\nl4");
    let mut w = Window::new(buf, 80, 2);
    w.cursor_down();
    assert_eq!((w.topline, w.cursor.row), (0, 1));
    w.cursor_down();
    assert_eq!((w.topline, w.cursor.row), (1, 1));
    w.cursor_down();
    w.cursor_down();
    assert_eq!((w.topline, w.cursor.row), (3, 1));
    w.cursor_down();
    assert_eq!((w.topline, w.cursor.row), (3, 1));
    w.cursor_up();
    assert_eq!((w.topline, w.cursor.row), (3, 0));
    w.cursor_up();
    assert_eq!((w.topline, w.cursor.row), (2, 0));
}

#[test]
fn typing_newline_at_bottom_row_scrolls() {
    let buf = Buffer::from_file_content(1, "t.txt", "aa\nbb");
    let mut w = Window::new(buf, 80, 2);
    w.cursor_down();
    w.cursor_right();
    assert_eq!((w.topline, w.cursor.row, w.cursor.col), (0, 1, 1));
    w.type_char('\n');
    assert_eq!((w.topline, w.cursor.row, w.cursor.col), (1, 1, 0));
    assert_eq!(w.buffer.line(1), "b");
    assert_eq!(w.buffer.line(2), "b");
}

#[test]
fn visible_range_reports_window_and_filler() {
    let buf = Buffer::from_file_content(1, "t.txt", "a\nb\nc");
    let w = Window::new(buf, 40, 10);
    let (top, end, left, right, filler) = w.visible_range();
    assert_eq!(top, 0);
    assert_eq!(end, 3);
    assert_eq!(left, 0);
    assert_eq!(right, 40);
    assert_eq!(filler, 7);
}

#[test]
fn visible_range_with_more_lines_than_rows() {
    let buf = Buffer::from_file_content(1, "t.txt", "a\nb\nc\nd\ne");
    let mut w = Window::new(buf, 40, 2);
    w.cursor_down();
    w.cursor_down();
    let (top, end, _, _, filler) = w.visible_range();
    assert_eq!(top, 1);
    assert_eq!(end, 3);
    assert_eq!(filler, 0);
}

#[test]
fn set_buffer_resets_view_to_origin() {
    let mut w = window_with("one\ntwo\nthree");
    w.cursor_down();
    w.cursor_right();
    let other = Buffer::from_file_content(2, "other.txt", "zz");
    w.set_buffer(other);
    assert_eq!(w.cursor.row, 0);
    assert_eq!(w.cursor.col, 0);
    assert_eq!(w.topline, 0);
    assert_eq!(w.leftcol, 0);
    assert_eq!(w.buffer.line(0), "zz");
    assert_eq!(w.buffer.id, 2);
}

#[test]
fn backspace_on_empty_trailing_line_removes_terminator() {
    let mut w = window_with("ab\n");
    assert_eq!(w.buffer.lines, 2);
    w.cursor_down();
    assert_eq!((w.cursor.row, w.cursor.col), (1, 0));
    w.backspace();
    assert_eq!(w.buffer.lines, 1);
    assert_eq!(w.buffer.line(0), "ab");
    assert_eq!((w.cursor.row, w.cursor.col), (0, 2));
}

#[test]
fn carriage_return_is_an_ordinary_character() {
    let b = Buffer::from_file_content(1, "t.txt", "a\r\nb\rc");
    assert_eq!(b.lines, 2);
    assert_eq!(b.line(0), "a\r");
    assert_eq!(b.line(1), "b\rc");
}

#[test]
fn size_reports_dimensions() {
    let buf = Buffer::empty(1);
    let w = Window::new(buf, 120, 33);
    assert_eq!(w.size(), (120, 33));
}

#[test]
fn cursor_move_to_clamps_row_onto_document_and_viewport() {
    let mut w = window_with("ab\ncd");
    w.cursor_move_to(50, 1);
    assert_eq!((w.cursor.row, w.cursor.col), (1, 1));
    let buf = Buffer::from_file_content(1, "t.txt", "only");
    let mut w2 = Window::new(buf, 80, 3);
    w2.cursor_move_to(2, 0);
    assert_eq!(w2.cursor.row, 0);
}

#[test]
fn typing_at_column_past_line_end_clamps() {
    let mut w = window_with("ab\ncdef");
    w.cursor_move_to(0, 100);
    assert_eq!(w.cursor.col, 2);
    w.type_char('!');
    assert_eq!(w.buffer.line(0), "ab!");
    assert_eq!(w.buffer.line(1), "cdef");
}
