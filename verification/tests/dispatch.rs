use modal_edit::buffer::Buffer;
use modal_edit::key_handling::{handle_keys, Action, Key};
use modal_edit::mode::{Mode, Store};
use modal_edit::window::Window;

fn fresh() -> (Window, Store) {
    let buf = Buffer::empty(1);
    (Window::new(buf, 80, 24), Store::new())
}

fn type_command(w: &mut Window, s: &mut Store, text: &str) {
    let out = handle_keys(w, s, Key::Char(':'));
    assert!(out.redraw);
    for c in text.chars() {
        handle_keys(w, s, Key::Char(c));
    }
}

#[test]
fn write_without_path_reports_and_returns_to_normal() {
    let (mut w, mut s) = fresh();
    type_command(&mut w, &mut s, "w");
    assert!(matches!(s.mode, Mode::Command));
    let out = handle_keys(&mut w, &mut s, Key::Enter);
    assert!(matches!(out.action, Action::ReportNoPath));
    assert!(matches!(s.mode, Mode::Normal));
    assert_eq!(s.command, "");
    assert!(w.buffer.file_path.is_none());
}

#[test]
fn edit_command_asks_for_load() {
    let (mut w, mut s) = fresh();
    type_command(&mut w, &mut s, "e nonexistent.txt");
    let out = handle_keys(&mut w, &mut s, Key::Enter);
    match out.action {
        Action::Load(p) => assert_eq!(p, "nonexistent.txt"),
        other => panic!("expected a load action, got {:?}", other),
    }
    assert!(matches!(s.mode, Mode::Normal));
    assert_eq!(s.command, "");
}

#[test]
fn write_with_argument_sets_path_and_saves() {
    let (mut w, mut s) = fresh();
    type_command(&mut w, &mut s, "w   notes.txt ");
    let out = handle_keys(&mut w, &mut s, Key::Enter);
    assert!(matches!(out.action, Action::Save));
    assert_eq!(w.buffer.file_path.as_deref(), Some("notes.txt"));
    assert_eq!(w.buffer.name, "notes.txt");
    assert!(matches!(s.mode, Mode::Normal));
}

#[test]
fn write_with_path_already_set_saves() {
    let buf = Buffer::from_file_content(1, "dir/have.txt", "x");
    let mut w = Window::new(buf, 80, 24);
    let mut s = Store::new();
    type_command(&mut w, &mut s, "  w  ");
    let out = handle_keys(&mut w, &mut s, Key::Enter);
    assert!(matches!(out.action, Action::Save));
}

#[test]
fn quit_command_asks_for_exit() {
    let (mut w, mut s) = fresh();
    type_command(&mut w, &mut s, "q");
    let out = handle_keys(&mut w, &mut s, Key::Enter);
    assert!(matches!(out.action, Action::Quit));
}

#[test]
fn edit_without_argument_is_noop() {
    let (mut w, mut s) = fresh();
    type_command(&mut w, &mut s, "e");
    let out = handle_keys(&mut w, &mut s, Key::Enter);
    assert!(matches!(out.action, Action::Nothing));
    assert!(matches!(s.mode, Mode::Normal));
}

#[test]
fn unknown_command_is_reported() {
    let (mut w, mut s) = fresh();
    type_command(&mut w, &mut s, "frobnicate");
    let out = handle_keys(&mut w, &mut s, Key::Enter);
    match out.action {
        Action::ReportUnknown(u) => assert_eq!(u, "frobnicate"),
        other => panic!("expected an unknown-command report, got {:?}", other),
    }
}

#[test]
fn interrupt_quits_in_every_mode() {
    let (mut w, mut s) = fresh();
    let out = handle_keys(&mut w, &mut s, Key::Interrupt);
    assert!(matches!(out.action, Action::Quit));
    handle_keys(&mut w, &mut s, Key::Char('i'));
    let out = handle_keys(&mut w, &mut s, Key::Interrupt);
    assert!(matches!(out.action, Action::Quit));
    handle_keys(&mut w, &mut s, Key::Esc);
    handle_keys(&mut w, &mut s, Key::Char(':'));
    let out = handle_keys(&mut w, &mut s, Key::Interrupt);
    assert!(matches!(out.action, Action::Quit));
}

#[test]
fn insert_mode_types_and_normal_mode_does_not() {
    let (mut w, mut s) = fresh();
    let out = handle_keys(&mut w, &mut s, Key::Char('x'));
    assert!(!out.redraw);
    assert_eq!(w.buffer.line(0), "");
    handle_keys(&mut w, &mut s, Key::Char('i'));
    assert!(matches!(s.mode, Mode::Insert));
    handle_keys(&mut w, &mut s, Key::Char('x'));
    handle_keys(&mut w, &mut s, Key::Enter);
    handle_keys(&mut w, &mut s, Key::Char('y'));
    assert_eq!(w.buffer.line(0), "x");
    assert_eq!(w.buffer.line(1), "y");
    handle_keys(&mut w, &mut s, Key::Backspace);
    assert_eq!(w.buffer.line(1), "");
    handle_keys(&mut w, &mut s, Key::Esc);
    assert!(matches!(s.mode, Mode::Normal));
}

#[test]
fn command_line_accumulates_and_backspace_edits_it() {
    let (mut w, mut s) = fresh();
    type_command(&mut w, &mut s, "wq");
    assert_eq!(s.command, "wq");
    handle_keys(&mut w, &mut s, Key::Backspace);
    assert_eq!(s.command, "w");
    handle_keys(&mut w, &mut s, Key::Backspace);
    assert_eq!(s.command, "");
    assert!(matches!(s.mode, Mode::Command));
    handle_keys(&mut w, &mut s, Key::Backspace);
    assert!(matches!(s.mode, Mode::Normal));
}

#[test]
fn escape_cancels_command_mode_and_clears_the_line() {
    let (mut w, mut s) = fresh();
    type_command(&mut w, &mut s, "w somewhere");
    handle_keys(&mut w, &mut s, Key::Esc);
    assert!(matches!(s.mode, Mode::Normal));
    assert_eq!(s.command, "");
    assert!(w.buffer.file_path.is_none());
}

#[test]
fn arrows_move_in_normal_mode() {
    let buf = Buffer::from_file_content(1, "t.txt", "abc\nde");
    let mut w = Window::new(buf, 80, 24);
    let mut s = Store::new();
    handle_keys(&mut w, &mut s, Key::Right);
    handle_keys(&mut w, &mut s, Key::Right);
    handle_keys(&mut w, &mut s, Key::Down);
    assert_eq!((w.cursor.row, w.cursor.col), (1, 2));
    handle_keys(&mut w, &mut s, Key::Up);
    handle_keys(&mut w, &mut s, Key::Left);
    assert_eq!((w.cursor.row, w.cursor.col), (0, 1));
}
