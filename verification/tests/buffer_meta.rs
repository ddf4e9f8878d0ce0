use modal_edit::buffer::{
    get_line_seperator, line_termination_from_str, Buffer, BufferIds, LineTermination,
};

#[test]
fn empty_buffer_has_sentinel_name_and_one_line() {
    let b = Buffer::empty(7);
    assert_eq!(b.id, 7);
    assert_eq!(b.name, "[No Name]");
    assert_eq!(b.lines, 1);
    assert!(!b.edited);
    assert!(b.file_path.is_none());
    assert_eq!(b.line_termination, LineTermination::LF);
}

#[test]
fn loaded_buffer_takes_name_from_last_path_segment() {
    let b = Buffer::from_file_content(1, "some/deep/dir/file.txt", "one\ntwo");
    assert_eq!(b.name, "file.txt");
    assert_eq!(b.file_path.as_deref(), Some("some/deep/dir/file.txt"));
    assert_eq!(b.lines, 2);
    assert_eq!(b.line(0), "one");
    assert_eq!(b.line(1), "two");
    assert!(!b.edited);
}

#[test]
fn loaded_buffer_without_separator_uses_whole_path_as_name() {
    let b = Buffer::from_file_content(1, "plain.txt", "");
    assert_eq!(b.name, "plain.txt");
    assert_eq!(b.lines, 1);
}

#[test]
fn line_count_is_computed_from_content() {
    let b = Buffer::from_file_content(1, "t.txt", "a\nb\nc\n");
    assert_eq!(b.lines, 4);
    assert_eq!(b.line(3), "");
}

#[test]
fn set_file_path_updates_name_only() {
    let mut b = Buffer::from_file_content(1, "a.txt", "body");
    b.set_file_path("elsewhere/b.md");
    assert_eq!(b.name, "b.md");
    assert_eq!(b.file_path.as_deref(), Some("elsewhere/b.md"));
    assert_eq!(b.line(0), "body");
    assert!(!b.edited);
}

#[test]
fn line_seperator_round_trips_through_termination() {
    assert_eq!(get_line_seperator(&LineTermination::CRLF), "\r\n");
    assert_eq!(get_line_seperator(&LineTermination::LF), "\n");
    assert_eq!(get_line_seperator(&LineTermination::CR), "\r");
    assert_eq!(line_termination_from_str("\r\n"), LineTermination::CRLF);
    assert_eq!(line_termination_from_str("\n"), LineTermination::LF);
    assert_eq!(line_termination_from_str("\r"), LineTermination::CR);
}

#[test]
fn buffer_ids_are_monotonic_and_unique() {
    let mut g = BufferIds::new();
    let a = g.fresh();
    let b = g.fresh();
    let c = g.fresh();
    assert_eq!((a, b, c), (1, 2, 3));
}
