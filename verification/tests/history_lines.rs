use shell_history::split_history_lines;

#[test]
fn empty_file_yields_no_lines() {
    let lines = split_history_lines(&[]);
    assert!(lines.is_empty());
}

#[test]
fn newline_terminated_lines_come_back_in_order() {
    let lines = split_history_lines(b"ls -la\ncd /tmp\ngit status\n");
    assert_eq!(lines, vec!["ls -la", "cd /tmp", "git status"]);
}

#[test]
fn blank_lines_are_kept_as_empty_entries() {
    let lines = split_history_lines(b"one\n\ntwo\n");
    assert_eq!(lines, vec!["one", "", "two"]);
}

#[test]
fn invalid_bytes_are_replaced_and_other_lines_kept_intact() {
    let lines = split_history_lines(b"ok line\n\xff\xfe\nanother\n");
    assert_eq!(lines.len(), 3);
    assert_eq!(lines[0], "ok line");
    assert_eq!(lines[1], "\u{fffd}\u{fffd}");
    assert_eq!(lines[2], "another");
}

#[test]
fn unterminated_final_fragment_is_returned_intact() {
    let lines = split_history_lines(b"abc\ndef");
    assert_eq!(lines, vec!["abc", "def"]);
}

#[test]
fn single_unterminated_line_is_returned_whole() {
    let lines = split_history_lines(b"abc");
    assert_eq!(lines, vec!["abc"]);
}

#[test]
fn carriage_returns_are_not_delimiters() {
    let lines = split_history_lines(b"one\r\ntwo\n");
    assert_eq!(lines, vec!["one\r", "two"]);
}
