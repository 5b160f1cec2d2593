use ratatui::style::Color;
use ratatui::text::Line;
use steel_tui::history::LineHistory;
use steel_tui::ingest::{restore_escapes, TuiLoggerWriter};
use steel_tui::console::echo_command;

fn text_of(h: &LineHistory<Line<'static>>) -> Vec<String> {
    h.lines().iter().map(|l| l.to_string()).collect()
}

#[test]
fn empty_output_is_a_no_op() {
    let mut h = LineHistory::new();
    assert_eq!(TuiLoggerWriter.write(&mut h, b""), 0);
    assert_eq!(h.len(), 0);
}

#[test]
fn plain_output_is_appended() {
    let mut h = LineHistory::new();
    assert_eq!(TuiLoggerWriter.write(&mut h, b"hello"), 5);
    assert_eq!(text_of(&h), vec!["hello".to_string()]);
}

#[test]
fn escaped_escapes_become_styles() {
    let mut h = LineHistory::new();
    let input = b"\\x1b[31mred\\x1b[0m";
    assert_eq!(TuiLoggerWriter.write(&mut h, input), input.len());
    assert_eq!(text_of(&h), vec!["red".to_string()]);
    let line = &h.lines()[0];
    assert!(line.spans.iter().any(|s| s.content == "red" && s.style.fg == Some(Color::Red)));
}

#[test]
fn writer_respects_capacity() {
    let mut h = LineHistory::with_capacity(2);
    TuiLoggerWriter.write(&mut h, b"one");
    TuiLoggerWriter.write(&mut h, b"two");
    TuiLoggerWriter.write(&mut h, b"three");
    assert_eq!(text_of(&h), vec!["two".to_string(), "three".to_string()]);
}

#[test]
fn restore_escapes_replaces_each_escaped_escape() {
    let s: Vec<char> = "a\\x1bb\\x1\\x1b".chars().collect();
    let r: String = restore_escapes(&s).into_iter().collect();
    assert_eq!(r, "a\x1bb\\x1\x1b");
}

#[test]
fn echo_prefixes_the_command() {
    let mut h = LineHistory::new();
    echo_command(&mut h, &"say hi".to_string());
    assert_eq!(text_of(&h), vec!["> say hi".to_string()]);
}

#[test]
fn invalid_utf8_is_replaced_not_dropped() {
    let mut h = LineHistory::new();
    assert_eq!(TuiLoggerWriter.write(&mut h, b"a\xffb"), 3);
    assert_eq!(text_of(&h), vec!["a\u{FFFD}b".to_string()]);
}

#[test]
fn multi_line_output_gives_one_line_each() {
    let mut h = LineHistory::new();
    TuiLoggerWriter.write(&mut h, b"first\nsecond");
    assert_eq!(text_of(&h), vec!["first".to_string(), "second".to_string()]);
}
