use steel_tui::console::{Console, Effect, KeyCode, KeyInput, MouseInput, UiEvent};
use steel_tui::event_loop::{on_wake, Wake};
use steel_tui::input::InputLine;
use steel_tui::scroll::ScrollPosition;
use steel_tui::shutdown::Signals;
use tui_input::InputRequest;

fn key(code: KeyCode, ctrl: bool, edit: Option<InputRequest>) -> UiEvent {
    UiEvent::Key(KeyInput { code, ctrl, press: true, edit })
}

fn typed(text: &str) -> Console {
    let mut c = Console::new();
    for ch in text.chars() {
        c.handle_event(&key(KeyCode::Char(ch), false, Some(InputRequest::InsertChar(ch))), false);
    }
    c
}

#[test]
fn paste_appends_at_cursor() {
    let mut c = typed("ba");
    let e = c.handle_event(&UiEvent::Paste("foo".to_string()), false);
    assert_eq!(e, Effect::Nothing);
    assert_eq!(c.input().value(), "bafoo");
    assert_eq!(c.input().cursor(), 5);
}

#[test]
fn paste_in_the_middle_inserts() {
    let mut line = InputLine::new();
    line.paste("ad");
    line.edit(InputRequest::GoToPrevChar);
    line.paste("bc");
    assert_eq!(line.value(), "abcd");
    assert_eq!(line.cursor(), 3);
}

#[test]
fn submitting_empty_line_does_nothing() {
    let mut c = Console::new();
    assert_eq!(c.handle_event(&key(KeyCode::Enter, false, None), false), Effect::Nothing);
    assert!(c.input().is_empty());
}

#[test]
fn submit_takes_the_command() {
    let mut c = typed("list");
    assert_eq!(c.handle_event(&key(KeyCode::Enter, false, None), false), Effect::Submit("list".to_string()));
    assert!(c.input().is_empty());
    assert_eq!(c.input().cursor(), 0);
}

#[test]
fn submit_is_swallowed_once_server_stops() {
    let mut c = typed("list");
    assert_eq!(c.handle_event(&key(KeyCode::Enter, false, None), true), Effect::Nothing);
    assert!(c.input().is_empty());
}

#[test]
fn two_stage_interrupt() {
    let mut c = Console::new();
    let mut s = Signals::new();
    let ctrl_c = Wake::Input(key(KeyCode::Char('c'), true, None));
    assert_eq!(on_wake(&mut c, &ctrl_c, &mut s), Effect::CancelServer);
    assert!(s.server && !s.app && s.running());
    assert_eq!(on_wake(&mut c, &ctrl_c, &mut s), Effect::CancelApp);
    assert!(s.server && s.app && !s.running());
}

#[test]
fn drain_starts_only_on_first_interrupt() {
    let mut s = Signals::new();
    assert!(s.apply(&Effect::CancelServer));
    assert!(!s.apply(&Effect::CancelServer));
    assert!(!s.apply(&Effect::CancelApp));
    assert!(s.server && s.app);
}

#[test]
fn closed_input_stops_the_loop() {
    let mut c = Console::new();
    let mut s = Signals::new();
    assert_eq!(on_wake(&mut c, &Wake::Closed, &mut s), Effect::CancelApp);
    assert!(!s.running());
    assert!(!s.server);
}

#[test]
fn redraw_changes_nothing() {
    let mut c = typed("ab");
    let mut s = Signals::new();
    assert_eq!(on_wake(&mut c, &Wake::Redraw, &mut s), Effect::Nothing);
    assert_eq!(c.input().value(), "ab");
    assert!(s.running());
}

#[test]
fn released_keys_are_ignored() {
    let mut c = Console::new();
    let ev = UiEvent::Key(KeyInput { code: KeyCode::Char('c'), ctrl: true, press: false, edit: None });
    assert_eq!(c.handle_event(&ev, false), Effect::Nothing);
}

#[test]
fn editor_requests_reach_the_line() {
    let mut c = typed("abc");
    c.handle_event(&key(KeyCode::Other, false, Some(InputRequest::DeletePrevChar)), false);
    assert_eq!(c.input().value(), "ab");
    c.handle_event(&key(KeyCode::Other, false, Some(InputRequest::GoToStart)), false);
    assert_eq!(c.input().cursor(), 0);
    assert_eq!(c.cursor_column(), 2);
}

#[test]
fn scroll_gestures() {
    let mut c = Console::new();
    assert_eq!(c.frame(50, 10), 40);
    c.handle_event(&key(KeyCode::Up, false, None), false);
    assert_eq!(c.scroll(), ScrollPosition { offset: 39, follow_tail: false });
    c.handle_event(&UiEvent::Mouse(MouseInput::ScrollUp), false);
    assert_eq!(c.frame(60, 10), 38);
    c.handle_event(&UiEvent::Mouse(MouseInput::ScrollDown { ctrl: false }), false);
    assert_eq!(c.scroll(), ScrollPosition { offset: 39, follow_tail: false });
    c.handle_event(&key(KeyCode::Down, true, None), false);
    assert!(c.scroll().follow_tail);
    assert_eq!(c.frame(60, 10), 50);
}

#[test]
fn reaching_the_bottom_follows_again() {
    let mut p = ScrollPosition { offset: 39, follow_tail: false };
    assert_eq!(p.frame(50, 10), 39);
    assert!(!p.follow_tail);
    p.scroll_down();
    assert_eq!(p.frame(50, 10), 40);
    assert!(p.follow_tail);
    p.scroll_up();
    assert_eq!(p, ScrollPosition { offset: 39, follow_tail: false });
}

#[test]
fn follow_keeps_newest_lines_in_view() {
    let mut p = ScrollPosition::new();
    assert_eq!(p.frame(5, 10), 0);
    assert_eq!(p.frame(15, 10), 5);
    assert_eq!(p.frame(1000, 10), 990);
}

#[test]
fn zero_height_view_degenerates() {
    let mut p = ScrollPosition::new();
    assert_eq!(p.frame(0, 0), 0);
    assert_eq!(p.frame(3, 0), 3);
}
