//! The console's decisions: how each input event changes the input line and
//! the scroll position, and what the surrounding loop is asked to do.

use vstd::prelude::*;
use tui_input::InputRequest;
use ratatui::text::Line;
use crate::history::{keep_last, LineHistory};
use crate::input::{edited_input, insert_at, InputLine};
use crate::scroll::{bottom_offset, followed, framed, scrolled_down, scrolled_up, ScrollPosition};
use crate::text::{plain_lines, raw_lines, string_of};

verus! {

/// Width of the prompt drawn before the input line.
pub const PROMPT_WIDTH: u16 = 2;

/// Keys the console itself reacts to; every other key goes to the editor.
#[derive(Debug, Clone, Copy, PartialEq, Eq, Structural)]
pub enum KeyCode {
    Char(char),
    Enter,
    Up,
    Down,
    Other,
}

/// A keyboard event.
#[derive(Debug, Clone, Copy, PartialEq, Eq)]
pub struct KeyInput {
    pub code: KeyCode,
    /// The control modifier is held.
    pub ctrl: bool,
    /// A press (or repeat), as opposed to a release.
    pub press: bool,
    /// What the line editor makes of this key, if anything.
    pub edit: Option<InputRequest>,
}

/// A pointer event.
#[derive(Debug, Clone, Copy, PartialEq, Eq, Structural)]
pub enum MouseInput {
    ScrollUp,
    ScrollDown { ctrl: bool },
    Other,
}

/// One event read from the terminal.
#[derive(Debug, Clone, PartialEq, Eq)]
pub enum UiEvent {
    Key(KeyInput),
    Mouse(MouseInput),
    Paste(String),
    Other,
}

/// What the console loop is asked to do after an event.
#[derive(Debug, Clone, PartialEq, Eq)]
pub enum Effect {
    Nothing,
    /// Echo the command and hand it to the server.
    Submit(String),
    /// Trigger server-level cancellation.
    CancelServer,
    /// Trigger application-level cancellation.
    CancelApp,
}

/// An `Effect` as a mathematical value.
pub ghost enum EffectView {
    Nothing,
    Submit(Seq<char>),
    CancelServer,
    CancelApp,
}

pub open spec fn effect_view(e: Effect) -> EffectView {
    match e {
        Effect::Nothing => EffectView::Nothing,
        Effect::Submit(s) => EffectView::Submit(s@),
        Effect::CancelServer => EffectView::CancelServer,
        Effect::CancelApp => EffectView::CancelApp,
    }
}

/// The interrupt key: control and `c`.
pub open spec fn is_interrupt(k: KeyInput) -> bool {
    k.code == KeyCode::Char('c') && k.ctrl
}

/// The two-stage interrupt: the first stops the server, the next exits.
pub open spec fn interrupt_effect(server_cancelled: bool) -> EffectView {
    if server_cancelled {
        EffectView::CancelApp
    } else {
        EffectView::CancelServer
    }
}

/// What submitting `text` asks for: nothing for an empty line or once the
/// server is stopping, else the command itself.
pub open spec fn submit_effect(text: Seq<char>, server_cancelled: bool) -> EffectView {
    if text.len() == 0 || server_cancelled {
        EffectView::Nothing
    } else {
        EffectView::Submit(text)
    }
}

/// The effect of an event on a console whose input line reads `text`.
pub open spec fn event_effect(text: Seq<char>, ev: UiEvent, server_cancelled: bool) -> EffectView {
    match ev {
        UiEvent::Key(k) => if !k.press {
            EffectView::Nothing
        } else if is_interrupt(k) {
            interrupt_effect(server_cancelled)
        } else if k.code == KeyCode::Enter {
            submit_effect(text, server_cancelled)
        } else {
            EffectView::Nothing
        },
        _ => EffectView::Nothing,
    }
}

/// The input line after an event.
pub open spec fn event_input(line: (Seq<char>, nat), ev: UiEvent) -> (Seq<char>, nat) {
    match ev {
        UiEvent::Key(k) => if !k.press {
            line
        } else {
            match k.code {
                KeyCode::Enter => (Seq::<char>::empty(), 0nat),
                KeyCode::Up => line,
                KeyCode::Down => line,
                _ => match k.edit {
                    Some(req) => edited_input(line.0, line.1, req),
                    None => line,
                },
            }
        },
        UiEvent::Paste(p) => (insert_at(line.0, line.1, p@), line.1 + p@.len()),
        _ => line,
    }
}

/// The scroll position after an event.
pub open spec fn event_scroll(s: ScrollPosition, ev: UiEvent) -> ScrollPosition {
    match ev {
        UiEvent::Key(k) => if !k.press {
            s
        } else {
            match k.code {
                KeyCode::Up => scrolled_up(s),
                KeyCode::Down => if k.ctrl {
                    followed(s)
                } else {
                    scrolled_down(s)
                },
                _ => s,
            }
        },
        UiEvent::Mouse(m) => match m {
            MouseInput::ScrollUp => scrolled_up(s),
            MouseInput::ScrollDown { ctrl } => if ctrl {
                followed(s)
            } else {
                scrolled_down(s)
            },
            MouseInput::Other => s,
        },
        _ => s,
    }
}

/// The line echoed to the history for a submitted command.
pub open spec fn echo_text(command: Seq<char>) -> Seq<char> {
    seq!['>', ' '] + command
}

/// The state the console loop owns: the input line and the scroll position.
pub struct Console {
    input: InputLine,
    scroll: ScrollPosition,
}

impl Console {
    pub open spec fn wf(&self) -> bool {
        self.input_view().wf()
    }

    pub closed spec fn input_view(&self) -> InputLine {
        self.input
    }

    pub closed spec fn scroll_view(&self) -> ScrollPosition {
        self.scroll
    }

    /// An empty input line, following the tail.
    pub fn new() -> (r: Self)
        ensures
            r.wf(),
            r.input_view()@ == (Seq::<char>::empty(), 0nat),
            r.scroll_view() == (ScrollPosition { offset: 0, follow_tail: true }),
    {
        Console { input: InputLine::new(), scroll: ScrollPosition::new() }
    }

    /// The input line.
    pub fn input(&self) -> (r: &InputLine)
        ensures
            *r == self.input_view(),
    {
        &self.input
    }

    /// The scroll position.
    pub fn scroll(&self) -> (r: ScrollPosition)
        ensures
            r == self.scroll_view(),
    {
        self.scroll
    }

    /// Handles one terminal event, given whether the server is already
    /// stopping, and says what the loop must do about it.
    pub fn handle_event(&mut self, ev: &UiEvent, server_cancelled: bool) -> (e: Effect)
        requires
            old(self).wf(),
        ensures
            final(self).wf(),
            effect_view(e) == event_effect(old(self).input_view()@.0, *ev, server_cancelled),
            final(self).input_view()@ == event_input(old(self).input_view()@, *ev),
            final(self).scroll_view() == event_scroll(old(self).scroll_view(), *ev),
    {
        match ev {
            UiEvent::Key(k) => self.handle_key(k, server_cancelled),
            UiEvent::Mouse(m) => {
                self.handle_mouse(m);
                Effect::Nothing
            },
            UiEvent::Paste(p) => {
                self.input.paste(p.as_str());
                Effect::Nothing
            },
            UiEvent::Other => Effect::Nothing,
        }
    }

    fn handle_key(&mut self, k: &KeyInput, server_cancelled: bool) -> (e: Effect)
        requires
            old(self).wf(),
        ensures
            final(self).wf(),
            effect_view(e) == event_effect(old(self).input_view()@.0, UiEvent::Key(*k), server_cancelled),
            final(self).input_view()@ == event_input(old(self).input_view()@, UiEvent::Key(*k)),
            final(self).scroll_view() == event_scroll(old(self).scroll_view(), UiEvent::Key(*k)),
    {
        if !k.press {
            return Effect::Nothing;
        }
        let mut effect = Effect::Nothing;
        if k.code == KeyCode::Char('c') && k.ctrl {
            effect = if server_cancelled {
                Effect::CancelApp
            } else {
                Effect::CancelServer
            };
        }
        match k.code {
            KeyCode::Enter => {
                effect = self.submit(server_cancelled);
            },
            KeyCode::Up => self.scroll.scroll_up(),
            KeyCode::Down => {
                if k.ctrl {
                    self.scroll.follow();
                } else {
                    self.scroll.scroll_down();
                }
            },
            _ => {
                if let Some(req) = k.edit {
                    self.input.edit(req);
                }
            },
        }
        effect
    }

    fn handle_mouse(&mut self, m: &MouseInput)
        ensures
            final(self).input_view() == old(self).input_view(),
            final(self).scroll_view() == event_scroll(old(self).scroll_view(), UiEvent::Mouse(*m)),
    {
        match m {
            MouseInput::ScrollUp => self.scroll.scroll_up(),
            MouseInput::ScrollDown { ctrl } => {
                if *ctrl {
                    self.scroll.follow();
                } else {
                    self.scroll.scroll_down();
                }
            },
            MouseInput::Other => {},
        }
    }

    /// Takes the typed command, leaving the line empty; it is to be run only
    /// when non-empty and while the server accepts commands.
    fn submit(&mut self, server_cancelled: bool) -> (e: Effect)
        ensures
            final(self).wf(),
            effect_view(e) == submit_effect(old(self).input_view()@.0, server_cancelled),
            final(self).input_view()@ == (Seq::<char>::empty(), 0nat),
            final(self).scroll_view() == old(self).scroll_view(),
    {
        let command = self.input.take();
        if command.len() == 0 || server_cancelled {
            Effect::Nothing
        } else {
            Effect::Submit(string_of(&command))
        }
    }

    /// Settles the scroll position for a frame and returns the offset to draw
    /// at.
    pub fn frame(&mut self, content_height: u16, view_height: u16) -> (r: u16)
        ensures
            final(self).input_view() == old(self).input_view(),
            final(self).scroll_view() == framed(old(self).scroll_view(), content_height, view_height),
            r == final(self).scroll_view().offset,
    {
        self.scroll.frame(content_height, view_height)
    }

    /// Column of the terminal cursor: past the prompt, at the input cursor.
    pub fn cursor_column(&self) -> (r: u16)
        ensures
            r == if self.input_view()@.1 + PROMPT_WIDTH <= u16::MAX {
                (self.input_view()@.1 + PROMPT_WIDTH) as u16
            } else {
                u16::MAX
            },
    {
        let c = self.input.cursor();
        if c <= (u16::MAX - PROMPT_WIDTH) as usize {
            c as u16 + PROMPT_WIDTH
        } else {
            u16::MAX
        }
    }
}

/// An explicit upward scroll: the up key pressed, or the wheel turned up.
pub open spec fn is_scroll_up(ev: UiEvent) -> bool {
    match ev {
        UiEvent::Key(k) => k.press && k.code == KeyCode::Up,
        UiEvent::Mouse(m) => m == MouseInput::ScrollUp,
        _ => false,
    }
}

/// Submitting an empty line does nothing: no command goes out, so nothing is
/// echoed, and the line stays empty.
pub proof fn lemma_empty_submit_is_noop(line: (Seq<char>, nat), k: KeyInput, server_cancelled: bool)
    requires
        line.0.len() == 0,
        k.press,
        k.code == KeyCode::Enter,
    ensures
        event_effect(line.0, UiEvent::Key(k), server_cancelled) == EffectView::Nothing,
        event_input(line, UiEvent::Key(k)) == (Seq::<char>::empty(), 0nat),
{
}

/// A view that follows the tail keeps following through every event but an
/// explicit upward scroll, so each frame after it shows the newest lines.
pub proof fn lemma_follow_survives_events(s: ScrollPosition, ev: UiEvent, content_height: u16, view_height: u16)
    requires
        s.follow_tail,
        !is_scroll_up(ev),
    ensures
        event_scroll(s, ev).follow_tail,
        framed(event_scroll(s, ev), content_height, view_height).offset == bottom_offset(content_height, view_height),
{
}

/// Appends the echo of a submitted command to the history.
pub fn echo_command(history: &mut LineHistory<Line<'static>>, command: &String)
    requires
        old(history).wf(),
    ensures
        final(history).wf(),
        final(history).cap() == old(history).cap(),
        final(history)@ == keep_last(old(history)@ + raw_lines(echo_text(command@)), old(history).cap()),
{
    let mut chars: Vec<char> = Vec::new();
    chars.push('>');
    chars.push(' ');
    let mut rest = crate::text::chars_of(command.as_str());
    chars.append(&mut rest);
    proof {
        assert(chars@ =~= echo_text(command@));
    }
    let text = string_of(&chars);
    history.push(plain_lines(text.as_str()));
}

} // verus!
