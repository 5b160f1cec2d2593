//! Turns formatted log output into styled lines of the scrollback history.

use vstd::prelude::*;
use ratatui::text::Line;
use crate::history::{keep_last, LineHistory};
use crate::text::{
    ansi_lines, chars_of, decode_ansi, decode_utf8_lossy, plain_lines, raw_lines, string_of,
    utf8_lossy,
};

verus! {

/// `s` with each escaped escape character, the four characters `\x1b`, turned
/// back into the escape character itself, scanning left to right.
pub open spec fn unescape(s: Seq<char>) -> Seq<char>
    decreases s.len(),
{
    if s.len() == 0 {
        s
    } else if s.len() >= 4 && s[0] == '\\' && s[1] == 'x' && s[2] == '1' && s[3] == 'b' {
        seq!['\x1b'] + unescape(s.skip(4))
    } else {
        seq![s[0]] + unescape(s.skip(1))
    }
}

/// The styled lines a text decodes to: the escape decoding where it succeeds,
/// else the text as plain lines.
pub open spec fn styled_lines(s: Seq<char>) -> Seq<Line<'static>> {
    match ansi_lines(s) {
        Some(lines) => lines,
        None => raw_lines(s),
    }
}

/// The text a chunk of log output stands for.
pub open spec fn log_text(b: Seq<u8>) -> Seq<char> {
    unescape(utf8_lossy(b))
}

/// Restores escape characters that a formatter wrote out as `\x1b`.
pub fn restore_escapes(s: &Vec<char>) -> (r: Vec<char>)
    ensures
        r@ == unescape(s@),
{
    let mut out: Vec<char> = Vec::new();
    let mut i: usize = 0;
    let n = s.len();
    proof {
        assert(s@.skip(0) =~= s@);
        assert(out@ + unescape(s@) =~= unescape(s@));
    }
    while i < n
        invariant
            n == s@.len(),
            i <= n,
            out@ + unescape(s@.skip(i as int)) == unescape(s@),
        decreases n - i,
    {
        let rest = Ghost(s@.skip(i as int));
        if n - i >= 4 && s[i] == '\\' && s[i + 1] == 'x' && s[i + 2] == '1' && s[i + 3] == 'b' {
            proof {
                assert(rest@.skip(4) =~= s@.skip(i + 4));
                assert(out@.push('\x1b') + unescape(s@.skip(i + 4)) =~= out@ + unescape(rest@));
            }
            out.push('\x1b');
            i = i + 4;
        } else {
            proof {
                assert(rest@.skip(1) =~= s@.skip(i + 1));
                assert(out@.push(s@[i as int]) + unescape(s@.skip(i + 1)) =~= out@ + unescape(rest@));
            }
            out.push(s[i]);
            i = i + 1;
        }
    }
    proof {
        assert(s@.skip(n as int) =~= Seq::<char>::empty());
        assert(out@ + Seq::<char>::empty() =~= out@);
    }
    out
}

/// Decodes a text into styled lines, falling back to plain lines where the
/// escape sequences cannot be decoded.
pub fn decode_lines(s: &String) -> (r: Vec<Line<'static>>)
    ensures
        r@ == styled_lines(s@),
{
    match decode_ansi(s) {
        Some(lines) => lines,
        None => plain_lines(s.as_str()),
    }
}

/// Log output sink feeding the console history.
#[derive(Debug, Clone, Copy)]
pub struct TuiLoggerWriter;

impl TuiLoggerWriter {
    /// Decodes `buf` and appends its lines to `history`. Returns the number of
    /// bytes consumed: all of `buf` when it stands for some text, and 0 with
    /// the history unchanged when it stands for none; the console is to be
    /// woken exactly when the result is non-zero.
    pub fn write(&self, history: &mut LineHistory<Line<'static>>, buf: &[u8]) -> (n: usize)
        requires
            old(history).wf(),
        ensures
            final(history).wf(),
            final(history).cap() == old(history).cap(),
            log_text(buf@).len() == 0 ==> n == 0 && final(history)@ == old(history)@,
            log_text(buf@).len() > 0 ==> n == buf@.len() && final(history)@ == keep_last(
                old(history)@ + styled_lines(log_text(buf@)),
                old(history).cap(),
            ),
    {
        let raw = decode_utf8_lossy(buf);
        let chars = chars_of(raw.as_str());
        let restored = restore_escapes(&chars);
        if restored.len() == 0 {
            return 0;
        }
        let text = string_of(&restored);
        let lines = decode_lines(&text);
        history.push(lines);
        proof {
            assert(log_text(buf@).len() > 0);
        }
        buf.len()
    }
}

} // verus!
