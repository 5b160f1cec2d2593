//! Conversions between text forms and the styled lines the console shows.

use vstd::prelude::*;
use ansi_to_tui::IntoText;
use ratatui::text::{Line, Text};

verus! {

#[verifier::external_type_specification]
#[verifier::external_body]
pub struct ExLine<'a>(Line<'a>);

/// What `String::from_utf8_lossy` makes of a byte string.
pub uninterp spec fn utf8_lossy(b: Seq<u8>) -> Seq<char>;

/// The styled lines `ansi_to_tui` decodes from a text, or `None` where it
/// reports an error.
pub uninterp spec fn ansi_lines(s: Seq<char>) -> Option<Seq<Line<'static>>>;

/// The unstyled lines `Text::raw` splits a text into.
pub uninterp spec fn raw_lines(s: Seq<char>) -> Seq<Line<'static>>;

/// Relies on `String::from_utf8_lossy`: the text depends on the bytes alone,
/// and no bytes give no text.
#[verifier::external_body]
pub(crate) fn decode_utf8_lossy(b: &[u8]) -> (r: String)
    ensures
        r@ == utf8_lossy(b@),
        b@.len() == 0 ==> r@.len() == 0,
{
    String::from_utf8_lossy(b).into_owned()
}

/// Relies on `str::chars`: the characters of the text, in order.
#[verifier::external_body]
pub(crate) fn chars_of(s: &str) -> (r: Vec<char>)
    ensures
        r@ == s@,
{
    s.chars().collect()
}

/// Relies on collecting characters into a `String`: the same characters, in
/// order.
#[verifier::external_body]
pub(crate) fn string_of(v: &Vec<char>) -> (r: String)
    ensures
        r@ == v@,
{
    v.iter().collect()
}

/// Relies on `ansi_to_tui::IntoText::into_text`: decodes escape sequences into
/// styled lines; the outcome depends on the text alone.
#[verifier::external_body]
pub(crate) fn decode_ansi(s: &String) -> (r: Option<Vec<Line<'static>>>)
    ensures
        ansi_lines(s@) == (match r {
            Some(v) => Some(v@),
            None => None::<Seq<Line<'static>>>,
        }),
{
    s.into_text().ok().map(|t| t.lines)
}

/// Relies on `ratatui::text::Text::raw`: the text split into unstyled lines.
#[verifier::external_body]
pub(crate) fn plain_lines(s: &str) -> (r: Vec<Line<'static>>)
    ensures
        r@ == raw_lines(s@),
{
    Text::raw(s.to_owned()).lines
}

} // verus!
