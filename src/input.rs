//! The operator's command line: text being typed and a cursor into it.

use vstd::prelude::*;
use tui_input::{Input, InputRequest};
use crate::text::string_of;

verus! {

#[verifier::external_type_specification]
pub struct ExInputRequest(InputRequest);

/// The text and cursor `tui_input` leaves after handling an editing request
/// on a given text and cursor.
pub uninterp spec fn edited_input(value: Seq<char>, cursor: nat, req: InputRequest) -> (Seq<char>, nat);

/// Relies on `tui_input::Input::handle`: applies one editing request; the
/// outcome depends on the text, cursor and request alone, and leaves the
/// cursor within the text.
#[verifier::external_body]
fn apply_request(value: &Vec<char>, cursor: usize, req: InputRequest) -> (r: (Vec<char>, usize))
    ensures
        (r.0@, r.1 as nat) == edited_input(value@, cursor as nat, req),
        r.1 <= r.0@.len(),
{
    let mut input = Input::new(value.iter().collect()).with_cursor(cursor);
    input.handle(req);
    (input.value().chars().collect(), input.cursor())
}

/// `value` with `pasted` inserted at `cursor`.
pub open spec fn insert_at(value: Seq<char>, cursor: nat, pasted: Seq<char>) -> Seq<char> {
    value.take(cursor as int) + pasted + value.skip(cursor as int)
}

/// A command line being typed: its characters and a cursor between them.
pub struct InputLine {
    value: Vec<char>,
    cursor: usize,
}

impl View for InputLine {
    type V = (Seq<char>, nat);

    closed spec fn view(&self) -> (Seq<char>, nat) {
        (self.value@, self.cursor as nat)
    }
}

impl InputLine {
    /// The cursor stands within the text.
    pub open spec fn wf(&self) -> bool {
        self@.1 <= self@.0.len()
    }

    /// An empty line.
    pub fn new() -> (r: Self)
        ensures
            r.wf(),
            r@ == (Seq::<char>::empty(), 0nat),
    {
        InputLine { value: Vec::new(), cursor: 0 }
    }

    /// The text typed so far.
    pub fn value(&self) -> (r: String)
        ensures
            r@ == self@.0,
    {
        string_of(&self.value)
    }

    /// The cursor, in characters from the start of the line.
    pub fn cursor(&self) -> (r: usize)
        ensures
            r == self@.1,
    {
        self.cursor
    }

    /// Whether nothing is typed.
    pub fn is_empty(&self) -> (r: bool)
        ensures
            r == (self@.0.len() == 0),
    {
        self.value.len() == 0
    }

    /// Returns the text typed so far and leaves the line empty.
    pub fn take(&mut self) -> (r: Vec<char>)
        ensures
            r@ == old(self)@.0,
            final(self)@ == (Seq::<char>::empty(), 0nat),
    {
        let mut taken: Vec<char> = Vec::new();
        std::mem::swap(&mut taken, &mut self.value);
        self.cursor = 0;
        taken
    }

    /// Inserts pasted text at the cursor and moves the cursor past it.
    pub fn paste(&mut self, pasted: &str)
        requires
            old(self).wf(),
        ensures
            final(self).wf(),
            final(self)@.0 == insert_at(old(self)@.0, old(self)@.1, pasted@),
            final(self)@.1 == old(self)@.1 + pasted@.len(),
    {
        let mut tail = self.value.split_off(self.cursor);
        let mut added = crate::text::chars_of(pasted);
        let n = added.len();
        self.value.append(&mut added);
        self.value.append(&mut tail);
        let total = self.value.len();
        proof {
            assert(total == old(self)@.0.len() + pasted@.len());
            assert(self.value@ =~= insert_at(old(self)@.0, old(self)@.1, pasted@));
        }
        self.cursor = self.cursor + n;
    }

    /// Applies one editing request (insertion, deletion, cursor movement).
    pub fn edit(&mut self, req: InputRequest)
        requires
            old(self).wf(),
        ensures
            final(self).wf(),
            final(self)@ == edited_input(old(self)@.0, old(self)@.1, req),
    {
        let (value, cursor) = apply_request(&self.value, self.cursor, req);
        self.value = value;
        self.cursor = cursor;
    }
}

} // verus!
