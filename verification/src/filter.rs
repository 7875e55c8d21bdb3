//! The filter term: the user-editable string the highlighter matches
//! against. One thread edits it a keystroke at a time, others read it;
//! every reader gets a complete snapshot, so the surrounding binary keeps
//! the value behind a lock and keeps each critical section to one of the
//! operations here, never spanning I/O.

use vstd::prelude::*;

verus! {

/// Relies on String::push: appends the given character to the end of the
/// string.
pub assume_specification[ String::push ](s: &mut String, ch: char)
    ensures
        final(s)@ == old(s)@.push(ch),
;

/// Relies on String::pop: removes the last character from the string and
/// returns it, or returns nothing when the string is empty.
pub assume_specification[ String::pop ](s: &mut String) -> (r: Option<char>)
    ensures
        old(s)@.len() == 0 ==> r is None && final(s)@ == old(s)@,
        old(s)@.len() > 0 ==> r == Some(old(s)@.last()) && final(s)@ == old(s)@.drop_last(),
;

/// The current filter term.
pub struct FilterState {
    term: String,
}

impl View for FilterState {
    type V = Seq<char>;

    closed spec fn view(&self) -> Seq<char> {
        self.term@
    }
}

impl FilterState {
    /// A filter holding `initial`.
    pub fn new(initial: &str) -> (s: FilterState)
        ensures
            s@ == initial@,
    {
        FilterState { term: initial.to_owned() }
    }

    /// A snapshot copy of the current term.
    pub fn get(&self) -> (r: String)
        ensures
            r@ == self@,
    {
        self.term.clone()
    }

    /// The current term, borrowed.
    pub fn term(&self) -> (r: &str)
        ensures
            r@ == self@,
    {
        self.term.as_str()
    }

    /// Appends one character to the term.
    pub fn append_char(&mut self, c: char)
        ensures
            final(self)@ == old(self)@.push(c),
    {
        self.term.push(c);
    }

    /// Removes the last character of the term; an empty term stays empty.
    pub fn pop_last(&mut self)
        ensures
            old(self)@.len() == 0 ==> final(self)@ == old(self)@,
            old(self)@.len() > 0 ==> final(self)@ == old(self)@.drop_last(),
    {
        let _ = self.term.pop();
    }
}

/// Filter edit round trip: appending a character and then removing the last
/// character returns the term to the value it had before.
pub proof fn lemma_append_then_pop(s: Seq<char>, c: char)
    ensures
        s.push(c).drop_last() == s,
{
    assert(s.push(c).drop_last() =~= s);
}

} // verus!
