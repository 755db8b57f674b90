use vstd::prelude::*;

verus! {

/// How the console line is drawn: plainly, or highlighted after a rejected
/// command.
#[derive(Clone, Copy, Debug, PartialEq, Eq, Structural)]
pub enum ConsoleStyle {
    Normal,
    ErrorHighlight,
}

/// The line being typed, and the style it is drawn in.
pub struct Console {
    pub input: String,
    pub style: ConsoleStyle,
}

/// The text with its last character removed; empty text stays empty.
pub open spec fn without_last(s: Seq<char>) -> Seq<char> {
    if s.len() == 0 {
        s
    } else {
        s.drop_last()
    }
}

/// Relies on `String::push`: the character is appended at the end.
#[verifier::external_body]
pub(crate) fn push_onto(s: &mut String, c: char)
    ensures
        final(s)@ == old(s)@.push(c),
{
    s.push(c)
}

/// Relies on `String::pop`: the last character is removed and returned, and
/// an empty string is left as it is, with `None`.
#[verifier::external_body]
fn pop_from(s: &mut String) -> (r: Option<char>)
    ensures
        old(s)@.len() == 0 ==> r is None && final(s)@ == old(s)@,
        old(s)@.len() > 0 ==> r == Some(old(s)@.last()) && final(s)@ == old(s)@.drop_last(),
{
    s.pop()
}

impl Console {
    /// An empty line in the normal style.
    pub fn new() -> (r: Console)
        ensures
            r.input@ == Seq::<char>::empty(),
            r.style == ConsoleStyle::Normal,
    {
        Console { input: String::new(), style: ConsoleStyle::Normal }
    }

    /// Appends a typed character; any edit clears the error highlight.
    pub fn push_char(&mut self, c: char)
        ensures
            final(self).input@ == old(self).input@.push(c),
            final(self).style == ConsoleStyle::Normal,
    {
        push_onto(&mut self.input, c);
        self.style = ConsoleStyle::Normal;
    }

    /// Removes the last character, if there is one; on an empty line only the
    /// style changes. Any edit clears the error highlight.
    pub fn pop_char(&mut self)
        ensures
            final(self).input@ == without_last(old(self).input@),
            old(self).input@.len() == 0 ==> final(self).input@ == old(self).input@,
            final(self).style == ConsoleStyle::Normal,
    {
        let _ = pop_from(&mut self.input);
        self.style = ConsoleStyle::Normal;
    }

    /// Empties the line and puts it back in the normal style.
    pub fn reset(&mut self)
        ensures
            final(self).input@ == Seq::<char>::empty(),
            final(self).style == ConsoleStyle::Normal,
    {
        self.input = String::new();
        self.style = ConsoleStyle::Normal;
    }

    /// Highlights the line as rejected, leaving its text alone.
    pub fn set_error(&mut self)
        ensures
            final(self).input@ == old(self).input@,
            final(self).style == ConsoleStyle::ErrorHighlight,
    {
        self.style = ConsoleStyle::ErrorHighlight;
    }

    /// The text typed so far.
    pub fn text(&self) -> (r: &str)
        ensures
            r@ == self.input@,
    {
        self.input.as_str()
    }
}

} // verus!
