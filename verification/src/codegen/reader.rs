//! A reader over text. It is a position in a string, and a copy of it is a
//! way back: reading hands out a reader that stands further on and leaves
//! the reader it was given where it stood.

use vstd::prelude::*;
use vstd::string::*;

verus! {

/// Why nothing was derived.
#[derive(Clone, Copy, Debug, PartialEq, Eq, Structural)]
pub enum GrammarError {
    /// The text does not start with what was looked for.
    Todo,
}

/// A position in a text, counted in characters.
#[derive(Clone, Copy, Debug)]
pub struct Reader<'a> {
    pub input: &'a str,
    pub pos: usize,
}

impl<'a> Reader<'a> {
    /// The position lies in the text or at its end.
    pub open spec fn wf(&self) -> bool {
        self.pos <= self.input@.len()
    }

    /// A reader at the start of a text.
    pub fn new(input: &'a str) -> (reader: Reader<'a>)
        ensures
            reader.wf(),
            reader.input == input,
            reader.pos == 0,
    {
        Reader { input, pos: 0 }
    }

    /// The reader at another position of the same text, if the text has it.
    pub fn at(&self, pos: usize) -> (reader: Option<Reader<'a>>)
        ensures
            reader is Some <==> pos <= self.input@.len(),
            reader matches Some(r) ==> r.input == self.input && r.pos == pos && r.wf(),
    {
        if pos <= self.input.unicode_len() {
            Some(Reader { input: self.input, pos })
        } else {
            None
        }
    }

    /// The number of characters left to read.
    pub fn remaining(&self) -> (left: usize)
        requires
            self.wf(),
        ensures
            left == self.input@.len() - self.pos,
            self.input@.len() <= usize::MAX,
    {
        self.input.unicode_len() - self.pos
    }

    /// Reads `amt` characters. Where fewer are left, or none were asked
    /// for, nothing is read and the reader that comes back stands where
    /// this one stands.
    pub fn read_amt(self, amt: usize) -> (res: (Option<String>, Reader<'a>))
        requires
            self.wf(),
        ensures
            res.1.input == self.input,
            res.1.wf(),
            res.0 is Some <==> 0 < amt <= self.input@.len() - self.pos,
            res.0 matches Some(text) ==> text@ == self.input@.subrange(
                self.pos as int,
                self.pos + amt,
            ) && res.1.pos == self.pos + amt,
            res.0 is None ==> res.1.pos == self.pos,
    {
        if amt == 0 || amt > self.remaining() {
            return (None, self);
        }
        let end: usize = self.pos + amt;
        let text = String::from_str(self.input.substring_char(self.pos, end));
        (Some(text), Reader { input: self.input, pos: end })
    }
}

} // verus!
