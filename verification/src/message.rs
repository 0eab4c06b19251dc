//! A borrowed message and its measure.

use vstd::prelude::*;
use crate::helper::{lines_of, max_len, max_line_length_chars};
use crate::text::to_chars;

verus! {

/// A message that is borrowed for as long as it is measured.
pub struct Message<'a> {
    message: &'a str,
}

impl<'a> Message<'a> {
    /// The text of the message.
    pub closed spec fn text(&self) -> Seq<char> {
        self.message@
    }

    /// A message of the text `message`.
    pub fn new(message: &'a str) -> (out: Message<'a>)
        ensures
            out.text() == message@,
    {
        Message { message: message }
    }

    /// Gets the max line length of the message. Max line length is defined by the longest
    /// substring before a new line character (\n).
    pub fn max_line_length(self) -> (longest: usize)
        ensures
            longest == max_len(lines_of(self.text())),
    {
        let chars = to_chars(self.message);
        max_line_length_chars(chars.as_slice())
    }

    /// The message as an owned string.
    pub fn to_string(&self) -> (out: String)
        ensures
            out@ == self.text(),
    {
        self.message.to_owned()
    }
}

} // verus!
