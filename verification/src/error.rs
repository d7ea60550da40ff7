//! The failures that the terminal layer reports.

use vstd::prelude::*;

verus! {

/// What went wrong while talking to the terminal.
#[derive(Clone, Copy, Debug, PartialEq, Eq, Structural)]
pub enum TermError {
    /// The terminal attributes could not be read or written.
    Attributes,
    /// Neither the direct query nor the cursor probe gave the window size.
    WindowSize,
    /// Reading from the input stream or writing to the screen failed.
    Stream,
}

impl TermError {
    /// The text that describes this failure.
    pub open spec fn message_text(self) -> Seq<char> {
        match self {
            TermError::Attributes => "cannot read terminal attributes"@,
            TermError::WindowSize => "cannot determine window size"@,
            TermError::Stream => "cannot read from or write to the terminal"@,
        }
    }

    /// Returns the text that describes this failure.
    pub fn message(&self) -> (text: &'static str)
        ensures
            text@ == self.message_text(),
    {
        match self {
            TermError::Attributes => "cannot read terminal attributes",
            TermError::WindowSize => "cannot determine window size",
            TermError::Stream => "cannot read from or write to the terminal",
        }
    }
}

} // verus!
