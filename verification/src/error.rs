//! What can go wrong while a sequence is run.

use vstd::prelude::*;
use crate::text::{push_decimal, spec_decimal};

verus! {

/// The one failure of the interpreter.
#[derive(Debug, Clone, Copy, PartialEq, Eq, Structural)]
pub enum Error {
    /// The cursor, which is the number held, points at no action of the
    /// sequence.
    CursorOutOfBounds(usize),
}

impl Error {
    /// The failure in words.
    pub open spec fn spec_message(self) -> Seq<char> {
        match self {
            Error::CursorOutOfBounds(cursor) => "Could not query action at cursor "@
                + spec_decimal(cursor as nat),
        }
    }

    /// The failure in words.
    pub fn message(&self) -> (text: String)
        ensures
            text@ == self.spec_message(),
    {
        match self {
            Error::CursorOutOfBounds(cursor) => {
                let mut text = String::from_str("Could not query action at cursor ");
                push_decimal(&mut text, *cursor as u128);
                text
            },
        }
    }
}

} // verus!
