//! The error that every fallible step of the store answers with.

use vstd::prelude::*;

verus! {

/// What kind of failure an [`Error`] reports. Only the kinds that a decision
/// depends on are told apart.
#[derive(Clone, Copy, Debug, PartialEq, Eq, Structural)]
pub enum ErrorKind {
    /// The data, or the state it was found in, is not acceptable.
    InvalidData,
    /// A name was to be created and exists.
    AlreadyExists,
    /// A name does not exist.
    NotFound,
    /// Any other failure.
    Other,
}

/// A failure: its kind and its message. `S` is the type of text: `String` in
/// the program, a sequence of characters in contracts.
#[derive(Debug, PartialEq, Eq)]
pub struct Error<S = String> {
    pub kind: ErrorKind,
    pub message: S,
}

impl View for Error<String> {
    type V = Error<Seq<char>>;

    open spec fn view(&self) -> Error<Seq<char>> {
        Error { kind: self.kind, message: self.message@ }
    }
}

impl Clone for Error<String> {
    fn clone(&self) -> (r: Self)
        ensures
            r == *self,
    {
        Error { kind: self.kind, message: self.message.clone() }
    }
}

/// An error of kind `InvalidData` with the given message.
pub open spec fn invalid_error(message: Seq<char>) -> Error<Seq<char>> {
    Error { kind: ErrorKind::InvalidData, message }
}

/// Makes an error of kind `InvalidData`.
pub fn invalid(message: &str) -> (e: Error)
    ensures
        e@ == invalid_error(message@),
{
    Error { kind: ErrorKind::InvalidData, message: message.to_owned() }
}

/// A result as contracts see it, where success carries nothing.
pub open spec fn checked(r: Result<(), Error>) -> Result<(), Error<Seq<char>>> {
    match r {
        Ok(()) => Ok(()),
        Err(e) => Err(e@),
    }
}

} // verus!
