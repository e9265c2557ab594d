//! The contract between an attribute type and the strings that denote its
//! values.

use vstd::prelude::*;

verus! {

/// Says why a string is not a value of the type it was parsed as.
///
/// The error knows nothing of the attribute that the string came from; the
/// message names what the type would have accepted.
#[derive(Debug, PartialEq)]
pub struct ParseError {
    pub display: String,
}

impl View for ParseError {
    type V = Seq<char>;

    /// The characters of the message.
    open spec fn view(&self) -> Seq<char> {
        self.display@
    }
}

impl ParseError {
    /// An error with the given message.
    pub fn new(msg: &str) -> (e: ParseError)
        ensures
            e@ == msg@,
    {
        ParseError { display: msg.to_owned() }
    }
}

impl Clone for ParseError {
    fn clone(&self) -> (e: ParseError)
        ensures
            e@ == self@,
    {
        ParseError { display: self.display.clone() }
    }
}

/// The message spells the keyword out: the keyword's characters stand in it
/// one after the other.
pub open spec fn names_keyword(message: Seq<char>, keyword: Seq<char>) -> bool {
    exists|from: int, to: int|
        0 <= from <= to <= message.len() && #[trigger] message.subrange(from, to) == keyword
}

/// Relates what a parser returned to what it had to return: the value itself
/// where the string denotes one, else an error with the expected message.
pub open spec fn parsed_as<T>(r: Result<T, ParseError>, expected: Result<T, Seq<char>>) -> bool {
    match expected {
        Ok(v) => r == Ok::<T, ParseError>(v),
        Err(message) => r is Err && r->Err_0@ == message,
    }
}

/// A type whose values can be written as attribute strings.
///
/// `parse_spec` is the meaning of the type's notation: for every string and
/// every piece of context it gives either the value that the string denotes
/// or the message of the error that rejects it.  `parse` computes exactly
/// that, so that parsing the same string twice gives the same answer.  The
/// string is taken as it stands: an implementation that wants surrounding
/// blanks or another case accepted has to say so in `parse_spec`.
pub trait Parse: Sized {
    /// Context that the notation depends on; `()` where it depends on none.
    type Data;

    /// The value that `s` denotes under `data`, or the message that rejects `s`.
    spec fn parse_spec(s: Seq<char>, data: Self::Data) -> Result<Self, Seq<char>>;

    /// Parses `s` under `data`.
    fn parse(s: &str, data: Self::Data) -> (r: Result<Self, ParseError>)
        ensures
            parsed_as(r, Self::parse_spec(s@, data)),
    ;
}

} // verus!
