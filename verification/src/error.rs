//! Errors that name the attribute they came from.

use vstd::prelude::*;
use crate::parsers::ParseError;

verus! {

/// A parse error together with the name of the attribute whose value was
/// rejected.
#[derive(Debug, PartialEq)]
pub struct NodeError {
    pub attr_name: &'static str,
    pub err: ParseError,
}

impl NodeError {
    /// Says that the error is about the attribute `attr_name` and carries
    /// the parse error with this message.
    pub open spec fn reports(self, attr_name: Seq<char>, message: Seq<char>) -> bool {
        self.attr_name@ == attr_name && self.err@ == message
    }

    /// Attaches the attribute's name to a parse error.
    pub fn parse_error(attr_name: &'static str, error: ParseError) -> (e: NodeError)
        ensures
            e.attr_name == attr_name,
            e.err == error,
    {
        NodeError { attr_name: attr_name, err: error }
    }
}

impl Clone for NodeError {
    fn clone(&self) -> (e: NodeError)
        ensures
            e.attr_name == self.attr_name,
            e.err@ == self.err@,
    {
        NodeError { attr_name: self.attr_name, err: self.err.clone() }
    }
}

} // verus!
