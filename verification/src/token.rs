//! Tokens: the handles that tie a reported event back to a registration.

use vstd::prelude::*;

verus! {

/// The number of the token under which the reactor registers its own
/// awakener. No registration made through a token table ever gets it.
pub const AWAKEN: usize = usize::MAX;

/// Identifies one registration with the reactor.
///
/// The reactor never interprets the number: whoever registers a resource picks
/// it, and every event reported for that resource carries it back. The view
/// of a token is its number.
#[derive(Copy, Clone, Debug, PartialEq, Eq, Structural, PartialOrd, Ord, Hash)]
pub struct Token(pub usize);

impl View for Token {
    type V = usize;

    open spec fn view(&self) -> usize {
        self.0
    }
}

impl vstd::std_specs::convert::FromSpecImpl<usize> for Token {
    open spec fn obeys_from_spec() -> bool {
        true
    }

    open spec fn from_spec(val: usize) -> Token {
        Token(val)
    }
}

impl From<usize> for Token {
    fn from(val: usize) -> (token: Token) {
        Token(val)
    }
}

impl vstd::std_specs::convert::FromSpecImpl<Token> for usize {
    open spec fn obeys_from_spec() -> bool {
        true
    }

    open spec fn from_spec(val: Token) -> usize {
        val.0
    }
}

impl From<Token> for usize {
    fn from(val: Token) -> (number: usize) {
        val.0
    }
}

} // verus!
