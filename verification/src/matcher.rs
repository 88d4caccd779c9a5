//! Argument matchers: what an expectation asks of one argument of a call.

use vstd::prelude::*;

verus! {

/// A condition on one `i32` argument.
#[derive(Clone, Copy, Debug, PartialEq, Eq, Structural)]
pub enum Matcher {
    /// Every value is accepted.
    Any,
    /// Only the given value is accepted.
    Exactly(i32),
}

impl Matcher {
    /// Whether the matcher accepts `value`.
    pub open spec fn accepts(self, value: i32) -> bool {
        match self {
            Matcher::Any => true,
            Matcher::Exactly(expected) => value == expected,
        }
    }

    /// Decides whether the matcher accepts `value`.
    pub fn matches(&self, value: i32) -> (accepted: bool)
        ensures
            accepted == self.accepts(value),
    {
        match *self {
            Matcher::Any => true,
            Matcher::Exactly(expected) => value == expected,
        }
    }
}

/// The matcher that accepts `value` and nothing else.
pub fn eq(value: i32) -> (matcher: Matcher)
    ensures
        matcher == Matcher::Exactly(value),
{
    Matcher::Exactly(value)
}

/// The matcher that accepts every value.
pub fn always() -> (matcher: Matcher)
    ensures
        matcher == Matcher::Any,
{
    Matcher::Any
}

} // verus!
