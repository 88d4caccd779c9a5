//! Expectations: the rules that a test double is configured with.

use crate::calculator::Operation;
use crate::matcher::Matcher;
use vstd::prelude::*;

verus! {

/// What an expectation says, as a mathematical value.
pub struct ExpectationView {
    /// The operation that the expectation is about.
    pub operation: Operation,
    /// The condition on the first argument.
    pub x: Matcher,
    /// The condition on the second argument.
    pub y: Matcher,
    /// How many calls the expectation is owed.
    pub times: nat,
    /// How many calls it has answered so far.
    pub calls: nat,
    /// The value that it answers with.
    pub value: i32,
}

impl ExpectationView {
    /// The expectation that registration starts from: any arguments, exactly
    /// one call, the answer 0.
    pub open spec fn fresh(operation: Operation) -> Self {
        ExpectationView { operation, x: Matcher::Any, y: Matcher::Any, times: 1, calls: 0, value: 0 }
    }

    /// An expectation of exactly one call of `operation` on `(x, y)`, not yet
    /// called, that answers with `value`.
    pub open spec fn once(operation: Operation, x: i32, y: i32, value: i32) -> Self {
        ExpectationView {
            operation,
            x: Matcher::Exactly(x),
            y: Matcher::Exactly(y),
            times: 1,
            calls: 0,
            value,
        }
    }

    /// Whether the expectation is about `operation` and its matchers accept
    /// `(x, y)`.
    pub open spec fn accepts(self, operation: Operation, x: i32, y: i32) -> bool {
        &&& self.operation == operation
        &&& self.x.accepts(x)
        &&& self.y.accepts(y)
    }

    /// Whether the expectation may still answer a call.
    pub open spec fn live(self) -> bool {
        self.calls < self.times
    }

    /// Whether the expectation can answer this call: it accepts it and is
    /// live.
    pub open spec fn answers(self, operation: Operation, x: i32, y: i32) -> bool {
        self.accepts(operation, x, y) && self.live()
    }

    /// Whether the expectation has been called exactly as often as configured.
    pub open spec fn satisfied(self) -> bool {
        self.calls == self.times
    }

    /// The expectation after it has answered one more call.
    pub open spec fn consumed(self) -> Self {
        ExpectationView { calls: self.calls + 1, ..self }
    }
}

/// One rule of a test double: which call, with which arguments, how many
/// times, and what to return.
#[derive(Clone, Copy, Debug)]
pub struct Expectation {
    operation: Operation,
    x: Matcher,
    y: Matcher,
    times: usize,
    calls: usize,
    value: i32,
}

impl View for Expectation {
    type V = ExpectationView;

    closed spec fn view(&self) -> ExpectationView {
        ExpectationView {
            operation: self.operation,
            x: self.x,
            y: self.y,
            times: self.times as nat,
            calls: self.calls as nat,
            value: self.value,
        }
    }
}

impl Expectation {
    /// A fresh expectation about `operation`.
    pub fn new(operation: Operation) -> (expectation: Self)
        ensures
            expectation@ == ExpectationView::fresh(operation),
    {
        Expectation { operation, x: Matcher::Any, y: Matcher::Any, times: 1, calls: 0, value: 0 }
    }

    /// The operation that the expectation is about.
    pub fn operation(&self) -> (operation: Operation)
        ensures
            operation == self@.operation,
    {
        self.operation
    }

    /// The matchers of the first and of the second argument.
    pub fn matchers(&self) -> (matchers: (Matcher, Matcher))
        ensures
            matchers == (self@.x, self@.y),
    {
        (self.x, self.y)
    }

    /// The value that the expectation answers with.
    pub fn value(&self) -> (value: i32)
        ensures
            value == self@.value,
    {
        self.value
    }

    /// How many calls the expectation is owed.
    pub fn expected_calls(&self) -> (times: usize)
        ensures
            times == self@.times,
    {
        self.times
    }

    /// How many calls the expectation has answered so far.
    pub fn calls(&self) -> (calls: usize)
        ensures
            calls == self@.calls,
    {
        self.calls
    }

    /// Whether the expectation has been called exactly as often as configured.
    pub fn is_satisfied(&self) -> (yes: bool)
        ensures
            yes == self@.satisfied(),
    {
        self.calls == self.times
    }

    /// Answers a call of `operation` on `(x, y)` if the expectation accepts it
    /// and is live, and counts the call; otherwise leaves the expectation as
    /// it is.
    pub fn answer(&mut self, operation: Operation, x: i32, y: i32) -> (value: Option<i32>)
        ensures
            old(self)@.answers(operation, x, y) ==> {
                &&& value == Some(old(self)@.value)
                &&& final(self)@ == old(self)@.consumed()
            },
            !old(self)@.answers(operation, x, y) ==> {
                &&& value.is_none()
                &&& final(self)@ == old(self)@
            },
    {
        if self.operation == operation && self.x.matches(x) && self.y.matches(y) && self.calls
            < self.times {
            self.calls = self.calls + 1;
            Some(self.value)
        } else {
            None
        }
    }

    /// Sets the exact number of calls that the expectation is owed. Calls
    /// already answered stay counted: an expectation that has answered more
    /// than `n` can no longer be satisfied.
    pub fn times(&mut self, n: usize) -> (same: &mut Self)
        ensures
            same@ == (ExpectationView { times: n as nat, ..old(self)@ }),
            final(self)@ == final(same)@,
    {
        self.times = n;
        self
    }

    /// Sets the matchers of the two arguments.
    pub fn with(&mut self, x: Matcher, y: Matcher) -> (same: &mut Self)
        ensures
            same@ == (ExpectationView { x, y, ..old(self)@ }),
            final(self)@ == final(same)@,
    {
        self.x = x;
        self.y = y;
        self
    }

    /// Sets the value that the expectation answers with.
    pub fn return_const(&mut self, value: i32) -> (same: &mut Self)
        ensures
            same@ == (ExpectationView { value, ..old(self)@ }),
            final(self)@ == final(same)@,
    {
        self.value = value;
        self
    }
}

} // verus!
