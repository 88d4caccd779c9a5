//! The test double: a calculator that answers from a list of expectations.
//!
//! The view of a double is its script, the expectations in the order of
//! their registration. [`script_answer`] and [`script_after`] say what a call
//! does to a script. A proof about a given script names the expectation that
//! a call goes to with [`selects`] and has the rest from
//! [`lemma_selected_answers`]; where no expectation is left for an operation,
//! [`lemma_exhausted_is_unexpected`] applies.

use crate::calculator::{Failure, I32Calculator, Operation};
use crate::expectation::{Expectation, ExpectationView};
use vstd::prelude::*;

verus! {

/// Whether `index` is the expectation of `script` that a call of `operation`
/// on `(x, y)` goes to: the first, in registration order, that answers it.
pub open spec fn selects(
    script: Seq<ExpectationView>,
    operation: Operation,
    x: i32,
    y: i32,
    index: int,
) -> bool {
    &&& 0 <= index < script.len()
    &&& script[index].answers(operation, x, y)
    &&& forall|earlier: int|
        0 <= earlier < index ==> !(#[trigger] script[earlier]).answers(operation, x, y)
}

/// Whether some expectation of `script` answers the call.
pub open spec fn expected(script: Seq<ExpectationView>, operation: Operation, x: i32, y: i32) -> bool {
    exists|index: int| selects(script, operation, x, y, index)
}

/// The expectation that the call goes to, where there is one.
pub open spec fn selected(script: Seq<ExpectationView>, operation: Operation, x: i32, y: i32) -> int {
    choose|index: int| selects(script, operation, x, y, index)
}

/// What a double with `script` answers to the call.
pub open spec fn script_answer(
    script: Seq<ExpectationView>,
    operation: Operation,
    x: i32,
    y: i32,
) -> Result<i32, Failure> {
    if expected(script, operation, x, y) {
        Ok(script[selected(script, operation, x, y)].value)
    } else {
        Err(Failure::UnexpectedCall { operation, x, y })
    }
}

/// The script after the call: the selected expectation has one call more,
/// and an unexpected call changes nothing.
pub open spec fn script_after(
    script: Seq<ExpectationView>,
    operation: Operation,
    x: i32,
    y: i32,
) -> Seq<ExpectationView> {
    if expected(script, operation, x, y) {
        let index = selected(script, operation, x, y);
        script.update(index, script[index].consumed())
    } else {
        script
    }
}

/// Whether every expectation of `script` has been called exactly as often as
/// configured.
pub open spec fn all_satisfied(script: Seq<ExpectationView>) -> bool {
    forall|index: int| 0 <= index < script.len() ==> (#[trigger] script[index]).satisfied()
}

/// Whether `index` is the first expectation of `script`, in registration
/// order, that is not satisfied.
pub open spec fn first_unsatisfied(script: Seq<ExpectationView>, index: int) -> bool {
    &&& 0 <= index < script.len()
    &&& !script[index].satisfied()
    &&& forall|earlier: int| 0 <= earlier < index ==> (#[trigger] script[earlier]).satisfied()
}

/// What verification of a double with `script` says: nothing where all
/// expectations are satisfied, and otherwise the first one that is not.
pub open spec fn verdict(script: Seq<ExpectationView>) -> Result<(), Failure> {
    if all_satisfied(script) {
        Ok(())
    } else {
        let index = choose|index: int| first_unsatisfied(script, index);
        Err(Failure::Unsatisfied { operation: script[index].operation, index: index as usize })
    }
}

/// At most one expectation is selected.
pub proof fn lemma_selects_unique(
    script: Seq<ExpectationView>,
    operation: Operation,
    x: i32,
    y: i32,
    i: int,
    j: int,
)
    requires
        selects(script, operation, x, y, i),
        selects(script, operation, x, y, j),
    ensures
        i == j,
{
}

/// A call that goes to the expectation at `index` is answered with its value
/// and counted against it; every other expectation stays as it is.
pub proof fn lemma_selected_answers(
    script: Seq<ExpectationView>,
    operation: Operation,
    x: i32,
    y: i32,
    index: int,
)
    requires
        selects(script, operation, x, y, index),
    ensures
        script_answer(script, operation, x, y) == Ok::<i32, Failure>(script[index].value),
        script_after(script, operation, x, y) == script.update(index, script[index].consumed()),
{
    lemma_selects_unique(script, operation, x, y, index, selected(script, operation, x, y));
}

/// Whether no expectation of `script` about `operation` may still answer a
/// call.
pub open spec fn exhausted(script: Seq<ExpectationView>, operation: Operation) -> bool {
    forall|index: int|
        0 <= index < script.len() && (#[trigger] script[index]).operation == operation
            ==> !script[index].live()
}

/// Once the expectations about an operation are exhausted, every call of it
/// is unexpected and changes nothing.
pub proof fn lemma_exhausted_is_unexpected(
    script: Seq<ExpectationView>,
    operation: Operation,
    x: i32,
    y: i32,
)
    requires
        exhausted(script, operation),
    ensures
        script_answer(script, operation, x, y) == Err::<i32, Failure>(
            Failure::UnexpectedCall { operation, x, y },
        ),
        script_after(script, operation, x, y) == script,
{
}

/// No call brings an exhausted operation back: whatever is called, an
/// operation whose expectations were exhausted before is exhausted after.
pub proof fn lemma_exhausted_stays(
    script: Seq<ExpectationView>,
    called: Operation,
    x: i32,
    y: i32,
    operation: Operation,
)
    requires
        exhausted(script, operation),
    ensures
        exhausted(script_after(script, called, x, y), operation),
{
    if expected(script, called, x, y) {
        let index = selected(script, called, x, y);
        lemma_selected_answers(script, called, x, y, index);
    }
}

/// A test double for [`I32Calculator`]: it answers each call from the first
/// live expectation that accepts it, fails every other call as unexpected,
/// and can be asked whether all its expectations were met.
pub struct MockI32Calculator {
    expectations: Vec<Expectation>,
}

impl View for MockI32Calculator {
    type V = Seq<ExpectationView>;

    closed spec fn view(&self) -> Seq<ExpectationView> {
        self.expectations@.map_values(|e: Expectation| e@)
    }
}

impl MockI32Calculator {
    /// A double without expectations: every call is unexpected.
    pub fn new() -> (mock: Self)
        ensures
            mock@ == Seq::<ExpectationView>::empty(),
    {
        MockI32Calculator { expectations: Vec::new() }
    }

    /// The number of expectations registered.
    pub fn len(&self) -> (len: usize)
        ensures
            len == self@.len(),
    {
        self.expectations.len()
    }

    /// The expectation registered at `index`, counted from 0 in registration
    /// order, or nothing where there are not that many.
    pub fn expectation(&self, index: usize) -> (found: Option<&Expectation>)
        ensures
            index < self@.len() ==> found.is_some() && found.unwrap()@ == self@[index as int],
            index >= self@.len() ==> found.is_none(),
    {
        if index < self.expectations.len() {
            Some(&self.expectations[index])
        } else {
            None
        }
    }

    /// Answers a call from the first live expectation that accepts it, and
    /// counts the call against that expectation.
    pub fn call(&mut self, operation: Operation, x: i32, y: i32) -> (outcome: Result<i32, Failure>)
        ensures
            outcome == script_answer(old(self)@, operation, x, y),
            final(self)@ == script_after(old(self)@, operation, x, y),
    {
        let mut i: usize = 0;
        while i < self.expectations.len()
            invariant
                i <= self.expectations.len(),
                self@ == old(self)@,
                forall|earlier: int|
                    0 <= earlier < i ==> !(#[trigger] self@[earlier]).answers(operation, x, y),
            decreases self.expectations.len() - i,
        {
            if let Some(value) = self.expectations[i].answer(operation, x, y) {
                proof {
                    lemma_selected_answers(old(self)@, operation, x, y, i as int);
                }
                return Ok(value);
            }
            assert(self@ =~= old(self)@);
            i += 1;
        }
        Err(Failure::UnexpectedCall { operation, x, y })
    }

    /// Checks that every expectation has been called exactly as often as
    /// configured, and names the first that has not.
    pub fn verify(&self) -> (outcome: Result<(), Failure>)
        ensures
            outcome == verdict(self@),
    {
        let mut i: usize = 0;
        while i < self.expectations.len()
            invariant
                i <= self.expectations.len(),
                forall|earlier: int| 0 <= earlier < i ==> (#[trigger] self@[earlier]).satisfied(),
            decreases self.expectations.len() - i,
        {
            if !self.expectations[i].is_satisfied() {
                proof {
                    assert(first_unsatisfied(self@, i as int));
                    let chosen = choose|index: int| first_unsatisfied(self@, index);
                    assert(chosen == i);
                }
                return Err(
                    Failure::Unsatisfied { operation: self.expectations[i].operation(), index: i },
                );
            }
            i += 1;
        }
        Ok(())
    }

    /// Registers a fresh expectation of a call of `add`: of any arguments,
    /// exactly once, answered with 0 until it is configured otherwise.
    pub fn expect_add(&mut self) -> (expectation: &mut Expectation)
        ensures
            expectation@ == ExpectationView::fresh(Operation::Add),
            final(self)@ == old(self)@.push(final(expectation)@),
    {
        self.expect(Operation::Add)
    }

    /// Registers a fresh expectation of a call of `subtract`: of any
    /// arguments, exactly once, answered with 0 until it is configured
    /// otherwise.
    pub fn expect_subtract(&mut self) -> (expectation: &mut Expectation)
        ensures
            expectation@ == ExpectationView::fresh(Operation::Subtract),
            final(self)@ == old(self)@.push(final(expectation)@),
    {
        self.expect(Operation::Subtract)
    }

    /// Registers a fresh expectation of a call of `multiply`: of any
    /// arguments, exactly once, answered with 0 until it is configured
    /// otherwise.
    pub fn expect_multiply(&mut self) -> (expectation: &mut Expectation)
        ensures
            expectation@ == ExpectationView::fresh(Operation::Multiply),
            final(self)@ == old(self)@.push(final(expectation)@),
    {
        self.expect(Operation::Multiply)
    }

    /// Registers a fresh expectation of a call of `divide`: of any arguments,
    /// exactly once, answered with 0 until it is configured otherwise.
    pub fn expect_divide(&mut self) -> (expectation: &mut Expectation)
        ensures
            expectation@ == ExpectationView::fresh(Operation::Divide),
            final(self)@ == old(self)@.push(final(expectation)@),
    {
        self.expect(Operation::Divide)
    }

    /// Registers a fresh expectation about `operation`, after those already
    /// registered, and hands it out for configuration.
    pub fn expect(&mut self, operation: Operation) -> (expectation: &mut Expectation)
        ensures
            expectation@ == ExpectationView::fresh(operation),
            final(self)@ == old(self)@.push(final(expectation)@),
    {
        self.expectations.push(Expectation::new(operation));
        let last = self.expectations.len() - 1;
        &mut self.expectations[last]
    }
}

impl Default for MockI32Calculator {
    fn default() -> (mock: Self)
        ensures
            mock@ == Seq::<ExpectationView>::empty(),
    {
        MockI32Calculator::new()
    }
}

impl I32Calculator for MockI32Calculator {
    open spec fn answer(
        state: Seq<ExpectationView>,
        operation: Operation,
        x: i32,
        y: i32,
    ) -> Result<i32, Failure> {
        script_answer(state, operation, x, y)
    }

    open spec fn after(
        state: Seq<ExpectationView>,
        operation: Operation,
        x: i32,
        y: i32,
    ) -> Seq<ExpectationView> {
        script_after(state, operation, x, y)
    }

    fn add(&mut self, x: i32, y: i32) -> (outcome: Result<i32, Failure>) {
        self.call(Operation::Add, x, y)
    }

    fn subtract(&mut self, x: i32, y: i32) -> (outcome: Result<i32, Failure>) {
        self.call(Operation::Subtract, x, y)
    }

    fn multiply(&mut self, x: i32, y: i32) -> (outcome: Result<i32, Failure>) {
        self.call(Operation::Multiply, x, y)
    }

    fn divide(&mut self, x: i32, y: i32) -> (outcome: Result<i32, Failure>) {
        self.call(Operation::Divide, x, y)
    }
}

} // verus!
