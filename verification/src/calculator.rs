//! The capability interface: four arithmetic operations over `i32`, and the
//! ways in which a call can fail.

use vstd::math::abs;
use vstd::prelude::*;

verus! {

/// One of the four operations of the interface.
#[derive(Clone, Copy, Debug, PartialEq, Eq, Structural)]
pub enum Operation {
    Add,
    Subtract,
    Multiply,
    Divide,
}

/// Why a call did not produce a value.
#[derive(Clone, Copy, Debug, PartialEq, Eq, Structural)]
pub enum Failure {
    /// The production adapter was invoked where it must never run.
    NotCallable,
    /// A test double received a call that no live expectation accepts.
    UnexpectedCall { operation: Operation, x: i32, y: i32 },
    /// At verification, the expectation registered at `index` had not been
    /// called the configured number of times.
    Unsatisfied { operation: Operation, index: usize },
}

/// The quotient of `x` by `y`, rounded towards zero.
pub open spec fn quotient(x: int, y: int) -> int
    recommends
        y != 0,
{
    let magnitude = (abs(x) / abs(y)) as int;
    if (x >= 0) == (y > 0) {
        magnitude
    } else {
        -magnitude
    }
}

/// Dividing by one changes nothing.
pub proof fn lemma_quotient_by_one(x: int)
    ensures
        quotient(x, 1) == x,
{
    let magnitude = abs(x) as int;
    assert(magnitude / 1 == magnitude) by (nonlinear_arith);
}

/// The mathematical result of `operation` on `(x, y)`. A division by zero
/// has none.
pub open spec fn arithmetic(operation: Operation, x: int, y: int) -> Option<int> {
    match operation {
        Operation::Add => Some(x + y),
        Operation::Subtract => Some(x - y),
        Operation::Multiply => Some(x * y),
        Operation::Divide => if y == 0 {
            None
        } else {
            Some(quotient(x, y))
        },
    }
}

/// Whether `C` computes true arithmetic: in every state, and wherever the
/// mathematical result exists and is an `i32`, that result is its answer.
pub open spec fn computes_true_arithmetic<C: I32Calculator>() -> bool {
    forall|state: C::V, operation: Operation, x: i32, y: i32|
        match arithmetic(operation, x as int, y as int) {
            Some(result) => i32::MIN <= result <= i32::MAX ==> #[trigger] C::answer(
                state,
                operation,
                x,
                y,
            ) == Ok::<i32, Failure>(result as i32),
            None => true,
        }
}

/// A calculator over `i32`.
///
/// An implementation is described by its view and two functions of it: the
/// answer that an operation gives on a pair of arguments, and the state that
/// the call leaves behind. The interface asks nothing of the arguments and
/// promises nothing of the answer beyond those two functions: whether an
/// implementation computes true arithmetic is said by
/// [`computes_true_arithmetic`].
pub trait I32Calculator: View {
    /// What `operation` answers on `(x, y)` when the calculator is in `state`.
    spec fn answer(state: Self::V, operation: Operation, x: i32, y: i32) -> Result<i32, Failure>;

    /// The state in which a call of `operation` on `(x, y)` leaves a
    /// calculator that was in `state`.
    spec fn after(state: Self::V, operation: Operation, x: i32, y: i32) -> Self::V;

    /// Asks for the sum of `x` and `y`.
    fn add(&mut self, x: i32, y: i32) -> (outcome: Result<i32, Failure>)
        ensures
            outcome == Self::answer(old(self)@, Operation::Add, x, y),
            final(self)@ == Self::after(old(self)@, Operation::Add, x, y),
    ;

    /// Asks for the difference of `x` and `y`.
    fn subtract(&mut self, x: i32, y: i32) -> (outcome: Result<i32, Failure>)
        ensures
            outcome == Self::answer(old(self)@, Operation::Subtract, x, y),
            final(self)@ == Self::after(old(self)@, Operation::Subtract, x, y),
    ;

    /// Asks for the product of `x` and `y`.
    fn multiply(&mut self, x: i32, y: i32) -> (outcome: Result<i32, Failure>)
        ensures
            outcome == Self::answer(old(self)@, Operation::Multiply, x, y),
            final(self)@ == Self::after(old(self)@, Operation::Multiply, x, y),
    ;

    /// Asks for the quotient of `x` and `y`.
    fn divide(&mut self, x: i32, y: i32) -> (outcome: Result<i32, Failure>)
        ensures
            outcome == Self::answer(old(self)@, Operation::Divide, x, y),
            final(self)@ == Self::after(old(self)@, Operation::Divide, x, y),
    ;
}

} // verus!
