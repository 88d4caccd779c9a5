//! The consumer: application logic that depends on a calculator only through
//! the interface.

use crate::calculator::{Failure, I32Calculator, Operation};
use vstd::prelude::*;

verus! {

/// The value and the calculator state that a computation has reached.
pub struct Progress<C: I32Calculator> {
    /// The value so far, or the failure that ended the computation.
    pub output: Result<i32, Failure>,
    /// The state in which the calculator is left.
    pub state: C::V,
}

impl<C: I32Calculator> Progress<C> {
    /// The start of a computation on `x` with the calculator in `state`.
    pub open spec fn start(state: C::V, x: i32) -> Self {
        Progress { output: Ok(x), state }
    }

    /// One more call: `operation` on the value so far and `y`. After a
    /// failure nothing more is called.
    pub open spec fn step(self, operation: Operation, y: i32) -> Self {
        match self.output {
            Ok(value) => Progress {
                output: C::answer(self.state, operation, value, y),
                state: C::after(self.state, operation, value, y),
            },
            Err(_) => self,
        }
    }
}

/// What `cool_algorithm` computes on `x` with a calculator in `state`: the
/// four calls in their order, each on the output of the one before.
pub open spec fn cool_algorithm_spec<C: I32Calculator>(state: C::V, x: i32) -> Progress<C> {
    Progress::<C>::start(state, x).step(Operation::Add, 0).step(Operation::Subtract, 0).step(
        Operation::Multiply,
        1,
    ).step(Operation::Divide, 1)
}

/// An application that owns the calculator it was built with.
pub struct Application<C: I32Calculator> {
    pub i32_calculator: C,
}

impl<C: I32Calculator> View for Application<C> {
    type V = C::V;

    open spec fn view(&self) -> C::V {
        self.i32_calculator@
    }
}

impl<C: I32Calculator> Application<C> {
    /// The application's business logic: adds 0, subtracts 0, multiplies by 1
    /// and divides by 1, each through the calculator and each on the output
    /// of the call before, and returns the last output. The first failure of
    /// the calculator ends the run and is returned.
    pub fn cool_algorithm(&mut self, x: i32) -> (output: Result<i32, Failure>)
        ensures
            output == cool_algorithm_spec::<C>(old(self)@, x).output,
            final(self)@ == cool_algorithm_spec::<C>(old(self)@, x).state,
    {
        let output = self.i32_calculator.add(x, 0)?;
        let output = self.i32_calculator.subtract(output, 0)?;
        let output = self.i32_calculator.multiply(output, 1)?;
        self.i32_calculator.divide(output, 1)
    }
}

} // verus!
