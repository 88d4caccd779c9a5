//! The production adapter.

use crate::calculator::{Failure, I32Calculator, Operation};
use vstd::prelude::*;

verus! {

/// The calculator of the real application: a client of the external service.
///
/// It must never run inside a unit test, so every call of it fails with
/// [`Failure::NotCallable`], whatever the arguments.
pub struct ExternalI32Calculator;

impl View for ExternalI32Calculator {
    type V = ();

    open spec fn view(&self) -> () {
        ()
    }
}

impl I32Calculator for ExternalI32Calculator {
    open spec fn answer(state: (), operation: Operation, x: i32, y: i32) -> Result<i32, Failure> {
        Err(Failure::NotCallable)
    }

    open spec fn after(state: (), operation: Operation, x: i32, y: i32) -> () {
        ()
    }

    fn add(&mut self, x: i32, y: i32) -> (outcome: Result<i32, Failure>)
        ensures
            outcome == Err::<i32, Failure>(Failure::NotCallable),
    {
        Err(Failure::NotCallable)
    }

    fn subtract(&mut self, x: i32, y: i32) -> (outcome: Result<i32, Failure>)
        ensures
            outcome == Err::<i32, Failure>(Failure::NotCallable),
    {
        Err(Failure::NotCallable)
    }

    fn multiply(&mut self, x: i32, y: i32) -> (outcome: Result<i32, Failure>)
        ensures
            outcome == Err::<i32, Failure>(Failure::NotCallable),
    {
        Err(Failure::NotCallable)
    }

    fn divide(&mut self, x: i32, y: i32) -> (outcome: Result<i32, Failure>)
        ensures
            outcome == Err::<i32, Failure>(Failure::NotCallable),
    {
        Err(Failure::NotCallable)
    }
}

} // verus!
