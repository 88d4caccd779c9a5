//! Dependency substitution, verified: a consumer that reaches an arithmetic
//! service only through the [`I32Calculator`] interface, the production
//! adapter that stands for the real service, and a configurable test double
//! that takes its place in unit tests.
//!
//! Every calculator has a view, and the interface describes a call as a
//! function of that view: the answer it gives and the state it leaves. A
//! call that cannot be answered returns a [`Failure`] in place of a value.
//! [`Application::cool_algorithm`] is stated over those functions alone, so
//! that what it returns is known for every calculator, and the module
//! [`laws`] proves what follows for the calculators of this crate.

pub mod application;
pub mod calculator;
pub mod expectation;
pub mod external;
pub mod laws;
pub mod matcher;
pub mod mock;

pub use application::{cool_algorithm_spec, Application, Progress};
pub use calculator::{Failure, I32Calculator, Operation};
pub use expectation::{Expectation, ExpectationView};
pub use external::ExternalI32Calculator;
pub use matcher::{always, eq, Matcher};
pub use mock::MockI32Calculator;
