//! Laws of the library: what holds of the calculators and of the application
//! for every input.

use crate::application::{cool_algorithm_spec, Progress};
use crate::calculator::{
    computes_true_arithmetic, lemma_quotient_by_one, Failure, I32Calculator, Operation,
};
use crate::expectation::ExpectationView;
use crate::external::ExternalI32Calculator;
use crate::mock::{
    exhausted, expected, lemma_exhausted_is_unexpected, lemma_exhausted_stays,
    lemma_selected_answers, script_after, script_answer, selected, selects, verdict,
    MockI32Calculator,
};
use vstd::prelude::*;

verus! {

/// With a calculator that computes true arithmetic, `cool_algorithm` returns
/// its input, for every `i32` and from every state of the calculator.
pub proof fn cool_algorithm_is_identity<C: I32Calculator>(state: C::V, x: i32)
    requires
        computes_true_arithmetic::<C>(),
    ensures
        cool_algorithm_spec::<C>(state, x).output == Ok::<i32, Failure>(x),
{
    lemma_quotient_by_one(x as int);
}

/// The production adapter never returns a value: every call of it, on any
/// arguments, fails as not callable, and so does `cool_algorithm` on top of
/// it.
pub proof fn external_calculator_is_never_callable(operation: Operation, x: i32, y: i32)
    ensures
        ExternalI32Calculator::answer((), operation, x, y) == Err::<i32, Failure>(
            Failure::NotCallable,
        ),
        cool_algorithm_spec::<ExternalI32Calculator>((), x).output == Err::<i32, Failure>(
            Failure::NotCallable,
        ),
{
}

/// Of two expectations, a call that the first does not accept and the second
/// answers gets the second's value; the call is counted against the second,
/// and the first is left as it was.
pub proof fn second_expectation_answers(
    first: ExpectationView,
    second: ExpectationView,
    operation: Operation,
    x: i32,
    y: i32,
)
    requires
        !first.accepts(operation, x, y),
        second.answers(operation, x, y),
    ensures
        script_answer(seq![first, second], operation, x, y) == Ok::<i32, Failure>(second.value),
        script_after(seq![first, second], operation, x, y) == seq![first, second.consumed()],
{
    let script = seq![first, second];
    lemma_selected_answers(script, operation, x, y, 1);
    assert(script.update(1, second.consumed()) =~= seq![first, second.consumed()]);
}

/// A double with an expectation that is owed a call and was never called
/// fails verification.
pub proof fn uncalled_expectation_fails_verification(script: Seq<ExpectationView>, index: int)
    requires
        0 <= index < script.len(),
        script[index].times > 0,
        script[index].calls == 0,
    ensures
        verdict(script).is_err(),
{
    assert(!script[index].satisfied());
}

/// Whether a double with `script` is configured for one call per method: no
/// two expectations are about the same operation, and each is owed exactly
/// one call.
pub open spec fn one_call_per_method(script: Seq<ExpectationView>) -> bool {
    &&& forall|index: int| 0 <= index < script.len() ==> (#[trigger] script[index]).times == 1
    &&& forall|i: int, j: int|
        0 <= i < j < script.len() ==> (#[trigger] script[i]).operation != (
        #[trigger] script[j]).operation
}

/// Against a double configured for one call per method, a second run of
/// `cool_algorithm` fails at its first call, as unexpected, and changes
/// nothing. This holds on the same input whatever the first run came to, and
/// on any input once the first run has had its call of add answered, as
/// every run that succeeds has.
pub proof fn second_run_is_unexpected(script: Seq<ExpectationView>, x: i32, again: i32)
    requires
        one_call_per_method(script),
        again == x || script_answer(script, Operation::Add, x, 0).is_ok(),
    ensures
        ({
            let first = cool_algorithm_spec::<MockI32Calculator>(script, x);
            let second = cool_algorithm_spec::<MockI32Calculator>(first.state, again);
            &&& second.output == Err::<i32, Failure>(
                Failure::UnexpectedCall { operation: Operation::Add, x: again, y: 0 },
            )
            &&& second.state == first.state
        }),
{
    let start = Progress::<MockI32Calculator>::start(script, x);
    let added = start.step(Operation::Add, 0);
    if added.output.is_ok() {
        let index = choose|index: int| selects(script, Operation::Add, x, 0, index);
        lemma_selected_answers(script, Operation::Add, x, 0, index);
        assert(exhausted(added.state, Operation::Add));
        let subtracted = added.step(Operation::Subtract, 0);
        lemma_exhausted_stays(
            added.state,
            Operation::Subtract,
            added.output.unwrap(),
            0,
            Operation::Add,
        );
        let multiplied = subtracted.step(Operation::Multiply, 1);
        if subtracted.output.is_ok() {
            lemma_exhausted_stays(
                subtracted.state,
                Operation::Multiply,
                subtracted.output.unwrap(),
                1,
                Operation::Add,
            );
        }
        let divided = multiplied.step(Operation::Divide, 1);
        if multiplied.output.is_ok() {
            lemma_exhausted_stays(
                multiplied.state,
                Operation::Divide,
                multiplied.output.unwrap(),
                1,
                Operation::Add,
            );
        }
        lemma_exhausted_is_unexpected(divided.state, Operation::Add, again, 0);
    }
}

/// The script of the identity scenario for `x`: one call each of add and
/// subtract on `(x, 0)` and of multiply and divide on `(x, 1)`, each answered
/// with `x`.
pub open spec fn identity_script(x: i32) -> Seq<ExpectationView> {
    seq![
        ExpectationView::once(Operation::Add, x, 0, x),
        ExpectationView::once(Operation::Subtract, x, 0, x),
        ExpectationView::once(Operation::Multiply, x, 1, x),
        ExpectationView::once(Operation::Divide, x, 1, x),
    ]
}

/// Against a double with the identity script for `x`, `cool_algorithm(x)`
/// returns `x` and consumes each of the four expectations exactly once, so
/// that verification passes afterwards.
pub proof fn identity_script_is_consumed(x: i32)
    ensures
        ({
            let script = identity_script(x);
            let run = cool_algorithm_spec::<MockI32Calculator>(script, x);
            &&& run.output == Ok::<i32, Failure>(x)
            &&& run.state == script.map_values(|e: ExpectationView| e.consumed())
            &&& verdict(run.state) == Ok::<(), Failure>(())
        }),
{
    let script = identity_script(x);
    let start = Progress::<MockI32Calculator>::start(script, x);
    lemma_selected_answers(start.state, Operation::Add, x, 0, 0);
    let added = start.step(Operation::Add, 0);
    lemma_selected_answers(added.state, Operation::Subtract, x, 0, 1);
    let subtracted = added.step(Operation::Subtract, 0);
    lemma_selected_answers(subtracted.state, Operation::Multiply, x, 1, 2);
    let multiplied = subtracted.step(Operation::Multiply, 1);
    lemma_selected_answers(multiplied.state, Operation::Divide, x, 1, 3);
    let divided = multiplied.step(Operation::Divide, 1);
    assert(divided.state =~= script.map_values(|e: ExpectationView| e.consumed()));
}

/// A call never takes an expectation beyond its configured count: where no
/// expectation has more calls than it is owed, none has after the call.
pub proof fn calls_stay_within_times(
    script: Seq<ExpectationView>,
    operation: Operation,
    x: i32,
    y: i32,
)
    requires
        forall|index: int|
            0 <= index < script.len() ==> (#[trigger] script[index]).calls <= script[index].times,
    ensures
        forall|index: int|
            0 <= index < script.len() ==> (#[trigger] script_after(
                script,
                operation,
                x,
                y,
            )[index]).calls <= script[index].times,
        script_after(script, operation, x, y).len() == script.len(),
{
    if expected(script, operation, x, y) {
        lemma_selected_answers(script, operation, x, y, selected(script, operation, x, y));
    }
}

} // verus!
