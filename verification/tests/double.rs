use mockable_calculator::{
    always, eq, Expectation, Failure, I32Calculator, Matcher, MockI32Calculator, Operation,
};

#[test]
fn new_double_has_no_expectations() {
    let mock = MockI32Calculator::new();
    assert_eq!(mock.len(), 0);
    assert!(mock.expectation(0).is_none());
    assert_eq!(mock.verify(), Ok(()));
}

#[test]
fn default_double_has_no_expectations() {
    let mock = MockI32Calculator::default();
    assert_eq!(mock.len(), 0);
    assert_eq!(mock.verify(), Ok(()));
}

#[test]
fn call_without_expectations_is_unexpected() {
    let mut mock = MockI32Calculator::new();
    assert_eq!(
        mock.add(1, 2),
        Err(Failure::UnexpectedCall { operation: Operation::Add, x: 1, y: 2 })
    );
    assert_eq!(
        mock.subtract(3, 4),
        Err(Failure::UnexpectedCall { operation: Operation::Subtract, x: 3, y: 4 })
    );
    assert_eq!(
        mock.multiply(5, 6),
        Err(Failure::UnexpectedCall { operation: Operation::Multiply, x: 5, y: 6 })
    );
    assert_eq!(
        mock.divide(7, 0),
        Err(Failure::UnexpectedCall { operation: Operation::Divide, x: 7, y: 0 })
    );
}

#[test]
fn fresh_expectation_accepts_anything_once_and_answers_zero() {
    let mut mock = MockI32Calculator::new();
    mock.expect_multiply();
    assert_eq!(mock.len(), 1);
    let fresh = mock.expectation(0).unwrap();
    assert_eq!(fresh.operation(), Operation::Multiply);
    assert_eq!(fresh.matchers(), (Matcher::Any, Matcher::Any));
    assert_eq!(fresh.expected_calls(), 1);
    assert_eq!(fresh.value(), 0);
    assert_eq!(fresh.calls(), 0);
    assert!(!fresh.is_satisfied());

    assert_eq!(mock.multiply(-17, 4), Ok(0));
    assert_eq!(
        mock.multiply(-17, 4),
        Err(Failure::UnexpectedCall { operation: Operation::Multiply, x: -17, y: 4 })
    );
    assert_eq!(mock.verify(), Ok(()));
}

#[test]
fn each_method_reaches_its_own_expectations() {
    let mut mock = MockI32Calculator::new();
    mock.expect_divide().return_const(4);
    mock.expect_multiply().return_const(3);
    mock.expect_subtract().return_const(2);
    mock.expect_add().return_const(1);
    assert_eq!(mock.add(0, 0), Ok(1));
    assert_eq!(mock.subtract(0, 0), Ok(2));
    assert_eq!(mock.multiply(0, 0), Ok(3));
    assert_eq!(mock.divide(0, 0), Ok(4));
    assert_eq!(mock.verify(), Ok(()));
}

#[test]
fn call_goes_through_the_same_rules_as_the_methods() {
    let mut mock = MockI32Calculator::new();
    mock.expect(Operation::Subtract).with(eq(9), eq(4)).return_const(5);
    assert_eq!(mock.call(Operation::Subtract, 9, 4), Ok(5));
    assert_eq!(
        mock.call(Operation::Subtract, 9, 4),
        Err(Failure::UnexpectedCall { operation: Operation::Subtract, x: 9, y: 4 })
    );
}

#[test]
fn wrong_method_is_unexpected() {
    let mut mock = MockI32Calculator::new();
    mock.expect_add().with(eq(1), eq(2)).return_const(3);
    assert_eq!(
        mock.subtract(1, 2),
        Err(Failure::UnexpectedCall { operation: Operation::Subtract, x: 1, y: 2 })
    );
    assert_eq!(mock.expectation(0).unwrap().calls(), 0);
}

#[test]
fn wrong_arguments_are_unexpected() {
    let mut mock = MockI32Calculator::new();
    mock.expect_add().with(eq(1), eq(2)).return_const(3);
    assert_eq!(
        mock.add(2, 1),
        Err(Failure::UnexpectedCall { operation: Operation::Add, x: 2, y: 1 })
    );
    assert_eq!(
        mock.add(1, 3),
        Err(Failure::UnexpectedCall { operation: Operation::Add, x: 1, y: 3 })
    );
    assert_eq!(mock.expectation(0).unwrap().calls(), 0);
    assert_eq!(mock.add(1, 2), Ok(3));
    assert_eq!(mock.expectation(0).unwrap().calls(), 1);
}

#[test]
fn exceeding_the_count_is_unexpected() {
    let mut mock = MockI32Calculator::new();
    mock.expect_divide().times(3).with(eq(8), eq(2)).return_const(4);
    assert_eq!(mock.divide(8, 2), Ok(4));
    assert_eq!(mock.divide(8, 2), Ok(4));
    assert_eq!(
        mock.verify(),
        Err(Failure::Unsatisfied { operation: Operation::Divide, index: 0 })
    );
    assert_eq!(mock.divide(8, 2), Ok(4));
    assert_eq!(mock.verify(), Ok(()));
    assert_eq!(
        mock.divide(8, 2),
        Err(Failure::UnexpectedCall { operation: Operation::Divide, x: 8, y: 2 })
    );
    assert_eq!(mock.expectation(0).unwrap().calls(), 3);
    assert_eq!(mock.verify(), Ok(()));
}

#[test]
fn expectation_of_no_call_never_answers() {
    let mut mock = MockI32Calculator::new();
    mock.expect_add().times(0).return_const(1);
    assert_eq!(mock.verify(), Ok(()));
    assert_eq!(
        mock.add(1, 1),
        Err(Failure::UnexpectedCall { operation: Operation::Add, x: 1, y: 1 })
    );
    assert_eq!(mock.verify(), Ok(()));
}

#[test]
fn wildcard_matches_every_value() {
    let mut mock = MockI32Calculator::new();
    mock.expect_add().times(4).with(always(), eq(0)).return_const(11);
    for x in [i32::MIN, -1, 0, i32::MAX] {
        assert_eq!(mock.add(x, 0), Ok(11));
    }
    assert_eq!(mock.verify(), Ok(()));
}

#[test]
fn uncalled_expectation_fails_verification() {
    let mut mock = MockI32Calculator::new();
    mock.expect_subtract().times(1).with(eq(3), eq(1)).return_const(2);
    assert_eq!(
        mock.verify(),
        Err(Failure::Unsatisfied { operation: Operation::Subtract, index: 0 })
    );
}

#[test]
fn verification_names_the_first_unsatisfied_expectation() {
    let mut mock = MockI32Calculator::new();
    mock.expect_add().return_const(1);
    mock.expect_multiply().return_const(2);
    mock.expect_divide().return_const(3);
    assert_eq!(mock.add(0, 0), Ok(1));
    assert_eq!(
        mock.verify(),
        Err(Failure::Unsatisfied { operation: Operation::Multiply, index: 1 })
    );
    assert_eq!(mock.multiply(0, 0), Ok(2));
    assert_eq!(
        mock.verify(),
        Err(Failure::Unsatisfied { operation: Operation::Divide, index: 2 })
    );
    assert_eq!(mock.divide(0, 0), Ok(3));
    assert_eq!(mock.verify(), Ok(()));
}

#[test]
fn arguments_matching_only_the_second_expectation_select_it() {
    let mut mock = MockI32Calculator::new();
    mock.expect_add().with(eq(1), eq(1)).return_const(2);
    mock.expect_add().with(eq(2), eq(2)).return_const(4);
    assert_eq!(mock.add(2, 2), Ok(4));

    let first = mock.expectation(0).unwrap();
    assert_eq!(first.calls(), 0);
    assert!(!first.is_satisfied());
    let second = mock.expectation(1).unwrap();
    assert_eq!(second.calls(), 1);
    assert!(second.is_satisfied());
    assert_eq!(mock.verify(), Err(Failure::Unsatisfied { operation: Operation::Add, index: 0 }));

    // The first is still there to answer its own call.
    assert_eq!(mock.add(1, 1), Ok(2));
    assert_eq!(mock.verify(), Ok(()));
}

#[test]
fn second_expectation_of_no_call_is_not_selected() {
    let mut mock = MockI32Calculator::new();
    mock.expect_add().with(eq(1), eq(1)).return_const(2);
    mock.expect_add().times(0).with(eq(2), eq(2)).return_const(4);
    assert_eq!(
        mock.add(2, 2),
        Err(Failure::UnexpectedCall { operation: Operation::Add, x: 2, y: 2 })
    );
    assert_eq!(mock.expectation(0).unwrap().calls(), 0);
    assert_eq!(mock.expectation(1).unwrap().calls(), 0);
}

#[test]
fn matching_expectations_answer_in_registration_order() {
    let mut mock = MockI32Calculator::new();
    mock.expect_add().with(always(), always()).return_const(10);
    mock.expect_add().with(eq(1), eq(1)).return_const(20);
    mock.expect_add().times(2).with(always(), eq(1)).return_const(30);
    assert_eq!(mock.add(1, 1), Ok(10));
    assert_eq!(mock.add(1, 1), Ok(20));
    assert_eq!(mock.add(1, 1), Ok(30));
    assert_eq!(mock.add(5, 1), Ok(30));
    assert_eq!(
        mock.add(1, 1),
        Err(Failure::UnexpectedCall { operation: Operation::Add, x: 1, y: 1 })
    );
    assert_eq!(mock.verify(), Ok(()));
}

#[test]
fn unexpected_call_changes_nothing() {
    let mut mock = MockI32Calculator::new();
    mock.expect_add().times(2).with(eq(1), eq(1)).return_const(2);
    assert_eq!(mock.add(1, 1), Ok(2));
    assert!(mock.add(1, 2).is_err());
    assert!(mock.multiply(1, 1).is_err());
    assert_eq!(mock.len(), 1);
    assert_eq!(mock.expectation(0).unwrap().calls(), 1);
    assert_eq!(mock.add(1, 1), Ok(2));
    assert_eq!(mock.verify(), Ok(()));
}

#[test]
fn lone_expectation_answers_and_counts() {
    let mut expectation = Expectation::new(Operation::Divide);
    expectation.times(2).with(eq(9), eq(3)).return_const(3);
    assert_eq!(expectation.operation(), Operation::Divide);
    assert_eq!(expectation.answer(Operation::Divide, 9, 4), None);
    assert_eq!(expectation.answer(Operation::Multiply, 9, 3), None);
    assert_eq!(expectation.calls(), 0);
    assert_eq!(expectation.answer(Operation::Divide, 9, 3), Some(3));
    assert_eq!(expectation.calls(), 1);
    assert!(!expectation.is_satisfied());
    assert_eq!(expectation.answer(Operation::Divide, 9, 3), Some(3));
    assert!(expectation.is_satisfied());
    assert_eq!(expectation.answer(Operation::Divide, 9, 3), None);
    assert_eq!(expectation.calls(), 2);
}

#[test]
fn later_settings_replace_earlier_ones() {
    let mut mock = MockI32Calculator::new();
    mock.expect_add()
        .times(5)
        .with(eq(1), eq(1))
        .return_const(7)
        .times(1)
        .with(eq(2), always())
        .return_const(8);
    let configured = mock.expectation(0).unwrap();
    assert_eq!(configured.matchers(), (Matcher::Exactly(2), Matcher::Any));
    assert_eq!(configured.expected_calls(), 1);
    assert_eq!(configured.value(), 8);
    assert!(mock.add(1, 1).is_err());
    assert_eq!(mock.add(2, 40), Ok(8));
    assert_eq!(mock.verify(), Ok(()));
}
