use tiny_runtime::polish_notation::{CalcError, PolishNotation};

fn test_add(lhs: i64, rhs: i64) {
    let mut p = PolishNotation::new(lhs);
    let _ = p.append(&rhs.to_string());
    assert_eq!(p.append("+").unwrap().unwrap(), lhs + rhs);
}

fn test_sub(lhs: i64, rhs: i64) {
    let mut p = PolishNotation::new(lhs);
    let _ = p.append(&rhs.to_string());
    assert_eq!(p.append("-").unwrap().unwrap(), lhs - rhs);
}

fn test_div(lhs: i64, rhs: i64) {
    let mut p = PolishNotation::new(lhs);
    let _ = p.append(&rhs.to_string());
    assert_eq!(p.append("/").unwrap().unwrap(), lhs / rhs);
}

fn test_mul(lhs: i64, rhs: i64) {
    let mut p = PolishNotation::new(lhs);
    let _ = p.append(&rhs.to_string());
    assert_eq!(p.append("*").unwrap().unwrap(), lhs * rhs);
}

#[test]
fn nominal_case_int() {
    test_add(1, 2);
    test_sub(3, 2);
    test_div(3, 6);
    test_mul(9, 5);
}

#[test]
fn number_token_is_pushed() {
    let mut p = PolishNotation::new(7);
    assert_eq!(p.append("-12"), Ok(None));
    assert_eq!(p.append("+5"), Ok(None));
    assert_eq!(p.stack().clone(), vec![7, -12, 5]);
}

#[test]
fn chained_expression() {
    // 7 3 - 4 * = 16
    let mut p = PolishNotation::new(7);
    assert_eq!(p.append("3"), Ok(None));
    assert_eq!(p.append("-"), Ok(Some(4)));
    assert_eq!(p.stack().clone(), Vec::<i64>::new());
    let mut q = PolishNotation::new(4);
    assert_eq!(q.append("4"), Ok(None));
    assert_eq!(q.append("*"), Ok(Some(16)));
}

#[test]
fn division_truncates_toward_zero() {
    let mut p = PolishNotation::new(-7);
    let _ = p.append("2");
    assert_eq!(p.append("/"), Ok(Some(-3)));
}

#[test]
fn short_stack_is_an_error() {
    let mut p = PolishNotation::new(1);
    assert_eq!(p.append("+"), Err(CalcError::StackTooShort));
    assert_eq!(p.stack().clone(), vec![1]);
    assert_eq!(
        CalcError::StackTooShort.message(),
        "stack length smaller than 2. Calculation failed"
    );
}

#[test]
fn unknown_operator_is_an_error() {
    let mut p = PolishNotation::new(1);
    let _ = p.append("2");
    assert_eq!(p.append("%"), Err(CalcError::NotAnOperator));
    assert_eq!(p.stack().clone(), Vec::<i64>::new());
    assert_eq!(
        CalcError::NotAnOperator.message(),
        "Operators expected. Calculation failed"
    );
}

#[test]
fn division_by_zero_and_overflow_are_errors() {
    let mut p = PolishNotation::new(1);
    let _ = p.append("0");
    assert_eq!(p.append("/"), Err(CalcError::Arithmetic));
    let mut q = PolishNotation::new(i64::MAX);
    let _ = q.append("1");
    assert_eq!(q.append("+"), Err(CalcError::Arithmetic));
}

#[test]
fn out_of_range_number_is_not_a_number() {
    let mut p = PolishNotation::new(1);
    let _ = p.append("2");
    assert_eq!(p.append("99999999999999999999"), Err(CalcError::NotAnOperator));
}
