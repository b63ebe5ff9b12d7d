use watt::lexer::address::Address;
use watt::vm::ops::{binary, compare, BinaryResult, Value};

fn as_int_value(r: Result<BinaryResult, watt::errors::errors::Error>) -> i64 {
    match r {
        Ok(BinaryResult::Value(Value::Int(i))) => i,
        other => panic!("not an integer: {:?}", other.ok()),
    }
}

fn as_text_value(r: Result<BinaryResult, watt::errors::errors::Error>) -> String {
    match r {
        Ok(BinaryResult::Value(Value::String(s))) => s,
        other => panic!("not a string: {:?}", other.ok()),
    }
}

#[test]
fn computes_integer_arithmetic() {
    let a = Address::unknown();
    assert_eq!(as_int_value(binary("+", &Value::Int(2), &Value::Int(3), a.clone())), 5);
    assert_eq!(as_int_value(binary("-", &Value::Int(2), &Value::Int(3), a.clone())), -1);
    assert_eq!(as_int_value(binary("*", &Value::Int(-4), &Value::Int(3), a.clone())), -12);
    assert_eq!(as_int_value(binary("/", &Value::Int(-6), &Value::Int(3), a.clone())), -2);
    assert_eq!(as_int_value(binary("%", &Value::Int(-7), &Value::Int(2), a.clone())), -1);
    assert_eq!(as_int_value(binary("&", &Value::Int(6), &Value::Int(3), a.clone())), 2);
    assert_eq!(as_int_value(binary("|", &Value::Int(6), &Value::Int(3), a.clone())), 7);
    assert_eq!(as_int_value(binary("^", &Value::Int(6), &Value::Int(3), a.clone())), 5);
    assert!(matches!(binary("/", &Value::Int(-7), &Value::Int(2), a.clone()), Ok(BinaryResult::Quotient(-7, 2))));
}

#[test]
fn reports_division_by_zero_and_bad_operands() {
    let a = Address::unknown();
    let e = binary("/", &Value::Int(1), &Value::Int(0), a.clone()).err().unwrap();
    assert_eq!((e.text.as_str(), e.hint.as_str()), ("division by zero.", "undefined operation."));
    let e = binary("-", &Value::Bool(true), &Value::Int(1), a.clone()).err().unwrap();
    assert_eq!(e.text, "could not use '-' with true and 1");
    let e = compare("<", &Value::Null, &Value::Int(1), a).err().unwrap();
    assert_eq!(e.text, "could not use '<' for Null and 1");
}

#[test]
fn concatenates_strings() {
    let a = Address::unknown();
    assert_eq!(as_text_value(binary("+", &Value::String("ab".into()), &Value::String("cd".into()), a.clone())), "abcd");
    assert_eq!(as_text_value(binary("+", &Value::Int(-3), &Value::String("x".into()), a.clone())), "-3x");
    assert_eq!(as_text_value(binary("+", &Value::String("x".into()), &Value::Null, a.clone())), "xNull");
    assert_eq!(as_text_value(binary("+", &Value::Bool(false), &Value::String("!".into()), a)), "false!");
}

#[test]
fn compares_values() {
    let a = Address::unknown();
    assert_eq!(compare("<", &Value::Int(1), &Value::Int(2), a.clone()).ok(), Some(true));
    assert_eq!(compare(">=", &Value::Int(1), &Value::Int(2), a.clone()).ok(), Some(false));
    assert_eq!(compare("<", &Value::String("ab".into()), &Value::String("b".into()), a.clone()).ok(), Some(true));
    assert_eq!(compare("==", &Value::Null, &Value::Null, a.clone()).ok(), Some(true));
    assert_eq!(compare("==", &Value::Int(1), &Value::String("1".into()), a.clone()).ok(), Some(false));
    assert_eq!(compare("!=", &Value::Int(1), &Value::String("1".into()), a).ok(), Some(true));
}
