use homematic_rs::field::{
    optional_bool, optional_int, optional_string, optional_string_list, required_bool,
    required_byte, required_double, required_int, required_string, required_string_list,
    value_bool, value_byte, value_double, value_int, value_string, value_string_list,
};
use homematic_rs::value::find_member;
use homematic_rs::{DecodeError, ExpectedKind, Value};

fn text(s: &str) -> Value {
    Value::String(s.to_string())
}

fn members() -> Vec<(String, Value)> {
    vec![
        ("S".to_string(), text("one")),
        ("I".to_string(), Value::Int(-7)),
        ("B".to_string(), Value::Bool(true)),
        ("D".to_string(), Value::Double(2.5f64.to_bits())),
        ("L".to_string(), Value::Array(vec![text("a"), text("b")])),
        ("S".to_string(), text("two")),
        ("N".to_string(), Value::Nil),
        ("".to_string(), Value::Int(0)),
    ]
}

#[test]
fn first_member_of_a_name_is_found() {
    let m = members();
    assert_eq!(find_member(&m, "S"), Some(&text("one")));
    assert_eq!(find_member(&m, "I"), Some(&Value::Int(-7)));
    assert_eq!(find_member(&m, ""), Some(&Value::Int(0)));
    assert_eq!(find_member(&m, "s"), None);
    assert_eq!(find_member(&m, "X"), None);
    assert_eq!(find_member(&vec![], "S"), None);
}

#[test]
fn clone_is_deep() {
    let value = Value::Struct(vec![
        ("a".to_string(), Value::Array(vec![Value::Nil, Value::Bool(false), Value::Int(3)])),
        ("b".to_string(), Value::Struct(vec![("c".to_string(), Value::Binary(vec![1, 2, 3]))])),
        ("d".to_string(), Value::DateTime("19980717T14:08:55".to_string())),
        ("e".to_string(), Value::Double(u64::MAX)),
        ("f".to_string(), text("x")),
    ]);
    assert_eq!(value.clone(), value);
    assert_ne!(value.clone(), Value::Struct(vec![]));
    for simple in [Value::Nil, Value::Int(1), Value::Array(vec![]), Value::Struct(vec![])] {
        assert_eq!(simple.clone(), simple);
    }
}

#[test]
fn single_values_are_read_by_kind() {
    assert_eq!(value_string(&text("x")), Ok("x".to_string()));
    assert_eq!(value_string(&Value::DateTime("x".to_string())), Err(ExpectedKind::String));
    assert_eq!(value_int(&Value::Int(5)), Ok(5));
    assert_eq!(value_int(&Value::Double(5)), Err(ExpectedKind::Int));
    assert_eq!(value_bool(&Value::Bool(false)), Ok(false));
    assert_eq!(value_bool(&Value::Int(0)), Err(ExpectedKind::Bool));
    assert_eq!(value_double(&Value::Double(9)), Ok(9));
    assert_eq!(value_double(&Value::Int(9)), Err(ExpectedKind::Double));
    assert_eq!(value_byte(&Value::Int(0)), Ok(0));
    assert_eq!(value_byte(&Value::Int(255)), Ok(255));
    assert_eq!(value_byte(&Value::Int(256)), Err(ExpectedKind::Byte));
    assert_eq!(value_byte(&Value::Int(-1)), Err(ExpectedKind::Byte));
    assert_eq!(value_byte(&Value::Nil), Err(ExpectedKind::Byte));
    assert_eq!(
        value_string_list(&Value::Array(vec![text("a"), text("")])),
        Ok(vec!["a".to_string(), String::new()])
    );
    assert_eq!(value_string_list(&Value::Array(vec![])), Ok(vec![]));
    assert_eq!(value_string_list(&text("a")), Err(ExpectedKind::Array));
    assert_eq!(
        value_string_list(&Value::Array(vec![text("a"), Value::Int(1), Value::Nil])),
        Err(ExpectedKind::String)
    );
}

#[test]
fn required_members() {
    let m = members();
    assert_eq!(required_string(&m, "S"), Ok("one".to_string()));
    assert_eq!(required_int(&m, "I"), Ok(-7));
    assert_eq!(required_bool(&m, "B"), Ok(true));
    assert_eq!(required_double(&m, "D"), Ok(2.5f64.to_bits()));
    assert_eq!(required_string_list(&m, "L"), Ok(vec!["a".to_string(), "b".to_string()]));
    assert_eq!(required_byte(&m, ""), Ok(0));
    assert_eq!(required_string(&m, "X"), Err(DecodeError::MissingField("X".to_string())));
    assert_eq!(
        required_string(&m, "I"),
        Err(DecodeError::TypeMismatch("I".to_string(), ExpectedKind::String))
    );
    assert_eq!(
        required_int(&m, "N"),
        Err(DecodeError::TypeMismatch("N".to_string(), ExpectedKind::Int))
    );
    assert_eq!(
        required_byte(&m, "I"),
        Err(DecodeError::TypeMismatch("I".to_string(), ExpectedKind::Byte))
    );
}

#[test]
fn optional_members() {
    let m = members();
    assert_eq!(optional_string(&m, "S"), Ok(Some("one".to_string())));
    assert_eq!(optional_string(&m, "X"), Ok(None));
    assert_eq!(optional_int(&m, "I"), Ok(Some(-7)));
    assert_eq!(optional_int(&m, "X"), Ok(None));
    assert_eq!(optional_bool(&m, "B"), Ok(Some(true)));
    assert_eq!(optional_bool(&m, "X"), Ok(None));
    assert_eq!(optional_string_list(&m, "L"), Ok(Some(vec!["a".to_string(), "b".to_string()])));
    assert_eq!(optional_string_list(&m, "X"), Ok(None));
    assert_eq!(
        optional_int(&m, "N"),
        Err(DecodeError::TypeMismatch("N".to_string(), ExpectedKind::Int))
    );
    assert_eq!(
        optional_string_list(&m, "S"),
        Err(DecodeError::TypeMismatch("S".to_string(), ExpectedKind::Array))
    );
}
