use homematic_rs::output::message::OutputServiceMessage;
use homematic_rs::{decode_service_messages, DecodeError, ExpectedKind, ServiceMessage, Value};

fn text(s: &str) -> Value {
    Value::String(s.to_string())
}

#[test]
fn lowbat_message_decodes() {
    let wire = Value::Array(vec![text("ABC1234:1"), text("LOWBAT"), Value::Bool(true)]);
    let message = ServiceMessage::decode(&wire).unwrap();
    assert_eq!(message.address(), "ABC1234:1");
    assert_eq!(message.id(), "LOWBAT");
    assert_eq!(message.value(), &Value::Bool(true));
    assert_eq!(message.0, "ABC1234:1");
    assert_eq!(message.1, "LOWBAT");
    assert_eq!(message.2, Value::Bool(true));
}

#[test]
fn two_elements_are_an_arity_error() {
    let wire = Value::Array(vec![text("ABC1234:1"), text("LOWBAT")]);
    assert_eq!(ServiceMessage::decode(&wire).unwrap_err(), DecodeError::ArityError(3, 2));
}

#[test]
fn other_lengths_are_arity_errors() {
    assert_eq!(
        ServiceMessage::decode(&Value::Array(vec![])).unwrap_err(),
        DecodeError::ArityError(3, 0)
    );
    assert_eq!(
        ServiceMessage::decode(&Value::Array(vec![Value::Int(1)])).unwrap_err(),
        DecodeError::ArityError(3, 1)
    );
    let four = Value::Array(vec![text("A"), text("B"), Value::Nil, Value::Nil]);
    assert_eq!(ServiceMessage::decode(&four).unwrap_err(), DecodeError::ArityError(3, 4));
}

#[test]
fn the_first_two_positions_must_be_strings() {
    let wire = Value::Array(vec![Value::Int(1), Value::Int(2), Value::Int(3)]);
    assert_eq!(
        ServiceMessage::decode(&wire).unwrap_err(),
        DecodeError::TypeMismatch("0".to_string(), ExpectedKind::String)
    );
    let wire = Value::Array(vec![text("A"), Value::Bool(true), Value::Int(3)]);
    assert_eq!(
        ServiceMessage::decode(&wire).unwrap_err(),
        DecodeError::TypeMismatch("1".to_string(), ExpectedKind::String)
    );
}

#[test]
fn a_value_that_is_no_list_is_refused() {
    for wire in [Value::Nil, text("x"), Value::Struct(vec![])] {
        assert_eq!(
            ServiceMessage::decode(&wire).unwrap_err(),
            DecodeError::TypeMismatch(String::new(), ExpectedKind::Array)
        );
    }
}

#[test]
fn the_value_passes_through_untouched() {
    let nested = Value::Struct(vec![
        ("a".to_string(), Value::Array(vec![Value::Int(7), Value::Double(0x4059_0000_0000_0000)])),
        ("b".to_string(), Value::Binary(vec![0, 255])),
        ("c".to_string(), Value::DateTime("20240101T10:00:00".to_string())),
        ("a".to_string(), Value::Nil),
    ]);
    let wire = Value::Array(vec![text("X:0"), text("CONFIG_PENDING"), nested.clone()]);
    let message = ServiceMessage::decode(&wire).unwrap();
    assert_eq!(message.value(), &nested);
}

#[test]
fn message_list_decodes_in_order() {
    let wire = Value::Array(vec![
        Value::Array(vec![text("A:0"), text("UNREACH"), Value::Bool(true)]),
        Value::Array(vec![text("B:0"), text("LOWBAT"), Value::Int(1)]),
    ]);
    let messages = decode_service_messages(&wire).unwrap();
    assert_eq!(messages.len(), 2);
    assert_eq!(messages[0].id(), "UNREACH");
    assert_eq!(messages[1].address(), "B:0");
    assert!(decode_service_messages(&Value::Array(vec![])).unwrap().is_empty());
}

#[test]
fn message_list_gives_the_first_error() {
    let wire = Value::Array(vec![
        Value::Array(vec![text("A:0"), text("UNREACH"), Value::Bool(true)]),
        Value::Array(vec![text("B:0"), text("LOWBAT")]),
        Value::Int(5),
    ]);
    assert_eq!(decode_service_messages(&wire).unwrap_err(), DecodeError::ArityError(3, 2));
    assert_eq!(
        decode_service_messages(&Value::Int(5)).unwrap_err(),
        DecodeError::TypeMismatch(String::new(), ExpectedKind::Array)
    );
}

#[test]
fn shown_message_names_its_parts() {
    let message = ServiceMessage("A:1".to_string(), "LOWBAT".to_string(), Value::Bool(true));
    let shown = OutputServiceMessage::from(message);
    assert_eq!(shown.address, "A:1");
    assert_eq!(shown.id, "LOWBAT");
    assert_eq!(shown.value, Value::Bool(true));
}

#[test]
fn shown_messages_keep_their_order() {
    let messages = vec![
        ServiceMessage("A:1".to_string(), "LOWBAT".to_string(), Value::Bool(true)),
        ServiceMessage("B:1".to_string(), "UNREACH".to_string(), Value::Int(2)),
        ServiceMessage("C:1".to_string(), "STICKY_UNREACH".to_string(), Value::Nil),
    ];
    let shown = OutputServiceMessage::from_list(messages);
    let ids: Vec<&str> = shown.iter().map(|m| m.id.as_str()).collect();
    assert_eq!(ids, vec!["LOWBAT", "UNREACH", "STICKY_UNREACH"]);
    assert_eq!(shown[2].address, "C:1");
    assert!(OutputServiceMessage::from_list(vec![]).is_empty());
}
