use homematic_rs::device::value_direction;
use homematic_rs::flags::{DONT_DELETE, INTERNAL, VISIBLE};
use homematic_rs::{
    decode_device_list, ChannelDirection, DecodeError, DeviceDescription, ExpectedKind, Value,
};

fn text(s: &str) -> Value {
    Value::String(s.to_string())
}

fn texts(list: &[&str]) -> Value {
    Value::Array(list.iter().map(|s| text(s)).collect())
}

fn record(members: Vec<(&str, Value)>) -> Value {
    Value::Struct(members.into_iter().map(|(name, value)| (name.to_string(), value)).collect())
}

fn minimal_members() -> Vec<(&'static str, Value)> {
    vec![
        ("ADDRESS", text("EQ0123456")),
        ("TYPE", text("HM-CC-RT-DN")),
        ("PARENT", text("")),
        ("PARAMSETS", texts(&["MASTER", "VALUES"])),
        ("FLAGS", Value::Int(1)),
    ]
}

fn without(name: &str) -> Value {
    record(minimal_members().into_iter().filter(|(n, _)| *n != name).collect())
}

fn with(name: &'static str, value: Value) -> Value {
    let mut members: Vec<(&str, Value)> =
        minimal_members().into_iter().filter(|(n, _)| *n != name).collect();
    members.push((name, value));
    record(members)
}

fn mismatch(name: &str, kind: ExpectedKind) -> DecodeError {
    DecodeError::TypeMismatch(name.to_string(), kind)
}

#[test]
fn minimal_device_decodes() {
    let device = DeviceDescription::decode(&record(minimal_members())).unwrap();
    assert_eq!(device.address, "EQ0123456");
    assert_eq!(device.ty, "HM-CC-RT-DN");
    assert_eq!(device.parent, "");
    assert_eq!(device.paramsets, vec!["MASTER".to_string(), "VALUES".to_string()]);
    assert!(device.is_visible());
    assert!(!device.is_internal());
    assert!(device.is_deletable());
}

#[test]
fn minimal_device_has_the_defaults() {
    let device = DeviceDescription::decode(&record(minimal_members())).unwrap();
    assert_eq!(device.rf_address, None);
    assert!(device.children.is_empty());
    assert_eq!(device.parent_type, None);
    assert_eq!(device.index, None);
    assert!(!device.aes_enabled);
    assert_eq!(device.firmware, None);
    assert_eq!(device.available_firmware, None);
    assert!(!device.updatable);
    assert_eq!(device.version, None);
    assert_eq!(device.link_source_roles, None);
    assert_eq!(device.link_target_roles, None);
    assert_eq!(device.direction, None);
    assert_eq!(device.group, None);
    assert_eq!(device.team, None);
    assert_eq!(device.team_tag, None);
    assert_eq!(device.team_channels, None);
    assert_eq!(device.interface, None);
    assert_eq!(device.roaming, None);
    assert!(device.rx_mode.is_none());
}

#[test]
fn full_device_decodes() {
    let value = record(vec![
        ("TYPE", text("HM-LC-Sw1-Pl")),
        ("ADDRESS", text("JEQ0123456")),
        ("RF_ADDRESS", Value::Int(1234567)),
        ("CHILDREN", texts(&["JEQ0123456:0", "JEQ0123456:1"])),
        ("PARENT", text("")),
        ("PARENT_TYPE", text("")),
        ("INDEX", Value::Int(0)),
        ("AES_ACTIVE", Value::Int(1)),
        ("PARAMSETS", texts(&["MASTER"])),
        ("FIRMWARE", text("1.9")),
        ("AVAILABLE_FIRMWARE", text("2.0")),
        ("UPDATABLE", Value::Bool(true)),
        ("VERSION", Value::Int(12)),
        ("FLAGS", Value::Int(0xB)),
        ("LINK_SOURCE_ROLES", text("")),
        ("LINK_TARGET_ROLES", text("SWITCH WCS_TIPTRONIC_SENSOR")),
        ("DIRECTION", Value::Int(2)),
        ("GROUP", text("JEQ0123456:2")),
        ("TEAM", text("*JEQ0123456")),
        ("TEAM_TAG", text("smoke")),
        ("TEAM_CHANNELS", texts(&["A:1", "B:1"])),
        ("INTERFACE", text("KEQ0000001")),
        ("ROAMING", Value::Int(0)),
        ("RX_MODE", Value::Int(0x0C)),
    ]);
    let device = DeviceDescription::decode(&value).unwrap();
    assert_eq!(device.ty, "HM-LC-Sw1-Pl");
    assert_eq!(device.address, "JEQ0123456");
    assert_eq!(device.rf_address, Some(1234567));
    assert_eq!(device.children, vec!["JEQ0123456:0".to_string(), "JEQ0123456:1".to_string()]);
    assert_eq!(device.parent, "");
    assert_eq!(device.parent_type, Some(String::new()));
    assert_eq!(device.index, Some(0));
    assert!(device.aes_enabled);
    assert_eq!(device.paramsets, vec!["MASTER".to_string()]);
    assert_eq!(device.firmware, Some("1.9".to_string()));
    assert_eq!(device.available_firmware, Some("2.0".to_string()));
    assert!(device.updatable);
    assert_eq!(device.version, Some(12));
    assert!(device.is_visible());
    assert!(device.is_internal());
    assert!(!device.is_deletable());
    assert_eq!(device.flags.bits(), 0xB);
    assert_eq!(device.link_source_roles, Some(Vec::<String>::new()));
    assert_eq!(
        device.link_target_roles,
        Some(vec!["SWITCH".to_string(), "WCS_TIPTRONIC_SENSOR".to_string()])
    );
    assert_eq!(device.direction, Some(ChannelDirection::Receiver));
    assert_eq!(device.group, Some("JEQ0123456:2".to_string()));
    assert_eq!(device.team, Some("*JEQ0123456".to_string()));
    assert_eq!(device.team_tag, Some("smoke".to_string()));
    assert_eq!(device.team_channels, Some(vec!["A:1".to_string(), "B:1".to_string()]));
    assert_eq!(device.interface, Some("KEQ0000001".to_string()));
    assert_eq!(device.roaming, Some(false));
    let mode = device.rx_mode.unwrap();
    assert!(!mode.always());
    assert!(!mode.burst());
    assert!(mode.config());
    assert!(mode.wakeup());
    assert!(!mode.lazy_config());
}

#[test]
fn channel_keeps_its_parent() {
    let device = DeviceDescription::decode(&with("PARENT", text("EQ0123456"))).unwrap();
    assert_eq!(device.parent, "EQ0123456");
}

#[test]
fn each_required_member_is_missed() {
    for name in ["TYPE", "ADDRESS", "PARENT", "PARAMSETS", "FLAGS"] {
        assert_eq!(
            DeviceDescription::decode(&without(name)).unwrap_err(),
            DecodeError::MissingField(name.to_string())
        );
    }
}

#[test]
fn empty_struct_misses_the_type_first() {
    assert_eq!(
        DeviceDescription::decode(&record(vec![])).unwrap_err(),
        DecodeError::MissingField("TYPE".to_string())
    );
}

#[test]
fn members_are_read_in_their_order() {
    let value = record(vec![("ADDRESS", Value::Int(1)), ("FLAGS", text("x"))]);
    assert_eq!(
        DeviceDescription::decode(&value).unwrap_err(),
        DecodeError::MissingField("TYPE".to_string())
    );
    let value = record(vec![("FLAGS", text("x")), ("TYPE", text("T")), ("ADDRESS", Value::Int(1))]);
    assert_eq!(DeviceDescription::decode(&value).unwrap_err(), mismatch("ADDRESS", ExpectedKind::String));
    let value = with("RF_ADDRESS", text("1"));
    assert_eq!(
        DeviceDescription::decode(&record(vec![("TYPE", text("T")), ("ADDRESS", text("A")), ("RF_ADDRESS", text("1"))]))
            .unwrap_err(),
        mismatch("RF_ADDRESS", ExpectedKind::Int)
    );
    assert_eq!(DeviceDescription::decode(&value).unwrap_err(), mismatch("RF_ADDRESS", ExpectedKind::Int));
}

#[test]
fn a_value_that_is_no_struct_is_refused() {
    for value in [
        Value::Nil,
        Value::Bool(true),
        Value::Int(1),
        Value::Double(0),
        text("x"),
        Value::DateTime("20240101T00:00:00".to_string()),
        Value::Binary(vec![1, 2]),
        Value::Array(vec![]),
    ] {
        assert_eq!(
            DeviceDescription::decode(&value).unwrap_err(),
            mismatch("", ExpectedKind::Struct)
        );
    }
}

#[test]
fn wrong_kinds_are_refused() {
    let cases = vec![
        ("TYPE", Value::Int(1), ExpectedKind::String),
        ("ADDRESS", Value::Nil, ExpectedKind::String),
        ("RF_ADDRESS", text("1"), ExpectedKind::Int),
        ("CHILDREN", text("A:1"), ExpectedKind::Array),
        ("CHILDREN", Value::Array(vec![text("A:1"), Value::Int(2)]), ExpectedKind::String),
        ("PARENT", Value::Bool(false), ExpectedKind::String),
        ("PARENT_TYPE", Value::Int(0), ExpectedKind::String),
        ("INDEX", Value::Bool(true), ExpectedKind::Int),
        ("AES_ACTIVE", Value::Bool(true), ExpectedKind::Int),
        ("PARAMSETS", record(vec![]), ExpectedKind::Array),
        ("PARAMSETS", Value::Array(vec![Value::Nil]), ExpectedKind::String),
        ("FIRMWARE", Value::Double(1), ExpectedKind::String),
        ("AVAILABLE_FIRMWARE", Value::Int(2), ExpectedKind::String),
        ("UPDATABLE", Value::Int(1), ExpectedKind::Bool),
        ("VERSION", text("1"), ExpectedKind::Int),
        ("FLAGS", Value::Bool(true), ExpectedKind::Int),
        ("FLAGS", Value::Nil, ExpectedKind::Int),
        ("LINK_SOURCE_ROLES", texts(&["SWITCH"]), ExpectedKind::String),
        ("LINK_TARGET_ROLES", Value::Int(0), ExpectedKind::String),
        ("DIRECTION", Value::Int(3), ExpectedKind::Direction),
        ("DIRECTION", Value::Int(-1), ExpectedKind::Direction),
        ("DIRECTION", text("Sender"), ExpectedKind::Direction),
        ("GROUP", Value::Int(0), ExpectedKind::String),
        ("TEAM", Value::Int(0), ExpectedKind::String),
        ("TEAM_TAG", Value::Int(0), ExpectedKind::String),
        ("TEAM_CHANNELS", text("A"), ExpectedKind::Array),
        ("INTERFACE", Value::Int(0), ExpectedKind::String),
        ("ROAMING", Value::Bool(true), ExpectedKind::Int),
        ("RX_MODE", text("1"), ExpectedKind::Int),
        ("RX_MODE", Value::Nil, ExpectedKind::Int),
    ];
    for (name, value, kind) in cases {
        assert_eq!(
            DeviceDescription::decode(&with(name, value)).unwrap_err(),
            mismatch(name, kind),
            "member {name}"
        );
    }
}

#[test]
fn directions() {
    let of = |i: i32| DeviceDescription::decode(&with("DIRECTION", Value::Int(i))).unwrap().direction;
    assert_eq!(of(0), Some(ChannelDirection::NotLinkable));
    assert_eq!(of(1), Some(ChannelDirection::Sender));
    assert_eq!(of(2), Some(ChannelDirection::Receiver));
    assert_eq!(value_direction(&Value::Int(1)), Ok(ChannelDirection::Sender));
    assert_eq!(value_direction(&Value::Int(3)), Err(ExpectedKind::Direction));
    assert_eq!(value_direction(&Value::Bool(true)), Err(ExpectedKind::Direction));
}

#[test]
fn integer_booleans_in_a_device() {
    let aes = |v: i32| DeviceDescription::decode(&with("AES_ACTIVE", Value::Int(v))).unwrap().aes_enabled;
    assert!(!aes(0));
    assert!(aes(1));
    assert!(aes(-3));
    let roaming = |v: i32| DeviceDescription::decode(&with("ROAMING", Value::Int(v))).unwrap().roaming;
    assert_eq!(roaming(0), Some(false));
    assert_eq!(roaming(1), Some(true));
    assert_eq!(roaming(2), Some(true));
    let updatable = |v: bool| DeviceDescription::decode(&with("UPDATABLE", Value::Bool(v))).unwrap().updatable;
    assert!(updatable(true));
    assert!(!updatable(false));
}

#[test]
fn flags_of_a_device_follow_the_raw_integer() {
    for x in [0, 1, 2, 3, 4, 8, 9, 10, 11, 12, 15, 16, 255, -1, -8, i32::MAX, i32::MIN] {
        let device = DeviceDescription::decode(&with("FLAGS", Value::Int(x))).unwrap();
        assert_eq!(device.is_visible(), x & 1 != 0);
        assert_eq!(device.is_internal(), x & 2 != 0);
        assert_eq!(device.is_deletable(), x & 8 == 0);
        assert_eq!(device.flags.bits(), x & 0xB);
        assert_eq!(device.flags.contains(VISIBLE | INTERNAL | DONT_DELETE), x & 0xB == 0xB);
    }
}

#[test]
fn rx_mode_of_a_device_drops_unknown_bits() {
    let device = DeviceDescription::decode(&with("RX_MODE", Value::Int(0xE1))).unwrap();
    let mode = device.rx_mode.unwrap();
    assert_eq!(mode.bits(), 0x01);
    assert!(mode.always());
    assert!(!mode.lazy_config());
}

#[test]
fn role_lists_in_a_device() {
    let device = DeviceDescription::decode(&with("LINK_SOURCE_ROLES", text("SWITCH KEY"))).unwrap();
    assert_eq!(device.link_source_roles, Some(vec!["SWITCH".to_string(), "KEY".to_string()]));
    assert_eq!(device.link_target_roles, None);
    let device = DeviceDescription::decode(&with("LINK_TARGET_ROLES", text(""))).unwrap();
    assert_eq!(device.link_target_roles, Some(vec![]));
    assert_eq!(device.link_source_roles, None);
}

#[test]
fn unknown_members_are_ignored() {
    let device = DeviceDescription::decode(&with("SUBTYPE", text("x"))).unwrap();
    assert_eq!(device.address, "EQ0123456");
}

#[test]
fn member_names_are_case_sensitive() {
    let mut members = minimal_members();
    members.retain(|(n, _)| *n != "FLAGS");
    members.push(("flags", Value::Int(1)));
    assert_eq!(
        DeviceDescription::decode(&record(members)).unwrap_err(),
        DecodeError::MissingField("FLAGS".to_string())
    );
}

#[test]
fn the_first_member_of_a_name_counts() {
    let mut members = minimal_members();
    members.push(("ADDRESS", text("OTHER")));
    members.push(("FLAGS", text("not a number")));
    let device = DeviceDescription::decode(&record(members)).unwrap();
    assert_eq!(device.address, "EQ0123456");
    assert!(device.is_visible());
}

#[test]
fn device_list_decodes_in_order() {
    let list = Value::Array(vec![
        record(minimal_members()),
        with("ADDRESS", text("EQ0123456:1")),
    ]);
    let devices = decode_device_list(&list).unwrap();
    assert_eq!(devices.len(), 2);
    assert_eq!(devices[0].address, "EQ0123456");
    assert_eq!(devices[1].address, "EQ0123456:1");
    assert!(decode_device_list(&Value::Array(vec![])).unwrap().is_empty());
}

#[test]
fn device_list_gives_the_first_error() {
    let list = Value::Array(vec![
        record(minimal_members()),
        without("FLAGS"),
        without("TYPE"),
    ]);
    assert_eq!(decode_device_list(&list).unwrap_err(), DecodeError::MissingField("FLAGS".to_string()));
    assert_eq!(
        decode_device_list(&Value::Array(vec![Value::Int(1)])).unwrap_err(),
        mismatch("", ExpectedKind::Struct)
    );
    assert_eq!(
        decode_device_list(&record(minimal_members())).unwrap_err(),
        mismatch("", ExpectedKind::Array)
    );
}
