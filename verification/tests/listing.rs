use homematic_rs::listing::{device_table, find_device, make_row, render_device_table};
use homematic_rs::text::join_texts;
use homematic_rs::{DeviceDescription, DeviceFlags};

fn entry(ty: &str, address: &str, parent: &str, children: &[&str], paramsets: &[&str]) -> DeviceDescription {
    DeviceDescription {
        ty: ty.to_string(),
        address: address.to_string(),
        rf_address: None,
        children: children.iter().map(|s| s.to_string()).collect(),
        parent: parent.to_string(),
        parent_type: None,
        index: None,
        aes_enabled: false,
        paramsets: paramsets.iter().map(|s| s.to_string()).collect(),
        firmware: None,
        available_firmware: None,
        updatable: false,
        version: None,
        flags: DeviceFlags::from_bits_truncate(1),
        link_source_roles: None,
        link_target_roles: None,
        direction: None,
        group: None,
        team: None,
        team_tag: None,
        team_channels: None,
        interface: None,
        roaming: None,
        rx_mode: None,
    }
}

fn sample() -> Vec<DeviceDescription> {
    vec![
        entry("HM-CC-RT-DN", "EQ1", "", &["EQ1:0", "EQ1:9", "", "EQ1:1"], &["MASTER"]),
        entry("MAINTENANCE", "EQ1:0", "EQ1", &[], &["MASTER", "VALUES"]),
        entry("CLIMATECONTROL_RT_TRANSCEIVER", "EQ1:1", "EQ1", &[], &["LINK", "MASTER", "VALUES"]),
        entry("HM-LC-Sw1-Pl", "EQ2", "", &[], &[]),
        entry("ORPHAN", "EQ3:1", "EQ3", &[], &["VALUES"]),
    ]
}

fn cells(table: &homematic_rs::listing::DeviceTable) -> Vec<(String, String, String)> {
    table.rows.iter().map(|r| (r.ty.clone(), r.address.clone(), r.paramsets.clone())).collect()
}

fn row(ty: &str, address: &str, paramsets: &str) -> (String, String, String) {
    (ty.to_string(), address.to_string(), paramsets.to_string())
}

#[test]
fn devices_only() {
    let table = device_table(&sample(), false);
    assert_eq!(cells(&table), vec![row("HM-CC-RT-DN", "EQ1", "MASTER"), row("HM-LC-Sw1-Pl", "EQ2", "")]);
    assert!(table.unknown.is_empty());
}

#[test]
fn devices_with_their_channels() {
    let table = device_table(&sample(), true);
    assert_eq!(
        cells(&table),
        vec![
            row("HM-CC-RT-DN", "EQ1", "MASTER"),
            row("    MAINTENANCE", "EQ1:0", "MASTER, VALUES"),
            row("    CLIMATECONTROL_RT_TRANSCEIVER", "EQ1:1", "LINK, MASTER, VALUES"),
            row("HM-LC-Sw1-Pl", "EQ2", ""),
        ]
    );
    assert_eq!(table.unknown, vec!["EQ1:9".to_string()]);
}

#[test]
fn empty_list_gives_an_empty_table() {
    let table = device_table(&vec![], true);
    assert!(table.rows.is_empty());
    assert!(table.unknown.is_empty());
}

#[test]
fn a_child_may_resolve_to_any_entry() {
    let devices = vec![
        entry("A", "A", "", &["B", "A"], &["X"]),
        entry("B", "B", "", &[], &["Y", "Z"]),
    ];
    let table = device_table(&devices, true);
    assert_eq!(
        cells(&table),
        vec![row("A", "A", "X"), row("    B", "B", "Y, Z"), row("    A", "A", "X"), row("B", "B", "Y, Z")]
    );
}

#[test]
fn the_last_entry_of_an_address_resolves() {
    let devices = vec![
        entry("D", "D", "", &["D:1"], &[]),
        entry("FIRST", "D:1", "D", &[], &["LINK"]),
        entry("SECOND", "D:1", "D", &[], &["VALUES"]),
    ];
    assert_eq!(find_device(&devices, &"D:1".to_string()).unwrap().ty, "SECOND");
    assert_eq!(find_device(&devices, &"D".to_string()).unwrap().ty, "D");
    assert!(find_device(&devices, &"D:2".to_string()).is_none());
    assert!(find_device(&devices, &"".to_string()).is_none());
    let table = device_table(&devices, true);
    assert_eq!(cells(&table), vec![row("D", "D", ""), row("    SECOND", "D:1", "VALUES")]);
}

#[test]
fn unknown_children_are_noted_in_order() {
    let devices = vec![
        entry("A", "A", "", &["A:2", "", "A:1"], &[]),
        entry("B", "B", "", &["A:2"], &[]),
    ];
    let table = device_table(&devices, true);
    assert_eq!(table.unknown, vec!["A:2".to_string(), "A:1".to_string(), "A:2".to_string()]);
    assert_eq!(cells(&table), vec![row("A", "A", ""), row("B", "B", "")]);
    assert!(device_table(&devices, false).unknown.is_empty());
}

#[test]
fn joined_texts() {
    let list = |items: &[&str]| -> Vec<String> { items.iter().map(|s| s.to_string()).collect() };
    assert_eq!(join_texts(&list(&[]), ", "), "");
    assert_eq!(join_texts(&list(&["MASTER"]), ", "), "MASTER");
    assert_eq!(join_texts(&list(&["MASTER", "VALUES"]), ", "), "MASTER, VALUES");
    assert_eq!(join_texts(&list(&["a", "", "b"]), "-"), "a--b");
    assert_eq!(join_texts(&list(&["", ""]), ", "), ", ");
    assert_eq!(join_texts(&list(&["a", "b", "c"]), ""), "abc");
    for items in [vec![], vec!["x"], vec!["x", "y", "z"], vec!["", "ä", ""]] {
        assert_eq!(join_texts(&list(&items), ", "), items.join(", "));
    }
}

#[test]
fn rows() {
    let device = entry("T", "A:1", "A", &[], &["MASTER", "VALUES"]);
    let plain = make_row(&device, "");
    assert_eq!((plain.ty.as_str(), plain.address.as_str(), plain.paramsets.as_str()), ("T", "A:1", "MASTER, VALUES"));
    let indented = make_row(&device, "    ");
    assert_eq!(indented.ty, "    T");
}

#[test]
fn table_text() {
    let table = device_table(&sample(), true);
    let text = render_device_table(&table);
    let expected = [
        " TYPE                               ADDRESS  PARAMSETS            ",
        " HM-CC-RT-DN                        EQ1      MASTER               ",
        "     MAINTENANCE                    EQ1:0    MASTER, VALUES       ",
        "     CLIMATECONTROL_RT_TRANSCEIVER  EQ1:1    LINK, MASTER, VALUES ",
        " HM-LC-Sw1-Pl                       EQ2                           ",
    ];
    assert_eq!(text.lines().collect::<Vec<_>>(), expected);
    assert_eq!(text, expected.join("\n"));
}

#[test]
fn table_text_of_no_devices_is_the_header() {
    let table = device_table(&vec![], true);
    assert_eq!(render_device_table(&table), " TYPE  ADDRESS  PARAMSETS ");
}
