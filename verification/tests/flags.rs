use homematic_rs::de::{deserialize_bool, deserialize_bool_option};
use homematic_rs::flags::{
    DeviceDeleteFlags, DeviceFlags, RxMode, DELETE_DEFER, DELETE_FLAGS_ALL, DELETE_FORCE,
    DELETE_RESET, DEVICE_FLAGS_ALL, DONT_DELETE, INTERNAL, RX_MODE_ALL, VISIBLE,
};
use homematic_rs::{InstallMode, BIDCOS_RF_PORT, BIDCOS_WIRED_PORT};

fn samples() -> Vec<i32> {
    let mut all: Vec<i32> = (-300..300).collect();
    all.extend([i32::MIN, i32::MIN + 1, i32::MAX, i32::MAX - 1, 0x7FFF_FFF4, -0x7FFF_FFF5]);
    all
}

#[test]
fn display_flags_depend_on_their_own_bit_only() {
    for x in samples() {
        let flags = DeviceFlags::from_bits_truncate(x);
        assert_eq!(flags.contains(VISIBLE), x & 1 != 0, "visible of {x}");
        assert_eq!(flags.contains(INTERNAL), x & 2 != 0, "internal of {x}");
        assert_eq!(!flags.contains(DONT_DELETE), x & 8 == 0, "deletable of {x}");
    }
}

#[test]
fn display_flags_drop_unknown_bits() {
    assert_eq!(DeviceFlags::from_bits_truncate(0xFF).bits(), 0xB);
    assert_eq!(DeviceFlags::from_bits_truncate(0x4).bits(), 0);
    assert_eq!(DeviceFlags::from_bits_truncate(-1).bits(), DEVICE_FLAGS_ALL);
    assert_eq!(DeviceFlags::from_bits_truncate(0x9).bits(), 0x9);
    for x in samples() {
        assert_eq!(
            DeviceFlags::from_bits_truncate(x | 0x7FF0).bits(),
            DeviceFlags::from_bits_truncate(x).bits()
        );
    }
}

#[test]
fn display_flags_of_zero_are_empty() {
    let flags = DeviceFlags::from_bits_truncate(0);
    assert!(!flags.contains(VISIBLE));
    assert!(!flags.contains(INTERNAL));
    assert!(!flags.contains(DONT_DELETE));
    assert!(flags.contains(0));
}

#[test]
fn rx_mode_queries_read_their_bits() {
    for x in samples() {
        let mode = RxMode::from_bits_truncate(x);
        assert_eq!(mode.always(), x & 0x1 != 0);
        assert_eq!(mode.burst(), x & 0x2 != 0);
        assert_eq!(mode.config(), x & 0x4 != 0);
        assert_eq!(mode.wakeup(), x & 0x8 != 0);
        assert_eq!(mode.lazy_config(), x & 0x10 != 0);
        assert_eq!(mode.bits(), x & RX_MODE_ALL);
    }
}

#[test]
fn rx_mode_single_values() {
    let mode = RxMode::from_bits_truncate(0x12);
    assert!(!mode.always());
    assert!(mode.burst());
    assert!(!mode.config());
    assert!(!mode.wakeup());
    assert!(mode.lazy_config());
    assert_eq!(RxMode::from_bits_truncate(0x20).bits(), 0);
    assert_eq!(RxMode::from_bits_truncate(0x3F).bits(), 0x1F);
}

#[test]
fn delete_flags_encode_each_option() {
    assert_eq!(DeviceDeleteFlags::empty().bits(), 0);
    assert_eq!(DeviceDeleteFlags::new(false, false, false).bits(), 0);
    assert_eq!(DeviceDeleteFlags::new(true, false, false).bits(), 1);
    assert_eq!(DeviceDeleteFlags::new(false, true, false).bits(), 2);
    assert_eq!(DeviceDeleteFlags::new(false, false, true).bits(), 4);
    assert_eq!(DeviceDeleteFlags::new(true, false, true).bits(), 5);
    assert_eq!(DeviceDeleteFlags::new(true, true, true).bits(), 7);
    assert_eq!(DELETE_RESET | DELETE_FORCE | DELETE_DEFER, DELETE_FLAGS_ALL);
}

#[test]
fn delete_flags_union_and_contains() {
    let reset = DeviceDeleteFlags::new(true, false, false);
    let force = DeviceDeleteFlags::new(false, true, false);
    let both = reset.union(force);
    assert_eq!(both.bits(), 3);
    assert!(both.contains(reset));
    assert!(both.contains(force));
    assert!(!reset.contains(force));
    assert!(!both.contains(DeviceDeleteFlags::new(false, false, true)));
    assert!(reset.contains(DeviceDeleteFlags::empty()));
    assert_eq!(both.union(DeviceDeleteFlags::empty()).bits(), 3);
}

#[test]
fn delete_flags_truncate() {
    assert_eq!(DeviceDeleteFlags::from_bits_truncate(0xFF).bits(), 7);
    assert_eq!(DeviceDeleteFlags::from_bits_truncate(8).bits(), 0);
    assert_eq!(DeviceDeleteFlags::from_bits_truncate(-1).bits(), 7);
    for x in samples() {
        assert_eq!(DeviceDeleteFlags::from_bits_truncate(x).bits(), x & 7);
    }
}

#[test]
fn install_mode_codes() {
    assert_eq!(InstallMode::Normal.code(), 1);
    assert_eq!(InstallMode::Reset.code(), 2);
}

#[test]
fn ports() {
    assert_eq!(BIDCOS_WIRED_PORT, 2001);
    assert_eq!(BIDCOS_RF_PORT, 2010);
}

#[test]
fn integer_booleans() {
    assert!(!deserialize_bool(0));
    assert!(deserialize_bool(1));
    assert!(deserialize_bool(-1));
    assert!(deserialize_bool(i32::MIN));
    assert_eq!(deserialize_bool_option(None), None);
    assert_eq!(deserialize_bool_option(Some(0)), Some(false));
    assert_eq!(deserialize_bool_option(Some(7)), Some(true));
}
