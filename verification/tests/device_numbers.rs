use netdev_sandbox::devnum::{
    decompose_device, make_device_number, DEV_MAJOR, ETHERNET_MAJOR, WIRELESS_MAJOR,
};
use netdev_sandbox::DeviceType;

#[test]
fn ethernet_round_trip() {
    let n = make_device_number(ETHERNET_MAJOR, 3);
    assert_eq!(decompose_device(n as u64), Some((DeviceType::Ethernet, 3)));
}

#[test]
fn wireless_round_trip() {
    let n = make_device_number(WIRELESS_MAJOR, 7);
    assert_eq!(decompose_device(n as u64), Some((DeviceType::Wireless, 7)));
}

#[test]
fn exact_packing() {
    assert_eq!(make_device_number(ETHERNET_MAJOR, 3), (510u32 << 20) | 3);
    assert_eq!(make_device_number(WIRELESS_MAJOR, 0), 509u32 << 20);
    assert_eq!(make_device_number(DEV_MAJOR, 0), 511u32 << 20);
}

#[test]
fn unknown_family_decodes_to_unmanaged() {
    let n = make_device_number(400, 5);
    assert_eq!(decompose_device(n as u64), None);
    assert_eq!(decompose_device(0), None);
}

#[test]
fn largest_index_round_trip() {
    let n = make_device_number(ETHERNET_MAJOR, 0xfffff);
    assert_eq!(decompose_device(n as u64), Some((DeviceType::Ethernet, 0xfffff)));
}

#[test]
fn high_bits_above_the_encoding_are_ignored() {
    let n = make_device_number(ETHERNET_MAJOR, 2) as u64;
    assert_eq!(decompose_device(n | (1u64 << 40)), Some((DeviceType::Ethernet, 2)));
}
