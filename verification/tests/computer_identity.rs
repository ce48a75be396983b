use netdev_sandbox::computer::Computer;
use netdev_sandbox::link::{AttachedDuplexLink, LinkTable};
use netdev_sandbox::DeviceType;

#[test]
fn storage_root_derives_from_the_identity() {
    let computer = Computer::with_id(0);
    assert_eq!(
        computer.root_dir(),
        "out/computers/00000000-0000-0000-0000-000000000000"
    );
    assert_eq!(
        computer.home_dir(),
        "out/computers/00000000-0000-0000-0000-000000000000/home/alex"
    );

    let computer = Computer::with_id(0x0123_4567_89ab_cdef_0123_4567_89ab_cdef);
    assert_eq!(
        computer.root_dir(),
        "out/computers/01234567-89ab-cdef-0123-456789abcdef"
    );
}

#[test]
fn a_new_computer_has_an_empty_registry() {
    let computer = Computer::create();
    assert!(!computer.devices.contains(DeviceType::Ethernet, 0));
    assert!(!computer.devices.contains(DeviceType::Wireless, 0));
    let root = computer.root_dir();
    assert!(root.starts_with("out/computers/"));
    assert_eq!(root.len(), "out/computers/".len() + 36);
}

#[test]
fn wiring_goes_through_the_registry() {
    let mut table = LinkTable::new();
    let (a, b) = AttachedDuplexLink::new_pair(&mut table);
    let mut computer1 = Computer::create();
    let mut computer2 = Computer::create();
    computer1.devices_mut().add_ethernet(a);
    computer2.devices_mut().add_ethernet(b);

    b.write(&mut table, b"hi");
    assert_eq!(
        computer1.devices.is_ready_for_read(&table, DeviceType::Ethernet, 0),
        Some(true)
    );
    assert_eq!(
        computer2.devices.is_ready_for_read(&table, DeviceType::Ethernet, 0),
        Some(false)
    );
}
