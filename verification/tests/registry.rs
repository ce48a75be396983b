use netdev_sandbox::buffer::ReadWait;
use netdev_sandbox::devices::Devices;
use netdev_sandbox::link::{AttachedDuplexLink, LinkTable};
use netdev_sandbox::DeviceType;

#[test]
fn attach_returns_the_insertion_index() {
    let mut table = LinkTable::new();
    let (a1, _b1) = AttachedDuplexLink::new_pair(&mut table);
    let (a2, _b2) = AttachedDuplexLink::new_pair(&mut table);
    let (w1, _w2) = AttachedDuplexLink::new_pair(&mut table);

    let mut devs = Devices::new();
    assert_eq!(devs.attach(DeviceType::Ethernet, a1), 0);
    assert_eq!(devs.attach(DeviceType::Ethernet, a2), 1);
    assert_eq!(devs.attach(DeviceType::Wireless, w1), 0);

    assert!(devs.contains(DeviceType::Ethernet, 0));
    assert!(devs.contains(DeviceType::Ethernet, 1));
    assert!(!devs.contains(DeviceType::Ethernet, 2));
    assert!(devs.contains(DeviceType::Wireless, 0));
    assert!(!devs.contains(DeviceType::Wireless, 1));
}

#[test]
fn add_ethernet_appends() {
    let mut table = LinkTable::new();
    let (a, _b) = AttachedDuplexLink::new_pair(&mut table);
    let mut devs = Devices::new();
    devs.add_ethernet(a);
    assert!(devs.contains(DeviceType::Ethernet, 0));
    assert!(!devs.contains(DeviceType::Wireless, 0));
}

#[test]
fn readiness_follows_the_paired_endpoint() {
    let mut table = LinkTable::new();
    let (a, b) = AttachedDuplexLink::new_pair(&mut table);
    let mut devs = Devices::new();
    devs.add_ethernet(a);

    assert_eq!(devs.is_ready_for_read(&table, DeviceType::Ethernet, 0), Some(false));
    b.write(&mut table, b"ping");
    assert_eq!(devs.is_ready_for_read(&table, DeviceType::Ethernet, 0), Some(true));
    a.read(&mut table);
    assert_eq!(devs.is_ready_for_read(&table, DeviceType::Ethernet, 0), Some(false));
}

#[test]
fn out_of_range_index_reports_none() {
    let table = LinkTable::new();
    let devs = Devices::new();
    assert_eq!(devs.is_ready_for_read(&table, DeviceType::Ethernet, 0), None);
    assert!(devs.wait_until_ready_for_read(&table, DeviceType::Wireless, 3).is_none());
}

#[test]
fn wait_resolves_immediately_on_buffered_data() {
    let mut table = LinkTable::new();
    let (a, b) = AttachedDuplexLink::new_pair(&mut table);
    let mut devs = Devices::new();
    devs.add_ethernet(a);

    let pending = devs.wait_until_ready_for_read(&table, DeviceType::Ethernet, 0).unwrap();
    assert!(matches!(pending, ReadWait::Pending(_)));

    b.write(&mut table, b"!");
    let ready = devs.wait_until_ready_for_read(&table, DeviceType::Ethernet, 0).unwrap();
    assert!(matches!(ready, ReadWait::Ready));
}
