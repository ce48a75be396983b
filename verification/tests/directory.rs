use netdev_sandbox::devices::Devices;
use netdev_sandbox::devnum::{make_device_number, ETHERNET_MAJOR, WIRELESS_MAJOR};
use netdev_sandbox::errors::DeviceError;
use netdev_sandbox::link::{AttachedDuplexLink, LinkTable};
use netdev_sandbox::vfs::{
    create_dir, dir_filestat, get_path_filestat, hard_link, open_dir, open_file, parse_dev,
    read_link, readdir, remove_dir, rename, set_times, symlink, unlink_file, FileKind,
    OpenedNode, FDFLAG_APPEND, FDFLAG_DSYNC, FDFLAG_NONBLOCK, FDFLAG_RSYNC, FDFLAG_SYNC,
};
use netdev_sandbox::DeviceType;

fn two_ethernet_one_wireless() -> (LinkTable, Devices) {
    let mut table = LinkTable::new();
    let (e0, _p0) = AttachedDuplexLink::new_pair(&mut table);
    let (e1, _p1) = AttachedDuplexLink::new_pair(&mut table);
    let (w0, _p2) = AttachedDuplexLink::new_pair(&mut table);
    let mut devs = Devices::new();
    devs.attach(DeviceType::Ethernet, e0);
    devs.attach(DeviceType::Ethernet, e1);
    devs.attach(DeviceType::Wireless, w0);
    (table, devs)
}

#[test]
fn parse_dev_splits_name_and_index() {
    assert_eq!(parse_dev("ethernet12"), ("ethernet", Some(12)));
    assert_eq!(parse_dev("wireless0"), ("wireless", Some(0)));
    assert_eq!(parse_dev("abc"), ("abc", None));
    assert_eq!(parse_dev(""), ("", None));
    assert_eq!(parse_dev("."), (".", None));
    assert_eq!(parse_dev("007"), ("", Some(7)));
    assert_eq!(parse_dev("ethernet256"), ("ethernet", Some(256)));
    // the full 20-bit slot range is accepted; overflow and trailing garbage
    // are rejected
    assert_eq!(parse_dev("ethernet1048575"), ("ethernet", Some(1048575)));
    assert_eq!(parse_dev("ethernet1048576"), ("ethernet", None));
    assert_eq!(parse_dev("ethernet99999999999999999999"), ("ethernet", None));
    assert_eq!(parse_dev("ethernet0x"), ("ethernet", None));
}

#[test]
fn slots_beyond_the_first_few_hundred_open_fine() {
    let mut table = LinkTable::new();
    let mut devs = Devices::new();
    for _ in 0..300 {
        let (e, _peer) = AttachedDuplexLink::new_pair(&mut table);
        devs.attach(DeviceType::Ethernet, e);
    }

    let node = open_file(&devs, "ethernet299", 0, true, false, 0).unwrap();
    let handle = match node {
        OpenedNode::Link(f) => f,
        OpenedNode::Directory(_) => panic!("expected a device handle"),
    };
    assert_eq!(handle.device_number, make_device_number(ETHERNET_MAJOR, 299));
    assert_eq!(open_file(&devs, "ethernet300", 0, true, false, 0), Err(DeviceError::NotFound));

    let entries = readdir(&devs, 299);
    assert_eq!(entries.len(), 1);
    assert_eq!(entries[0].name, "ethernet299");
}

#[test]
fn nonzero_open_flag_is_not_supported() {
    let (_table, devs) = two_ethernet_one_wireless();
    for flag in [1u32, 2, 4, 8, 0x10, 0xffff_ffff] {
        assert_eq!(
            open_file(&devs, "ethernet0", flag, true, false, 0),
            Err(DeviceError::NotSupported)
        );
    }
}

#[test]
fn sync_family_fdflags_are_not_supported() {
    let (_table, devs) = two_ethernet_one_wireless();
    for fdflags in [FDFLAG_DSYNC, FDFLAG_SYNC, FDFLAG_RSYNC] {
        assert_eq!(
            open_file(&devs, "ethernet0", 0, true, false, fdflags),
            Err(DeviceError::NotSupported)
        );
    }
    // append and nonblock pass the flag check
    assert!(open_file(&devs, "ethernet0", 0, true, false, FDFLAG_APPEND | FDFLAG_NONBLOCK).is_ok());
}

#[test]
fn open_binds_the_endpoint_and_capabilities() {
    let (_table, devs) = two_ethernet_one_wireless();
    let node = open_file(&devs, "ethernet1", 0, true, false, 0).unwrap();
    let handle = match node {
        OpenedNode::Link(f) => f,
        OpenedNode::Directory(_) => panic!("expected a device handle"),
    };
    assert!(handle.read);
    assert!(!handle.write);
    assert_eq!(handle.device_number, make_device_number(ETHERNET_MAJOR, 1));

    let node = open_file(&devs, "wireless0", 0, false, true, 0).unwrap();
    let handle = match node {
        OpenedNode::Link(f) => f,
        OpenedNode::Directory(_) => panic!("expected a device handle"),
    };
    assert!(handle.write);
    assert_eq!(handle.device_number, make_device_number(WIRELESS_MAJOR, 0));
}

#[test]
fn absent_or_garbage_paths_are_not_found() {
    let (_table, devs) = two_ethernet_one_wireless();
    assert_eq!(open_file(&devs, "ethernet2", 0, true, false, 0), Err(DeviceError::NotFound));
    assert_eq!(open_file(&devs, "wireless1", 0, true, false, 0), Err(DeviceError::NotFound));
    assert_eq!(open_file(&devs, "ethernet", 0, true, false, 0), Err(DeviceError::NotFound));
    assert_eq!(open_file(&devs, "floppy0", 0, true, false, 0), Err(DeviceError::NotFound));
    assert_eq!(open_file(&devs, "", 0, true, false, 0), Err(DeviceError::NotFound));
}

#[test]
fn dot_opens_the_directory_pseudo_file() {
    let (_table, devs) = two_ethernet_one_wireless();
    let node = open_file(&devs, ".", 0, true, false, 0).unwrap();
    let dir = match node {
        OpenedNode::Directory(d) => d,
        OpenedNode::Link(_) => panic!("expected the directory"),
    };
    assert_eq!(dir.get_filetype(), FileKind::Directory);
    assert_eq!(dir.get_fdflags(), 0);
    assert!(dir.readable().is_ok());
    assert_eq!(dir.writable(), Err(DeviceError::NotSupported));
    assert_eq!(dir.set_fdflags(0), Err(DeviceError::NotSupported));
}

#[test]
fn capability_checks_on_handles() {
    let (mut table, devs) = two_ethernet_one_wireless();
    let read_only = match open_file(&devs, "ethernet0", 0, true, false, 0).unwrap() {
        OpenedNode::Link(f) => f,
        _ => unreachable!(),
    };
    let write_only = match open_file(&devs, "ethernet0", 0, false, true, 0).unwrap() {
        OpenedNode::Link(f) => f,
        _ => unreachable!(),
    };

    assert_eq!(read_only.write(&mut table, b"nope"), Err(DeviceError::BadDescriptor));
    assert_eq!(write_only.read(&mut table), Err(DeviceError::BadDescriptor));
    assert_eq!(write_only.num_ready_bytes(&table), Err(DeviceError::BadDescriptor));
    assert!(read_only.readable().is_ok());
    assert_eq!(read_only.writable(), Err(DeviceError::BadDescriptor));
    assert!(write_only.writable().is_ok());
    assert_eq!(write_only.readable(), Err(DeviceError::BadDescriptor));
}

#[test]
fn handle_write_reaches_the_paired_endpoint() {
    let mut table = LinkTable::new();
    let (e0, peer) = AttachedDuplexLink::new_pair(&mut table);
    let mut devs = Devices::new();
    devs.add_ethernet(e0);

    let handle = match open_file(&devs, "ethernet0", 0, true, true, 0).unwrap() {
        OpenedNode::Link(f) => f,
        _ => unreachable!(),
    };
    assert_eq!(handle.write(&mut table, b"out"), Ok(3));
    assert_eq!(peer.read(&mut table), b"out".to_vec());

    peer.write(&mut table, b"in");
    assert_eq!(handle.num_ready_bytes(&table), Ok(2));
    assert_eq!(handle.read(&mut table), Ok(b"in".to_vec()));
    assert_eq!(handle.num_ready_bytes(&table), Ok(0));
}

#[test]
fn handle_fdflags_accept_append_only() {
    let (_table, devs) = two_ethernet_one_wireless();
    let handle = match open_file(&devs, "ethernet0", 0, true, false, 0).unwrap() {
        OpenedNode::Link(f) => f,
        _ => unreachable!(),
    };
    assert_eq!(handle.get_fdflags(), FDFLAG_APPEND);
    assert!(handle.set_fdflags(FDFLAG_APPEND).is_ok());
    assert_eq!(handle.set_fdflags(0), Err(DeviceError::NotSupported));
    assert_eq!(handle.set_fdflags(FDFLAG_SYNC), Err(DeviceError::NotSupported));
    assert_eq!(handle.get_filetype(), FileKind::CharacterDevice);
}

#[test]
fn stat_reports_character_device_and_zero_size() {
    let (_table, devs) = two_ethernet_one_wireless();
    let stat = get_path_filestat(&devs, "ethernet1", true).unwrap();
    assert_eq!(stat.filetype, FileKind::CharacterDevice);
    assert_eq!(stat.device_id, make_device_number(ETHERNET_MAJOR, 1) as u64);
    assert_eq!(stat.size, 0);

    let dir_stat = dir_filestat();
    assert_eq!(dir_stat.filetype, FileKind::Directory);
    assert_eq!(dir_stat.size, 0);

    assert_eq!(get_path_filestat(&devs, "ethernet9", true), Err(DeviceError::NotFound));
}

#[test]
fn listing_yields_ethernet_then_wireless_with_cursors() {
    let (_table, devs) = two_ethernet_one_wireless();
    let entries = readdir(&devs, 0);
    let names: Vec<&str> = entries.iter().map(|e| e.name.as_str()).collect();
    assert_eq!(names, vec!["ethernet0", "ethernet1", "wireless0"]);
    for (i, e) in entries.iter().enumerate() {
        assert_eq!(e.next, i as u64 + 1);
        assert_eq!(e.inode, 1 + i as u64);
        assert_eq!(e.filetype, FileKind::CharacterDevice);
    }
}

#[test]
fn listing_resumes_from_any_cursor() {
    let (_table, devs) = two_ethernet_one_wireless();
    let full = readdir(&devs, 0);
    for offset in 0..=3u64 {
        let resumed = readdir(&devs, offset);
        assert_eq!(resumed.len(), 3 - offset as usize);
        for (k, e) in resumed.iter().enumerate() {
            assert_eq!(e, &full[offset as usize + k]);
        }
    }
    assert!(readdir(&devs, 4).is_empty());
    assert!(readdir(&devs, u64::MAX).is_empty());
}

#[test]
fn empty_registry_lists_nothing() {
    let devs = Devices::new();
    assert!(readdir(&devs, 0).is_empty());
}

#[test]
fn structural_mutation_is_rejected_uniformly() {
    assert_eq!(open_dir("sub"), Err(DeviceError::NotFound));
    assert_eq!(create_dir("sub"), Err(DeviceError::PermissionDenied));
    assert_eq!(symlink("a", "b"), Err(DeviceError::NotSupported));
    assert_eq!(remove_dir("sub"), Err(DeviceError::PermissionDenied));
    assert_eq!(unlink_file("ethernet0"), Err(DeviceError::NotSupported));
    assert_eq!(read_link("ethernet0"), Err(DeviceError::NotSupported));
    assert_eq!(rename("a", "b"), Err(DeviceError::PermissionDenied));
    assert_eq!(hard_link("a", "b"), Err(DeviceError::NotSupported));
    assert_eq!(set_times("a", None, Some(1), false), Err(DeviceError::PermissionDenied));
}
