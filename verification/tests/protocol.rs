use netdev_sandbox::buffer::ReadWait;
use netdev_sandbox::devices::Devices;
use netdev_sandbox::devnum::{make_device_number, ETHERNET_MAJOR};
use netdev_sandbox::errors::DeviceError;
use netdev_sandbox::link::{AttachedDuplexLink, LinkTable};
use netdev_sandbox::readiness::{
    check_known_devices, collect_ready, fill_output, interests_from_bytes, ready_fds_prefix,
    ready_records_from_bytes, ready_records_to_bytes, read_interests_of_fds, region_in_bounds,
    subscribe_interests, validate_counts, zeroed_ready_records, Interest, Ready, INTEREST_READ,
    INTEREST_WRITE,
};

#[test]
fn mismatched_lengths_fail_with_contract_violation() {
    // an interests array of length 3 paired with a 2-length output array
    assert_eq!(validate_counts(3, 2), Err(DeviceError::ContractViolation));
    assert_eq!(validate_counts(2, 2), Ok(()));
    assert_eq!(validate_counts(0, 0), Ok(()));
}

#[test]
fn flags_round_trip() {
    let interest = Interest { fd: 4, interest_flags: INTEREST_READ | INTEREST_WRITE };
    assert!(interest.flags().contains(netdev_sandbox::readiness::InterestFlags {
        bits: INTEREST_READ,
    }));
    let ready = Ready { fd: 4, interest_flags: INTEREST_READ };
    assert_eq!(ready.flags().bits, INTEREST_READ);
    assert_eq!(Ready::zeroed(), Ready { fd: 0, interest_flags: 0 });
}

#[test]
fn region_bounds_are_exact() {
    assert!(region_in_bounds(16, 0, 2));
    assert!(!region_in_bounds(15, 0, 2));
    assert!(region_in_bounds(24, 8, 2));
    assert!(!region_in_bounds(24, 9, 2));
    // no wrap-around on huge requests
    assert!(!region_in_bounds(usize::MAX, usize::MAX, usize::MAX));
}

#[test]
fn record_bytes_round_trip() {
    let records = vec![
        Ready { fd: 1, interest_flags: INTEREST_READ },
        Ready { fd: 0x0a0b0c0d, interest_flags: 0x11223344 },
    ];
    let bytes = ready_records_to_bytes(&records);
    assert_eq!(bytes.len(), 16);
    assert_eq!(&bytes[0..8], &[1, 0, 0, 0, 1, 0, 0, 0]);
    assert_eq!(&bytes[8..16], &[0x0d, 0x0c, 0x0b, 0x0a, 0x44, 0x33, 0x22, 0x11]);

    // the two record kinds share one layout: encoding then decoding gives the
    // records back, and the same bytes parse as the matching interests
    assert_eq!(ready_records_from_bytes(&bytes), records);
    let parsed = interests_from_bytes(&bytes);
    assert_eq!(parsed.len(), 2);
    assert_eq!(parsed[0], Interest { fd: 1, interest_flags: INTEREST_READ });
    assert_eq!(parsed[1], Interest { fd: 0x0a0b0c0d, interest_flags: 0x11223344 });
}

#[test]
fn unknown_device_fails_the_whole_call() {
    let devs = Devices::new();
    // decodes to (Ethernet, 0), which was never attached
    let missing = make_device_number(ETHERNET_MAJOR, 0) as u64;
    assert_eq!(check_known_devices(&devs, &vec![7, missing]), Err(DeviceError::UnknownDevice));
    // unmanaged numbers alone are fine
    assert_eq!(check_known_devices(&devs, &vec![7, 0]), Ok(()));
}

#[test]
fn ready_set_is_the_ready_subset_in_order() {
    let mut table = LinkTable::new();
    let (a0, b0) = AttachedDuplexLink::new_pair(&mut table);
    let (a1, _b1) = AttachedDuplexLink::new_pair(&mut table);
    let mut devs = Devices::new();
    devs.add_ethernet(a0);
    devs.add_ethernet(a1);

    // interest 0: managed, made ready by a write from its peer;
    // interest 1: managed, stays empty; interest 2: unmanaged (always ready)
    b0.write(&mut table, b"wake");
    let interests = vec![
        Interest { fd: 10, interest_flags: INTEREST_READ },
        Interest { fd: 11, interest_flags: INTEREST_READ },
        Interest { fd: 12, interest_flags: INTEREST_READ },
    ];
    let device_nos = vec![
        make_device_number(ETHERNET_MAJOR, 0) as u64,
        make_device_number(ETHERNET_MAJOR, 1) as u64,
        0u64,
    ];
    assert_eq!(check_known_devices(&devs, &device_nos), Ok(()));

    let waits = subscribe_interests(&devs, &table, &device_nos);
    assert_eq!(waits.len(), 3);
    assert!(matches!(waits[0], ReadWait::Ready));
    assert!(matches!(waits[1], ReadWait::Pending(_)));
    assert!(matches!(waits[2], ReadWait::Ready));

    let ready = collect_ready(&devs, &table, &interests, &device_nos);
    assert_eq!(
        ready,
        vec![
            Ready { fd: 10, interest_flags: INTEREST_READ },
            Ready { fd: 12, interest_flags: INTEREST_READ },
        ]
    );

    // step 6: contiguous from offset 0, the rest stays pre-zeroed
    let mut out = zeroed_ready_records(interests.len());
    let n = fill_output(&mut out, &ready);
    assert_eq!(n, 2);
    assert_eq!(out[0], Ready { fd: 10, interest_flags: INTEREST_READ });
    assert_eq!(out[1], Ready { fd: 12, interest_flags: INTEREST_READ });
    assert_eq!(out[2], Ready { fd: 0, interest_flags: 0 });
}

#[test]
fn guest_side_helpers_build_the_call() {
    let fds = vec![3u32, 4, 5];
    let interests = read_interests_of_fds(&fds);
    assert_eq!(interests.len(), 3);
    for (i, fd) in fds.iter().enumerate() {
        assert_eq!(interests[i], Interest { fd: *fd, interest_flags: INTEREST_READ });
    }

    let ready = vec![
        Ready { fd: 4, interest_flags: INTEREST_READ },
        Ready { fd: 0, interest_flags: 0 },
    ];
    assert_eq!(ready_fds_prefix(&ready, 1), vec![4u32]);
    assert_eq!(ready_fds_prefix(&ready, 0), Vec::<u32>::new());
}
