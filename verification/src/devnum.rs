//! Device numbers: a 32-bit encoding of (family code, slot index).
//!
//! The top 12 bits hold the family code (one reserved constant per family,
//! plus one for the device directory itself); the low 20 bits hold the slot
//! index. Decoding is a pure function; unknown family codes decode to `None`,
//! meaning the descriptor is not managed by the device subsystem.

use vstd::prelude::*;

use crate::DeviceType;

verus! {

/// Family code of the device directory pseudo-device.
pub const DEV_MAJOR: u16 = 511;
/// Family code of ethernet endpoints.
pub const ETHERNET_MAJOR: u16 = 510;
/// Family code of wireless endpoints.
pub const WIRELESS_MAJOR: u16 = 509;

/// Largest family code that fits in the top 12 bits.
pub const MAJOR_LIMIT: u16 = 0xfff;
/// Number of slot indices that fit in the low 20 bits.
pub const MINOR_LIMIT: u32 = 0x100000;

/// The family code reserved for a device family.
pub open spec fn family_code(dev_type: DeviceType) -> u16 {
    match dev_type {
        DeviceType::Ethernet => ETHERNET_MAJOR,
        DeviceType::Wireless => WIRELESS_MAJOR,
    }
}

/// The 32-bit device number packing `major` above `minor`.
pub open spec fn spec_make_device_number(major: u16, minor: u32) -> u32 {
    ((major as u32) << 20) | minor
}

/// The family-code field of a device number.
pub open spec fn spec_major(device_no: u64) -> u16 {
    ((device_no >> 20) & 0xfff) as u16
}

/// The slot-index field of a device number.
pub open spec fn spec_minor(device_no: u64) -> u32 {
    (device_no & 0xfffff) as u32
}

/// What decoding a device number yields: the family and slot index for a
/// recognized family code, or `None` for a device the subsystem does not
/// manage.
pub open spec fn spec_decompose_device(device_no: u64) -> Option<(DeviceType, usize)> {
    if spec_major(device_no) == ETHERNET_MAJOR {
        Some((DeviceType::Ethernet, spec_minor(device_no) as usize))
    } else if spec_major(device_no) == WIRELESS_MAJOR {
        Some((DeviceType::Wireless, spec_minor(device_no) as usize))
    } else {
        None
    }
}

/// Packs a family code and a slot index into one 32-bit device number.
pub fn make_device_number(major: u16, minor: u32) -> (r: u32)
    requires
        major <= MAJOR_LIMIT,
        minor < MINOR_LIMIT,
    ensures
        r == spec_make_device_number(major, minor),
{
    ((major as u32) << 20u32) | minor
}

/// Splits a device number into its family and slot index, or `None` when the
/// family code is not a recognized one.
pub fn decompose_device(device_no: u64) -> (r: Option<(DeviceType, usize)>)
    ensures
        r == spec_decompose_device(device_no),
{
    let major: u16 = ((device_no >> 20u64) & 0xfff) as u16;
    let minor: u32 = (device_no & 0xfffff) as u32;
    proof {
        assert(((device_no >> 20u64) & 0xfff) <= 0xfff) by (bit_vector);
        assert((device_no & 0xfffff) <= 0xfffff) by (bit_vector);
    }

    if major == ETHERNET_MAJOR {
        Some((DeviceType::Ethernet, minor as usize))
    } else if major == WIRELESS_MAJOR {
        Some((DeviceType::Wireless, minor as usize))
    } else {
        None
    }
}

/// Packing then decoding the fields gives them back unchanged: the encoding
/// is invertible on the full range of family codes and slot indices.
pub proof fn lemma_device_number_fields(major: u16, minor: u32)
    requires
        major <= MAJOR_LIMIT,
        minor < MINOR_LIMIT,
    ensures
        spec_major(spec_make_device_number(major, minor) as u64) == major,
        spec_minor(spec_make_device_number(major, minor) as u64) == minor,
{
    assert(((((major as u32) << 20) | minor) as u64 >> 20) & 0xfff == major) by (bit_vector)
        requires
            major <= 0xfff,
            minor < 0x100000,
    ;
    assert((((major as u32) << 20) | minor) as u64 & 0xfffff == minor) by (bit_vector)
        requires
            major <= 0xfff,
            minor < 0x100000,
    ;
}

/// A device number built from a device family's code and a slot index decodes
/// to exactly that family and index.
pub proof fn lemma_device_number_round_trip(dev_type: DeviceType, minor: u32)
    requires
        minor < MINOR_LIMIT,
    ensures
        spec_decompose_device(spec_make_device_number(family_code(dev_type), minor) as u64)
            == Some((dev_type, minor as usize)),
{
    lemma_device_number_fields(family_code(dev_type), minor);
}

} // verus!
