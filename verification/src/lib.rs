//! Virtual network-device subsystem for a sandbox runtime.
//!
//! Guest programs ("computers") communicate through byte-buffered duplex
//! links. Each computer owns a registry of device endpoints, exposed as a
//! read-only directory of character-special files, and a host-mediated
//! readiness protocol lets a guest block until one of several descriptors
//! becomes readable.

pub mod buffer;
pub mod computer;
pub mod devices;
pub mod devnum;
pub mod errors;
pub mod events;
pub mod link;
pub mod readiness;
pub mod text;
pub mod vfs;

use vstd::prelude::*;

verus! {

/// The closed set of virtual device families.
#[derive(Debug, Copy, Clone, PartialEq, Eq, Structural)]
pub enum DeviceType {
    Ethernet,
    Wireless,
}

} // verus!
