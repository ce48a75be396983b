//! A computer: one sandboxed guest instance, owning a device registry and an
//! identity that derives its private storage root.

use vstd::prelude::*;

use crate::devices::Devices;

verus! {

/// The hyphenated text of a 128-bit identifier, as the `uuid` crate renders
/// it: a function of the bits alone.
pub uninterp spec fn uuid_text(id: u128) -> Seq<char>;

/// Relies on `uuid::Uuid::new_v4`: a fresh random version-4 identifier.
/// Nothing is assumed of the value.
#[verifier::external_body]
fn fresh_uuid() -> u128 {
    uuid::Uuid::new_v4().as_u128()
}

/// Relies on `uuid::Uuid::from_u128` and the hyphenated `Display` format:
/// the text depends on the 128 bits alone and is exactly 36 characters
/// (`Hyphenated::LENGTH`).
#[verifier::external_body]
fn uuid_hyphenated(id: u128) -> (r: String)
    ensures
        r@ == uuid_text(id),
        r@.len() == 36,
{
    uuid::Uuid::from_u128(id).hyphenated().to_string()
}

/// One sandboxed guest instance: an identity and a device registry. The
/// registry only grows, via explicit attach operations, during the computer's
/// lifetime.
pub struct Computer {
    /// The identity the private storage root is derived from.
    pub id: u128,
    /// The computer's device registry.
    pub devices: Devices,
}

impl Computer {
    /// A brand new computer: a fresh random identity and an empty registry.
    /// (Creating its storage directories on disk is the runtime's concern,
    /// not the library's.)
    pub fn create() -> (r: Computer)
        ensures
            r.devices.ethernet_links@.len() == 0,
            r.devices.wireless_links@.len() == 0,
    {
        Computer { id: fresh_uuid(), devices: Devices::new() }
    }

    /// A computer with a given identity and an empty registry.
    pub fn with_id(id: u128) -> (r: Computer)
        ensures
            r.id == id,
            r.devices.ethernet_links@.len() == 0,
            r.devices.wireless_links@.len() == 0,
    {
        Computer { id, devices: Devices::new() }
    }

    /// The computer's registry, for wiring devices up.
    pub fn devices_mut(&mut self) -> (r: &mut Devices)
        ensures
            *r == old(self).devices,
            final(self).id == old(self).id,
            final(self).devices == *final(r),
    {
        &mut self.devices
    }

    /// The computer's private storage root, derived from its identity.
    pub fn root_dir(&self) -> (r: String)
        ensures
            r@ == "out/computers/"@ + uuid_text(self.id),
    {
        let mut path = String::from_str("out/computers/");
        let id_text = uuid_hyphenated(self.id);
        path.append(id_text.as_str());
        path
    }

    /// The guest user's home directory under the storage root.
    pub fn home_dir(&self) -> (r: String)
        ensures
            r@ == "out/computers/"@ + uuid_text(self.id) + "/home/alex"@,
    {
        let mut path = self.root_dir();
        path.append("/home/alex");
        proof {
            assert(path@ =~= "out/computers/"@ + uuid_text(self.id) + "/home/alex"@);
        }
        path
    }
}

} // verus!
