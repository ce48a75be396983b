//! The per-computer device registry: one ordered list of endpoints per
//! family, keyed by (family, slot index). The index of an endpoint is its
//! position of insertion; indices are never reused or removed, so once an
//! index exists it exists for the computer's entire lifetime.

use vstd::prelude::*;

use crate::buffer::ReadWait;
use crate::link::{AttachedDuplexLink, LinkTable};
use crate::DeviceType;

verus! {

/// A computer's device registry.
pub struct Devices {
    /// Attached ethernet endpoints, in order of attachment.
    pub ethernet_links: Vec<AttachedDuplexLink>,
    /// Attached wireless endpoints, in order of attachment.
    pub wireless_links: Vec<AttachedDuplexLink>,
}

impl Devices {
    /// The registry's list for one family, in order of attachment.
    pub open spec fn family_list(&self, dev_type: DeviceType) -> Seq<AttachedDuplexLink> {
        match dev_type {
            DeviceType::Ethernet => self.ethernet_links@,
            DeviceType::Wireless => self.wireless_links@,
        }
    }

    /// Whether (family, index) names an attached endpoint.
    pub open spec fn spec_contains(&self, dev_type: DeviceType, dev_idx: usize) -> bool {
        dev_idx < self.family_list(dev_type).len()
    }

    /// The endpoint at (family, index).
    pub open spec fn endpoint_at(&self, dev_type: DeviceType, dev_idx: usize) -> AttachedDuplexLink {
        self.family_list(dev_type)[dev_idx as int]
    }

    /// Every attached endpoint points at a link of `table`.
    pub open spec fn wf(&self, table: LinkTable) -> bool {
        &&& forall|i: int|
            0 <= i < self.ethernet_links@.len() ==> (#[trigger] self.ethernet_links@[i]).valid(
                table,
            )
        &&& forall|i: int|
            0 <= i < self.wireless_links@.len() ==> (#[trigger] self.wireless_links@[i]).valid(
                table,
            )
    }

    /// Whether the endpoint at (family, index) currently has data to read.
    pub open spec fn spec_is_ready_for_read(
        &self,
        table: LinkTable,
        dev_type: DeviceType,
        dev_idx: usize,
    ) -> bool {
        self.endpoint_at(dev_type, dev_idx).read_bytes(table).len() > 0
    }

    /// An empty registry.
    pub fn new() -> (r: Devices)
        ensures
            r.ethernet_links@.len() == 0,
            r.wireless_links@.len() == 0,
    {
        Devices { ethernet_links: Vec::new(), wireless_links: Vec::new() }
    }

    /// Appends an endpoint to a family's list and returns its new index: the
    /// previous length of that list. The other family is untouched.
    pub fn attach(&mut self, dev_type: DeviceType, link: AttachedDuplexLink) -> (idx: usize)
        ensures
            idx == old(self).family_list(dev_type).len(),
            final(self).family_list(dev_type) == old(self).family_list(dev_type).push(link),
            dev_type != DeviceType::Ethernet ==> final(self).ethernet_links@ == old(
                self,
            ).ethernet_links@,
            dev_type != DeviceType::Wireless ==> final(self).wireless_links@ == old(
                self,
            ).wireless_links@,
    {
        match dev_type {
            DeviceType::Ethernet => {
                let idx = self.ethernet_links.len();
                self.ethernet_links.push(link);
                idx
            },
            DeviceType::Wireless => {
                let idx = self.wireless_links.len();
                self.wireless_links.push(link);
                idx
            },
        }
    }

    /// Attaches an ethernet endpoint at the next free index.
    pub fn add_ethernet(&mut self, link: AttachedDuplexLink)
        ensures
            final(self).ethernet_links@ == old(self).ethernet_links@.push(link),
            final(self).wireless_links@ == old(self).wireless_links@,
    {
        self.attach(DeviceType::Ethernet, link);
    }

    /// The endpoint at (family, index), or `None` when the index was never
    /// attached.
    pub(crate) fn device(&self, dev_type: DeviceType, dev_idx: usize) -> (r: Option<
        AttachedDuplexLink,
    >)
        ensures
            r is Some <==> self.spec_contains(dev_type, dev_idx),
            r matches Some(link) ==> link == self.endpoint_at(dev_type, dev_idx),
    {
        let list = match dev_type {
            DeviceType::Ethernet => &self.ethernet_links,
            DeviceType::Wireless => &self.wireless_links,
        };
        if dev_idx < list.len() {
            Some(list[dev_idx])
        } else {
            None
        }
    }

    /// Whether (family, index) names an attached endpoint.
    pub fn contains(&self, dev_type: DeviceType, dev_idx: usize) -> (r: bool)
        ensures
            r == self.spec_contains(dev_type, dev_idx),
    {
        self.device(dev_type, dev_idx).is_some()
    }

    /// `None` when the index is out of range, else whether the endpoint's
    /// read slot is currently non-empty.
    pub fn is_ready_for_read(
        &self,
        table: &LinkTable,
        dev_type: DeviceType,
        dev_idx: usize,
    ) -> (r: Option<bool>)
        requires
            self.wf(*table),
        ensures
            r is Some <==> self.spec_contains(dev_type, dev_idx),
            r matches Some(b) ==> b == self.spec_is_ready_for_read(*table, dev_type, dev_idx),
    {
        match self.device(dev_type, dev_idx) {
            Some(link) => Some(link.is_read_ready(table)),
            None => None,
        }
    }

    /// `None` when the index is out of range, else a read-readiness
    /// subscription on the endpoint, immediately resolved when data is
    /// already queued.
    pub fn wait_until_ready_for_read(
        &self,
        table: &LinkTable,
        dev_type: DeviceType,
        dev_idx: usize,
    ) -> (r: Option<ReadWait>)
        requires
            self.wf(*table),
        ensures
            r is Some <==> self.spec_contains(dev_type, dev_idx),
            r matches Some(w) ==> (w is Ready <==> self.spec_is_ready_for_read(
                *table,
                dev_type,
                dev_idx,
            )),
            r matches Some(w) ==> (w matches ReadWait::Pending(sub) ==> sub.epoch@
                == self.endpoint_at(dev_type, dev_idx).link_of(*table).read_buffer(
                self.endpoint_at(dev_type, dev_idx).first_half,
            ).epoch()),
    {
        match self.device(dev_type, dev_idx) {
            Some(link) => Some(link.subscribe_read_ready(table)),
            None => None,
        }
    }
}

} // verus!
