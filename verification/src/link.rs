//! Duplex links and the endpoints attached to them.
//!
//! A duplex link is exactly two buffers, slot 0 and slot 1. The two endpoints
//! of one link select opposite slots for reading and writing: the first half
//! writes slot 0 and reads slot 1, the second half the reverse, so everything
//! one endpoint writes is what the paired endpoint reads. Links live in a
//! `LinkTable` and endpoints are small copyable handles into it, so any
//! number of registries can share one link.

use vstd::prelude::*;

use crate::buffer::{Buffer, ReadWait};

verus! {

/// Exactly two byte buffers; immutable in shape once created.
pub struct DuplexLink {
    /// The buffer written by the first half, read by the second.
    pub slot0: Buffer,
    /// The buffer written by the second half, read by the first.
    pub slot1: Buffer,
}

impl DuplexLink {
    /// The buffer an endpoint on the given half reads from.
    pub open spec fn read_buffer(&self, first_half: bool) -> Buffer {
        if first_half {
            self.slot1
        } else {
            self.slot0
        }
    }

    /// The buffer an endpoint on the given half writes to.
    pub open spec fn write_buffer(&self, first_half: bool) -> Buffer {
        if first_half {
            self.slot0
        } else {
            self.slot1
        }
    }

    /// The bytes an endpoint on the given half would read, oldest first.
    pub open spec fn read_slot(&self, first_half: bool) -> Seq<u8> {
        self.read_buffer(first_half).bytes()
    }

    /// The bytes queued towards the endpoint opposite the given half.
    pub open spec fn write_slot(&self, first_half: bool) -> Seq<u8> {
        self.write_buffer(first_half).bytes()
    }

    /// A link whose both directions are empty.
    pub fn new() -> (r: DuplexLink)
        ensures
            r.slot0.bytes() == Seq::<u8>::empty(),
            r.slot1.bytes() == Seq::<u8>::empty(),
            r.slot0.epoch() == 0,
            r.slot1.epoch() == 0,
    {
        DuplexLink { slot0: Buffer::new(), slot1: Buffer::new() }
    }

    /// Drains the given half's read slot; the opposite direction is untouched.
    pub fn read(&mut self, first_half: bool) -> (r: Vec<u8>)
        ensures
            r@ == old(self).read_slot(first_half),
            final(self).read_buffer(first_half).bytes() == Seq::<u8>::empty(),
            final(self).read_buffer(first_half).epoch()
                == old(self).read_buffer(first_half).epoch(),
            final(self).read_buffer(first_half).on_send
                == old(self).read_buffer(first_half).on_send,
            final(self).write_buffer(first_half) == old(self).write_buffer(first_half),
    {
        if first_half {
            self.slot1.read_all()
        } else {
            self.slot0.read_all()
        }
    }

    /// Appends `bytes` to the given half's write slot; fires that slot's
    /// wake-up if and only if at least one byte was written. The half's own
    /// read slot is untouched.
    pub fn write(&mut self, first_half: bool, bytes: &[u8]) -> (n: usize)
        ensures
            n == bytes@.len(),
            final(self).write_buffer(first_half).bytes()
                == old(self).write_buffer(first_half).bytes() + bytes@,
            bytes@.len() > 0 ==> final(self).write_buffer(first_half).epoch()
                == old(self).write_buffer(first_half).epoch() + 1,
            bytes@.len() == 0 ==> final(self).write_buffer(first_half).epoch()
                == old(self).write_buffer(first_half).epoch(),
            final(self).write_buffer(first_half).on_send
                == old(self).write_buffer(first_half).on_send,
            final(self).read_buffer(first_half) == old(self).read_buffer(first_half),
    {
        if first_half {
            self.slot0.write_all(bytes)
        } else {
            self.slot1.write_all(bytes)
        }
    }

    /// How many bytes the given half's read slot currently holds.
    pub fn read_buffer_len(&self, first_half: bool) -> (n: usize)
        ensures
            n == self.read_slot(first_half).len(),
    {
        if first_half {
            self.slot1.data.len()
        } else {
            self.slot0.data.len()
        }
    }

    /// Whether the given half's read slot currently holds at least one byte.
    pub fn is_read_ready(&self, first_half: bool) -> (r: bool)
        ensures
            r <==> self.read_slot(first_half).len() > 0,
    {
        if first_half {
            self.slot1.is_read_ready()
        } else {
            self.slot0.is_read_ready()
        }
    }

    /// Subscribes to read-readiness on the given half: immediately resolved
    /// when data is already queued, otherwise a listener on the read slot's
    /// wake-up event.
    pub fn subscribe_read_ready(&self, first_half: bool) -> (r: ReadWait)
        ensures
            r is Ready <==> self.read_slot(first_half).len() > 0,
            r matches ReadWait::Pending(sub) ==> sub.epoch@
                == self.read_buffer(first_half).epoch(),
    {
        if first_half {
            self.slot1.subscribe_read_ready()
        } else {
            self.slot0.subscribe_read_ready()
        }
    }
}

/// All the duplex links of one world; endpoints index into it. Links are
/// only ever added, never removed, so an endpoint's index stays valid for the
/// table's entire lifetime.
pub struct LinkTable {
    /// The links, in order of creation.
    pub links: Vec<DuplexLink>,
}

impl LinkTable {
    /// An empty table.
    pub fn new() -> (r: LinkTable)
        ensures
            r.links@.len() == 0,
    {
        LinkTable { links: Vec::new() }
    }
}

/// One endpoint of a duplex link: a copyable handle over a shared link plus
/// the half selecting which slot is read and which is written on this side.
#[derive(Debug, Copy, Clone, PartialEq, Eq, Structural)]
pub struct AttachedDuplexLink {
    /// Index of the shared link in the world's `LinkTable`.
    pub link_id: usize,
    /// Which half of the link this endpoint is; the paired endpoint holds
    /// the opposite half.
    pub first_half: bool,
}

impl AttachedDuplexLink {
    /// Whether this endpoint's link exists in the table.
    pub open spec fn valid(&self, table: LinkTable) -> bool {
        self.link_id < table.links@.len()
    }

    /// This endpoint's link.
    pub open spec fn link_of(&self, table: LinkTable) -> DuplexLink {
        table.links@[self.link_id as int]
    }

    /// The bytes this endpoint would read, oldest first.
    pub open spec fn read_bytes(&self, table: LinkTable) -> Seq<u8> {
        self.link_of(table).read_slot(self.first_half)
    }

    /// The bytes this endpoint has queued towards its paired endpoint.
    pub open spec fn write_bytes(&self, table: LinkTable) -> Seq<u8> {
        self.link_of(table).write_slot(self.first_half)
    }

    /// Whether two endpoints are the two halves of one and the same link.
    pub open spec fn paired_with(&self, other: AttachedDuplexLink) -> bool {
        self.link_id == other.link_id && self.first_half == !other.first_half
    }

    /// Creates a fresh link and returns its two endpoints, each selecting the
    /// opposite half; both directions start empty.
    pub fn new_pair(table: &mut LinkTable) -> (r: (AttachedDuplexLink, AttachedDuplexLink))
        ensures
            final(table).links@.len() == old(table).links@.len() + 1,
            forall|i: int|
                0 <= i < old(table).links@.len() ==> final(table).links@[i]
                    == old(table).links@[i],
            r.0.paired_with(r.1),
            r.0.valid(*final(table)),
            r.1.valid(*final(table)),
            r.0.link_id == old(table).links@.len(),
            r.0.first_half,
            !r.1.first_half,
            r.0.read_bytes(*final(table)) == Seq::<u8>::empty(),
            r.1.read_bytes(*final(table)) == Seq::<u8>::empty(),
    {
        let id = table.links.len();
        table.links.push(DuplexLink::new());
        let first = AttachedDuplexLink { link_id: id, first_half: true };
        let second = AttachedDuplexLink { link_id: id, first_half: false };
        (first, second)
    }

    /// Drains and returns everything currently queued towards this endpoint,
    /// in order; never blocks. Every other link and the opposite direction of
    /// this link are untouched.
    pub fn read(&self, table: &mut LinkTable) -> (r: Vec<u8>)
        requires
            self.valid(*old(table)),
        ensures
            r@ == self.read_bytes(*old(table)),
            self.read_bytes(*final(table)) == Seq::<u8>::empty(),
            self.write_bytes(*final(table)) == self.write_bytes(*old(table)),
            final(table).links@.len() == old(table).links@.len(),
            forall|i: int|
                0 <= i < old(table).links@.len() && i != self.link_id
                    ==> final(table).links@[i] == old(table).links@[i],
            self.link_of(*final(table)).read_buffer(self.first_half).epoch()
                == self.link_of(*old(table)).read_buffer(self.first_half).epoch(),
            self.link_of(*final(table)).read_buffer(self.first_half).on_send
                == self.link_of(*old(table)).read_buffer(self.first_half).on_send,
            self.link_of(*final(table)).write_buffer(self.first_half)
                == self.link_of(*old(table)).write_buffer(self.first_half),
    {
        let link = &mut table.links[self.link_id];
        link.read(self.first_half)
    }

    /// Appends `bytes` towards the paired endpoint and returns the count
    /// written; wakes every current read-readiness waiter of the paired
    /// endpoint if and only if at least one byte was written. Every other
    /// link and this endpoint's own read direction are untouched.
    pub fn write(&self, table: &mut LinkTable, bytes: &[u8]) -> (n: usize)
        requires
            self.valid(*old(table)),
        ensures
            n == bytes@.len(),
            self.write_bytes(*final(table)) == self.write_bytes(*old(table)) + bytes@,
            self.read_bytes(*final(table)) == self.read_bytes(*old(table)),
            final(table).links@.len() == old(table).links@.len(),
            forall|i: int|
                0 <= i < old(table).links@.len() && i != self.link_id
                    ==> final(table).links@[i] == old(table).links@[i],
            bytes@.len() > 0 ==> self.link_of(*final(table)).write_buffer(
                self.first_half,
            ).epoch() == self.link_of(*old(table)).write_buffer(self.first_half).epoch() + 1,
            bytes@.len() == 0 ==> self.link_of(*final(table)).write_buffer(
                self.first_half,
            ).epoch() == self.link_of(*old(table)).write_buffer(self.first_half).epoch(),
            self.link_of(*final(table)).write_buffer(self.first_half).on_send
                == self.link_of(*old(table)).write_buffer(self.first_half).on_send,
            self.link_of(*final(table)).read_buffer(self.first_half)
                == self.link_of(*old(table)).read_buffer(self.first_half),
    {
        let link = &mut table.links[self.link_id];
        link.write(self.first_half, bytes)
    }

    /// Whether a read on this endpoint would currently return at least one
    /// byte.
    pub fn is_read_ready(&self, table: &LinkTable) -> (r: bool)
        requires
            self.valid(*table),
        ensures
            r <==> self.read_bytes(*table).len() > 0,
    {
        table.links[self.link_id].is_read_ready(self.first_half)
    }

    /// Subscribes to read-readiness on this endpoint, as `Buffer`'s
    /// subscription does: immediately resolved when data is already queued.
    pub fn subscribe_read_ready(&self, table: &LinkTable) -> (r: ReadWait)
        requires
            self.valid(*table),
        ensures
            r is Ready <==> self.read_bytes(*table).len() > 0,
            r matches ReadWait::Pending(sub) ==> sub.epoch@
                == self.link_of(*table).read_buffer(self.first_half).epoch(),
    {
        table.links[self.link_id].subscribe_read_ready(self.first_half)
    }
}

/// Law: two paired endpoints share one channel per direction. What one
/// endpoint has queued towards its peer is exactly what the peer would read,
/// so bytes written on one side come back on the other in original order,
/// never duplicated or reordered.
pub proof fn lemma_paired_endpoints_share_a_channel(
    a: AttachedDuplexLink,
    b: AttachedDuplexLink,
    table: LinkTable,
)
    requires
        a.paired_with(b),
    ensures
        a.write_bytes(table) == b.read_bytes(table),
        b.write_bytes(table) == a.read_bytes(table),
{
}

/// Law: the two endpoints of one link are cross-wired. Whatever a write on
/// one half appends to its write slot appears, bytes in original order and
/// nothing else, at the end of the paired endpoint's read slot.
pub proof fn lemma_paired_transfer(pre: DuplexLink, post: DuplexLink, first_half: bool, w: Seq<u8>)
    requires
        post.write_slot(first_half) == pre.write_slot(first_half) + w,
    ensures
        post.read_slot(!first_half) == pre.read_slot(!first_half) + w,
{
}

} // verus!
