//! The ordered byte buffer at the heart of a duplex link.
//!
//! A buffer is an unbounded byte queue plus a broadcast wake-up event that
//! fires on every non-empty write. The ghost field `notify_epoch` counts the
//! wake-ups fired so far; contracts about waking are stated over it.

use vstd::prelude::*;

use crate::events::{listen_on, new_event, notify_all_listeners};

verus! {

/// An ordered byte queue with a broadcast wake-up event.
pub struct Buffer {
    /// The queued bytes, oldest first.
    pub data: Vec<u8>,
    /// Fired once per non-empty write; wakes every registered waiter.
    pub on_send: event_listener::Event,
    /// Ghost count of wake-ups fired on `on_send` so far.
    pub notify_epoch: Ghost<nat>,
}

/// A registered interest in future non-emptiness of a buffer.
pub struct ReadSubscription {
    /// Woken by the first wake-up fired after registration.
    pub listener: event_listener::EventListener,
    /// Ghost: the buffer's notify epoch at registration time.
    pub epoch: Ghost<nat>,
}

/// The result of subscribing to read-readiness: either the data is already
/// there, or a listener that a future non-empty write will wake.
pub enum ReadWait {
    /// The buffer was non-empty at subscription time.
    Ready,
    /// The buffer was empty; the subscription waits for a wake-up.
    Pending(ReadSubscription),
}

/// A pending subscription counts as woken once the buffer has fired a
/// wake-up after the subscription was registered.
pub open spec fn subscription_woken(sub: ReadSubscription, buf: Buffer) -> bool {
    buf.epoch() > sub.epoch@
}

impl Buffer {
    /// The queued bytes, oldest first.
    pub open spec fn bytes(&self) -> Seq<u8> {
        self.data@
    }

    /// How many wake-ups this buffer has fired.
    pub open spec fn epoch(&self) -> nat {
        self.notify_epoch@
    }

    /// An empty buffer that has never fired a wake-up.
    pub fn new() -> (r: Buffer)
        ensures
            r.bytes() == Seq::<u8>::empty(),
            r.epoch() == 0,
    {
        Buffer { data: Vec::new(), on_send: new_event(), notify_epoch: Ghost(0nat) }
    }

    /// Drains and returns everything currently queued, in order; never blocks
    /// and fires no wake-up.
    pub fn read_all(&mut self) -> (r: Vec<u8>)
        ensures
            r@ == old(self).bytes(),
            final(self).bytes() == Seq::<u8>::empty(),
            final(self).epoch() == old(self).epoch(),
            final(self).on_send == old(self).on_send,
    {
        let mut out: Vec<u8> = Vec::new();
        core::mem::swap(&mut out, &mut self.data);
        out
    }

    /// Appends `bytes` at the end of the queue and returns how many bytes
    /// were written. Fires one wake-up if and only if at least one byte was
    /// written: writing zero bytes never triggers a read-ready notification.
    pub fn write_all(&mut self, bytes: &[u8]) -> (n: usize)
        ensures
            final(self).bytes() == old(self).bytes() + bytes@,
            n == bytes@.len(),
            bytes@.len() > 0 ==> final(self).epoch() == old(self).epoch() + 1,
            bytes@.len() == 0 ==> final(self).epoch() == old(self).epoch(),
            final(self).on_send == old(self).on_send,
    {
        self.data.extend_from_slice(bytes);
        proof {
            assert(self.data@ =~= old(self).data@ + bytes@);
        }
        if bytes.len() > 0 {
            notify_all_listeners(&self.on_send);
            self.notify_epoch = Ghost(self.notify_epoch@ + 1);
        }
        bytes.len()
    }

    /// Whether a read would currently return at least one byte.
    pub fn is_read_ready(&self) -> (r: bool)
        ensures
            r <==> self.bytes().len() > 0,
    {
        self.data.len() > 0
    }

    /// Registers interest in non-emptiness. The emptiness check and the
    /// registration are made against one and the same buffer state (the
    /// caller holds the buffer exclusively for the whole call), so a write
    /// between the two can never be missed. When data is already queued the
    /// subscription resolves immediately.
    pub fn subscribe_read_ready(&self) -> (r: ReadWait)
        ensures
            r is Ready <==> self.bytes().len() > 0,
            r matches ReadWait::Pending(sub) ==> sub.epoch@ == self.epoch(),
    {
        let listener = listen_on(&self.on_send);
        if self.data.len() > 0 {
            ReadWait::Ready
        } else {
            ReadWait::Pending(ReadSubscription { listener, epoch: Ghost(self.notify_epoch@) })
        }
    }
}

/// Law: a subscriber registered while the buffer is at some epoch is woken by
/// any later write of at least one byte, since such a write fires a wake-up
/// and moves the epoch past the registration point.
pub proof fn lemma_write_wakes_subscriber(
    pre: Buffer,
    post: Buffer,
    sub: ReadSubscription,
    written: Seq<u8>,
)
    requires
        sub.epoch@ == pre.epoch(),
        written.len() > 0,
        post.bytes() == pre.bytes() + written,
        post.epoch() == pre.epoch() + 1,
    ensures
        subscription_woken(sub, post),
{
}

} // verus!
