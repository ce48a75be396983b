//! The host-mediated readiness protocol: wire records, their raw binary
//! layout, and the validate / resolve / wait / re-scan pipeline that lets a
//! guest block until at least one of several descriptors is ready to read.
//!
//! The host call takes a guest-memory region holding an array of `Interest`
//! records and an equal-length, pre-zeroed output region for `Ready` records.
//! Each record is a fixed 8-byte layout: a 32-bit descriptor followed by a
//! 32-bit little-endian interest bitmask.

use vstd::bytes::{spec_u32_from_le_bytes, spec_u32_to_le_bytes, u32_from_le_bytes, u32_to_le_bytes};
use vstd::prelude::*;
use vstd::slice::slice_subrange;

use crate::buffer::ReadWait;
use crate::devices::Devices;
use crate::devnum::spec_decompose_device;
use crate::errors::DeviceError;
use crate::link::LinkTable;

verus! {

/// Interest bit: notify when the descriptor is ready for reading.
pub const INTEREST_READ: u32 = 0x1;
/// Interest bit: ready for writing; accepted but not currently acted upon.
pub const INTEREST_WRITE: u32 = 0x2;

/// A set of interest bits.
#[derive(Debug, Copy, Clone, PartialEq, Eq, Hash, Structural)]
pub struct InterestFlags {
    /// The raw bitmask.
    pub bits: u32,
}

impl InterestFlags {
    /// Wraps a raw bitmask, keeping unknown bits.
    pub fn from_bits_retain(bits: u32) -> (r: InterestFlags)
        ensures
            r.bits == bits,
    {
        InterestFlags { bits }
    }

    /// Whether every bit of `other` is set in `self`.
    pub fn contains(&self, other: InterestFlags) -> (r: bool)
        ensures
            r <==> self.bits & other.bits == other.bits,
    {
        self.bits & other.bits == other.bits
    }
}

/// A guest-submitted request to be told when a descriptor becomes ready.
#[derive(Debug, Copy, Clone, PartialEq, Eq, Hash, Structural)]
pub struct Interest {
    /// The guest descriptor.
    pub fd: u32,
    /// The raw interest bitmask.
    pub interest_flags: u32,
}

impl Interest {
    /// The interest bits as a flag set.
    pub fn flags(&self) -> (r: InterestFlags)
        ensures
            r.bits == self.interest_flags,
    {
        InterestFlags::from_bits_retain(self.interest_flags)
    }
}

/// A value copy of a submitted interest that is currently satisfied.
#[derive(Debug, Copy, Clone, PartialEq, Eq, Hash, Structural)]
pub struct Ready {
    /// The guest descriptor, copied from the interest.
    pub fd: u32,
    /// The raw interest bitmask, copied from the interest.
    pub interest_flags: u32,
}

impl Ready {
    /// The interest bits as a flag set.
    pub fn flags(&self) -> (r: InterestFlags)
        ensures
            r.bits == self.interest_flags,
    {
        InterestFlags::from_bits_retain(self.interest_flags)
    }

    /// The all-zero record that a pre-zeroed output array holds.
    pub fn zeroed() -> (r: Ready)
        ensures
            r.fd == 0,
            r.interest_flags == 0,
    {
        Ready { fd: 0, interest_flags: 0 }
    }
}

/// The ready record reporting that an interest is satisfied: a value copy of
/// the interest.
pub open spec fn spec_ready_of(interest: Interest) -> Ready {
    Ready { fd: interest.fd, interest_flags: interest.interest_flags }
}

/// Step 1 of the protocol: the interest count and the output count must be
/// equal; a mismatch is a caller-contract violation, fatal to this call,
/// raised before any guest memory is touched.
pub fn validate_counts(interests_len: usize, ready_len: usize) -> (r: Result<(), DeviceError>)
    ensures
        r is Ok <==> interests_len == ready_len,
        r is Err ==> r == Err::<(), DeviceError>(DeviceError::ContractViolation),
{
    if interests_len == ready_len {
        Ok(())
    } else {
        Err(DeviceError::ContractViolation)
    }
}

/// Whether an array of `count` 8-byte records starting at guest address `ptr`
/// lies inside a guest memory of `mem_len` bytes. Computed without overflow,
/// so an out-of-range request is reported rather than wrapped around.
pub fn region_in_bounds(mem_len: usize, ptr: usize, count: usize) -> (r: bool)
    ensures
        r <==> ptr + count * 8 <= mem_len,
{
    (ptr as u128) + (count as u128) * 8 <= mem_len as u128
}

/// Decodes a guest-memory region into interest records: each record is 8
/// bytes, a little-endian 32-bit descriptor followed by a little-endian
/// 32-bit interest bitmask.
pub fn interests_from_bytes(bytes: &[u8]) -> (r: Vec<Interest>)
    requires
        bytes@.len() % 8 == 0,
    ensures
        r@.len() * 8 == bytes@.len(),
        forall|j: int|
            0 <= j < r@.len() ==> (#[trigger] r@[j]) == (Interest {
                fd: spec_u32_from_le_bytes(bytes@.subrange(8 * j, 8 * j + 4)),
                interest_flags: spec_u32_from_le_bytes(bytes@.subrange(8 * j + 4, 8 * j + 8)),
            }),
{
    let n = bytes.len() / 8;
    proof {
        vstd::arithmetic::div_mod::lemma_fundamental_div_mod(bytes@.len() as int, 8);
    }
    let mut out: Vec<Interest> = Vec::new();
    let mut j: usize = 0;
    while j < n
        invariant
            bytes@.len() == n * 8,
            bytes@.len() <= usize::MAX,
            j <= n,
            out@.len() == j,
            forall|k: int|
                0 <= k < j ==> (#[trigger] out@[k]) == (Interest {
                    fd: spec_u32_from_le_bytes(bytes@.subrange(8 * k, 8 * k + 4)),
                    interest_flags: spec_u32_from_le_bytes(bytes@.subrange(8 * k + 4, 8 * k + 8)),
                }),
        decreases n - j,
    {
        let fd = u32_from_le_bytes(slice_subrange(bytes, 8 * j, 8 * j + 4));
        let flags = u32_from_le_bytes(slice_subrange(bytes, 8 * j + 4, 8 * j + 8));
        out.push(Interest { fd, interest_flags: flags });
        j += 1;
    }
    out
}

/// Decodes the guest-memory output region into ready records; the layout is
/// the same 8-byte one the interests use, since ready records are value
/// copies of interests.
pub fn ready_records_from_bytes(bytes: &[u8]) -> (r: Vec<Ready>)
    requires
        bytes@.len() % 8 == 0,
    ensures
        r@.len() * 8 == bytes@.len(),
        forall|j: int|
            0 <= j < r@.len() ==> (#[trigger] r@[j]) == (Ready {
                fd: spec_u32_from_le_bytes(bytes@.subrange(8 * j, 8 * j + 4)),
                interest_flags: spec_u32_from_le_bytes(bytes@.subrange(8 * j + 4, 8 * j + 8)),
            }),
{
    let n = bytes.len() / 8;
    proof {
        vstd::arithmetic::div_mod::lemma_fundamental_div_mod(bytes@.len() as int, 8);
    }
    let mut out: Vec<Ready> = Vec::new();
    let mut j: usize = 0;
    while j < n
        invariant
            bytes@.len() == n * 8,
            bytes@.len() <= usize::MAX,
            j <= n,
            out@.len() == j,
            forall|k: int|
                0 <= k < j ==> (#[trigger] out@[k]) == (Ready {
                    fd: spec_u32_from_le_bytes(bytes@.subrange(8 * k, 8 * k + 4)),
                    interest_flags: spec_u32_from_le_bytes(bytes@.subrange(8 * k + 4, 8 * k + 8)),
                }),
        decreases n - j,
    {
        let fd = u32_from_le_bytes(slice_subrange(bytes, 8 * j, 8 * j + 4));
        let flags = u32_from_le_bytes(slice_subrange(bytes, 8 * j + 4, 8 * j + 8));
        out.push(Ready { fd, interest_flags: flags });
        j += 1;
    }
    out
}

/// Encodes ready records for the guest-memory output region, in the same
/// 8-byte little-endian layout that the interests arrive in.
pub fn ready_records_to_bytes(records: &Vec<Ready>) -> (r: Vec<u8>)
    ensures
        r@.len() == records@.len() * 8,
        forall|j: int|
            0 <= j < records@.len() ==> r@.subrange(8 * j, 8 * j + 4) == spec_u32_to_le_bytes(
                (#[trigger] records@[j]).fd,
            ) && r@.subrange(8 * j + 4, 8 * j + 8) == spec_u32_to_le_bytes(
                records@[j].interest_flags,
            ),
{
    let n = records.len();
    let mut out: Vec<u8> = Vec::new();
    let mut j: usize = 0;
    while j < n
        invariant
            n == records@.len(),
            j <= n,
            out@.len() == j * 8,
            forall|k: int|
                0 <= k < j ==> out@.subrange(8 * k, 8 * k + 4) == spec_u32_to_le_bytes(
                    (#[trigger] records@[k]).fd,
                ) && out@.subrange(8 * k + 4, 8 * k + 8) == spec_u32_to_le_bytes(
                    records@[k].interest_flags,
                ),
        decreases n - j,
    {
        let ghost prev = out@;
        let mut fd_bytes = u32_to_le_bytes(records[j].fd);
        out.append(&mut fd_bytes);
        let mut flag_bytes = u32_to_le_bytes(records[j].interest_flags);
        out.append(&mut flag_bytes);
        proof {
            assert forall|k: int| 0 <= k < j implies out@.subrange(8 * k, 8 * k + 4)
                == spec_u32_to_le_bytes((#[trigger] records@[k]).fd) && out@.subrange(
                8 * k + 4,
                8 * k + 8,
            ) == spec_u32_to_le_bytes(records@[k].interest_flags) by {
                assert(out@.subrange(8 * k, 8 * k + 4) =~= prev.subrange(8 * k, 8 * k + 4));
                assert(out@.subrange(8 * k + 4, 8 * k + 8) =~= prev.subrange(8 * k + 4, 8 * k + 8));
            }
            assert(out@.subrange(8 * j, 8 * j + 4) =~= spec_u32_to_le_bytes(records@[j as int].fd));
            assert(out@.subrange(8 * j + 4, 8 * j + 8) =~= spec_u32_to_le_bytes(
                records@[j as int].interest_flags,
            ));
        }
        j += 1;
    }
    out
}

/// One READ interest per descriptor: what a guest that blocks until any of
/// its descriptors is readable submits to the host call.
pub fn read_interests_of_fds(fds: &Vec<u32>) -> (r: Vec<Interest>)
    ensures
        r@.len() == fds@.len(),
        forall|j: int|
            0 <= j < fds@.len() ==> (#[trigger] r@[j]) == (Interest {
                fd: fds@[j],
                interest_flags: INTEREST_READ,
            }),
{
    let n = fds.len();
    let mut out: Vec<Interest> = Vec::new();
    let mut j: usize = 0;
    while j < n
        invariant
            n == fds@.len(),
            j <= n,
            out@.len() == j,
            forall|k: int|
                0 <= k < j ==> (#[trigger] out@[k]) == (Interest {
                    fd: fds@[k],
                    interest_flags: INTEREST_READ,
                }),
        decreases n - j,
    {
        out.push(Interest { fd: fds[j], interest_flags: INTEREST_READ });
        j += 1;
    }
    out
}

/// The pre-zeroed output array the host call's caller contract demands.
pub fn zeroed_ready_records(n: usize) -> (r: Vec<Ready>)
    ensures
        r@.len() == n,
        forall|j: int| 0 <= j < n ==> (#[trigger] r@[j]) == (Ready { fd: 0, interest_flags: 0 }),
{
    let mut out: Vec<Ready> = Vec::new();
    let mut j: usize = 0;
    while j < n
        invariant
            j <= n,
            out@.len() == j,
            forall|k: int|
                0 <= k < j ==> (#[trigger] out@[k]) == (Ready { fd: 0, interest_flags: 0 }),
        decreases n - j,
    {
        out.push(Ready::zeroed());
        j += 1;
    }
    out
}

/// The descriptors of the first `n_ready` output records: only that prefix of
/// the output array is valid after the host call returns `n_ready`.
pub fn ready_fds_prefix(ready: &Vec<Ready>, n_ready: usize) -> (r: Vec<u32>)
    requires
        n_ready <= ready@.len(),
    ensures
        r@.len() == n_ready,
        forall|j: int| 0 <= j < n_ready ==> (#[trigger] r@[j]) == ready@[j].fd,
{
    let mut out: Vec<u32> = Vec::new();
    let mut j: usize = 0;
    while j < n_ready
        invariant
            n_ready <= ready@.len(),
            j <= n_ready,
            out@.len() == j,
            forall|k: int| 0 <= k < j ==> (#[trigger] out@[k]) == ready@[k].fd,
        decreases n_ready - j,
    {
        out.push(ready[j].fd);
        j += 1;
    }
    out
}

/// Whether a resolved device number names something the registry can answer
/// for: either an unmanaged device (unknown family code), or an attached
/// (family, index).
pub open spec fn spec_device_known(devs: Devices, device_no: u64) -> bool {
    match spec_decompose_device(device_no) {
        Some((dev_type, dev_idx)) => devs.spec_contains(dev_type, dev_idx),
        None => true,
    }
}

/// Whether the device behind a resolved device number is currently ready for
/// reading. An unmanaged descriptor (ordinary file) is always ready.
pub open spec fn spec_interest_ready(devs: Devices, table: LinkTable, device_no: u64) -> bool {
    match spec_decompose_device(device_no) {
        Some((dev_type, dev_idx)) => devs.spec_is_ready_for_read(table, dev_type, dev_idx),
        None => true,
    }
}

/// Step 3 of the protocol: every resolved device number that decodes to a
/// known family must name an attached (family, index); one unknown device
/// fails the entire batched call, with no partial success.
pub fn check_known_devices(devs: &Devices, device_nos: &Vec<u64>) -> (r: Result<(), DeviceError>)
    ensures
        r is Ok <==> forall|j: int|
            0 <= j < device_nos@.len() ==> spec_device_known(*devs, #[trigger] device_nos@[j]),
        r is Err ==> r == Err::<(), DeviceError>(DeviceError::UnknownDevice),
{
    let n = device_nos.len();
    let mut j: usize = 0;
    while j < n
        invariant
            n == device_nos@.len(),
            j <= n,
            forall|k: int| 0 <= k < j ==> spec_device_known(*devs, #[trigger] device_nos@[k]),
        decreases n - j,
    {
        match crate::devnum::decompose_device(device_nos[j]) {
            Some((dev_type, dev_idx)) => {
                if !devs.contains(dev_type, dev_idx) {
                    return Err(DeviceError::UnknownDevice);
                }
            },
            None => {},
        }
        j += 1;
    }
    Ok(())
}

/// The notify epoch of the read-side buffer behind a managed device number's
/// endpoint: a pending subscription registered at this epoch is woken by the
/// next non-empty write towards the endpoint.
pub open spec fn spec_device_read_epoch(devs: Devices, table: LinkTable, device_no: u64) -> nat
    recommends
        spec_decompose_device(device_no) is Some,
{
    let (dev_type, dev_idx) = spec_decompose_device(device_no)->Some_0;
    devs.endpoint_at(dev_type, dev_idx).link_of(table).read_buffer(
        devs.endpoint_at(dev_type, dev_idx).first_half,
    ).epoch()
}

/// Step 4 of the protocol, the registration half: one read-readiness
/// subscription per resolved interest. Unmanaged descriptors are immediately
/// ready; managed ones subscribe through the registry, and a pending
/// subscription carries the registration epoch of its device's read buffer,
/// so no write after registration can be missed. The caller then waits until
/// any one subscription resolves (first-to-finish).
pub fn subscribe_interests(
    devs: &Devices,
    table: &LinkTable,
    device_nos: &Vec<u64>,
) -> (r: Vec<ReadWait>)
    requires
        devs.wf(*table),
        forall|j: int|
            0 <= j < device_nos@.len() ==> spec_device_known(*devs, #[trigger] device_nos@[j]),
    ensures
        r@.len() == device_nos@.len(),
        forall|j: int|
            0 <= j < device_nos@.len() ==> ((#[trigger] r@[j]) is Ready <==> spec_interest_ready(
                *devs,
                *table,
                device_nos@[j],
            )),
        forall|j: int|
            0 <= j < device_nos@.len() ==> ((#[trigger] r@[j]) matches ReadWait::Pending(sub)
                ==> spec_decompose_device(device_nos@[j]) is Some && sub.epoch@
                == spec_device_read_epoch(*devs, *table, device_nos@[j])),
{
    let n = device_nos.len();
    let mut waits: Vec<ReadWait> = Vec::new();
    let mut j: usize = 0;
    while j < n
        invariant
            devs.wf(*table),
            forall|k: int|
                0 <= k < device_nos@.len() ==> spec_device_known(*devs, #[trigger] device_nos@[k]),
            n == device_nos@.len(),
            j <= n,
            waits@.len() == j,
            forall|k: int|
                0 <= k < j ==> ((#[trigger] waits@[k]) is Ready <==> spec_interest_ready(
                    *devs,
                    *table,
                    device_nos@[k],
                )),
            forall|k: int|
                0 <= k < j ==> ((#[trigger] waits@[k]) matches ReadWait::Pending(sub)
                    ==> spec_decompose_device(device_nos@[k]) is Some && sub.epoch@
                    == spec_device_read_epoch(*devs, *table, device_nos@[k])),
        decreases n - j,
    {
        let wait = match crate::devnum::decompose_device(device_nos[j]) {
            Some((dev_type, dev_idx)) => {
                match devs.wait_until_ready_for_read(table, dev_type, dev_idx) {
                    Some(w) => w,
                    None => {
                        // every managed device number was checked against the
                        // registry, so the subscription cannot be refused
                        proof {
                            assert(spec_device_known(*devs, device_nos@[j as int]));
                            assert(false);
                        }
                        unreached()
                    },
                }
            },
            None => ReadWait::Ready,
        };
        waits.push(wait);
        j += 1;
    }
    waits
}

/// Step 5 of the protocol: the interests whose devices are ready at re-scan
/// time, as value copies, contiguously and in the original relative order.
pub open spec fn spec_ready_records(
    devs: Devices,
    table: LinkTable,
    interests: Seq<Interest>,
    device_nos: Seq<u64>,
) -> Seq<Ready>
    decreases interests.len(),
{
    if interests.len() == 0 {
        Seq::empty()
    } else {
        let rest = spec_ready_records(devs, table, interests.drop_last(), device_nos.drop_last());
        if spec_interest_ready(devs, table, device_nos.last()) {
            rest.push(spec_ready_of(interests.last()))
        } else {
            rest
        }
    }
}

/// Steps 5 and 6 of the protocol: re-scans every interest's current readiness
/// (not just whichever one triggered the wake-up) and collects every interest
/// presently ready, in the original relative order.
pub fn collect_ready(
    devs: &Devices,
    table: &LinkTable,
    interests: &Vec<Interest>,
    device_nos: &Vec<u64>,
) -> (r: Vec<Ready>)
    requires
        devs.wf(*table),
        interests@.len() == device_nos@.len(),
        forall|j: int|
            0 <= j < device_nos@.len() ==> spec_device_known(*devs, #[trigger] device_nos@[j]),
    ensures
        r@ == spec_ready_records(*devs, *table, interests@, device_nos@),
{
    let n = interests.len();
    let mut out: Vec<Ready> = Vec::new();
    let mut j: usize = 0;
    while j < n
        invariant
            devs.wf(*table),
            forall|k: int|
                0 <= k < device_nos@.len() ==> spec_device_known(*devs, #[trigger] device_nos@[k]),
            n == interests@.len(),
            interests@.len() == device_nos@.len(),
            j <= n,
            out@ == spec_ready_records(
                *devs,
                *table,
                interests@.take(j as int),
                device_nos@.take(j as int),
            ),
        decreases n - j,
    {
        let ready = match crate::devnum::decompose_device(device_nos[j]) {
            Some((dev_type, dev_idx)) => {
                match devs.is_ready_for_read(table, dev_type, dev_idx) {
                    Some(b) => b,
                    None => {
                        // every managed device number was checked against the
                        // registry, so the index cannot be out of range
                        proof {
                            assert(spec_device_known(*devs, device_nos@[j as int]));
                            assert(false);
                        }
                        unreached()
                    },
                }
            },
            None => true,
        };
        if ready {
            out.push(Ready { fd: interests[j].fd, interest_flags: interests[j].interest_flags });
        }
        proof {
            assert(interests@.take(j + 1).drop_last() =~= interests@.take(j as int));
            assert(device_nos@.take(j + 1).drop_last() =~= device_nos@.take(j as int));
            assert(interests@.take(j + 1).last() == interests@[j as int]);
            assert(device_nos@.take(j + 1).last() == device_nos@[j as int]);
        }
        j += 1;
    }
    proof {
        assert(interests@.take(n as int) =~= interests@);
        assert(device_nos@.take(n as int) =~= device_nos@);
    }
    out
}

/// Step 6 of the protocol: writes the ready subset into the caller's
/// pre-zeroed output array starting at offset 0 and returns the count
/// written; slots beyond the count keep the caller's pre-zeroed default.
pub fn fill_output(out: &mut Vec<Ready>, ready: &Vec<Ready>) -> (n: usize)
    requires
        ready@.len() <= old(out)@.len(),
    ensures
        n == ready@.len(),
        final(out)@.len() == old(out)@.len(),
        forall|k: int| 0 <= k < ready@.len() ==> final(out)@[k] == ready@[k],
        forall|k: int| ready@.len() <= k < old(out)@.len() ==> final(out)@[k] == old(out)@[k],
{
    let n = ready.len();
    let mut k: usize = 0;
    while k < n
        invariant
            n == ready@.len(),
            n <= out@.len(),
            out@.len() == old(out)@.len(),
            k <= n,
            forall|i: int| 0 <= i < k ==> out@[i] == ready@[i],
            forall|i: int| k <= i < old(out)@.len() ==> out@[i] == old(out)@[i],
        decreases n - k,
    {
        let slot = &mut out[k];
        *slot = ready[k];
        k += 1;
    }
    n
}

/// Law: the wait resolves only at a moment when at least one resolved device
/// is non-empty, and re-scanning then yields a non-empty ready set: the call
/// never reports "zero ready" after a successful wait.
pub proof fn lemma_ready_records_nonempty(
    devs: Devices,
    table: LinkTable,
    interests: Seq<Interest>,
    device_nos: Seq<u64>,
)
    requires
        interests.len() == device_nos.len(),
        exists|j: int| 0 <= j < device_nos.len() && spec_interest_ready(devs, table, device_nos[j]),
    ensures
        spec_ready_records(devs, table, interests, device_nos).len() > 0,
    decreases interests.len(),
{
    let j = choose|j: int|
        0 <= j < device_nos.len() && spec_interest_ready(devs, table, device_nos[j]);
    if j == interests.len() - 1 {
    } else {
        assert(device_nos.drop_last()[j] == device_nos[j]);
        lemma_ready_records_nonempty(
            devs,
            table,
            interests.drop_last(),
            device_nos.drop_last(),
        );
    }
}

/// Law: the reported set is a subset of the submitted interests whose devices
/// are currently ready — every record in it is the value copy of some
/// submitted interest whose device is ready at re-scan time.
pub proof fn lemma_ready_records_sound(
    devs: Devices,
    table: LinkTable,
    interests: Seq<Interest>,
    device_nos: Seq<u64>,
    k: int,
)
    requires
        interests.len() == device_nos.len(),
        0 <= k < spec_ready_records(devs, table, interests, device_nos).len(),
    ensures
        exists|j: int|
            0 <= j < interests.len() && spec_interest_ready(devs, table, device_nos[j])
                && spec_ready_records(devs, table, interests, device_nos)[k] == spec_ready_of(
                interests[j],
            ),
    decreases interests.len(),
{
    let records = spec_ready_records(devs, table, interests, device_nos);
    let rest = spec_ready_records(devs, table, interests.drop_last(), device_nos.drop_last());
    if spec_interest_ready(devs, table, device_nos.last()) && k == records.len() - 1 {
        assert(records[k] == spec_ready_of(interests[interests.len() - 1]));
    } else {
        lemma_ready_records_sound(
            devs,
            table,
            interests.drop_last(),
            device_nos.drop_last(),
            k,
        );
        let j = choose|j: int|
            0 <= j < interests.drop_last().len() && spec_interest_ready(
                devs,
                table,
                device_nos.drop_last()[j],
            ) && rest[k] == spec_ready_of(interests.drop_last()[j]);
        assert(interests[j] == interests.drop_last()[j]);
    }
}

} // verus!
