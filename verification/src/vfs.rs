//! The virtual device directory: a filesystem-like provider that exposes a
//! computer's registry entries as open-able, readable/writable, stat-able,
//! listable character-special pseudo-files named `ethernet<N>` and
//! `wireless<N>`, plus the directory pseudo-file `.` itself. The namespace is
//! fixed: every structural mutation is rejected.

use vstd::prelude::*;

use crate::devices::Devices;
use crate::devnum::{
    make_device_number, spec_make_device_number, DEV_MAJOR, ETHERNET_MAJOR, MINOR_LIMIT,
    WIRELESS_MAJOR,
};
use crate::errors::DeviceError;
use crate::link::{AttachedDuplexLink, LinkTable};
use crate::text::{
    all_digits, dec_digits, dec_value, digit_val, first_digit_pos, is_ascii_digit,
    lemma_first_digit_pos_at, lemma_first_digit_pos_bounds, push_decimal, spec_is_ascii_digit,
    str_eq,
};
use crate::DeviceType;

verus! {

/// Descriptor flag: append mode; the only flag a device handle reports or
/// accepts.
pub const FDFLAG_APPEND: u32 = 0x1;
/// Descriptor flag: data sync; unsupported on devices.
pub const FDFLAG_DSYNC: u32 = 0x2;
/// Descriptor flag: non-blocking; tolerated but meaningless on devices.
pub const FDFLAG_NONBLOCK: u32 = 0x4;
/// Descriptor flag: read sync; unsupported on devices.
pub const FDFLAG_RSYNC: u32 = 0x8;
/// Descriptor flag: full sync; unsupported on devices.
pub const FDFLAG_SYNC: u32 = 0x10;

/// The file types the device directory serves.
#[derive(Debug, Copy, Clone, PartialEq, Eq, Structural)]
pub enum FileKind {
    CharacterDevice,
    Directory,
}

/// What `stat` reports for a pseudo-file. Size is a fixed zero: a buffer's
/// length changes asynchronously and is not meaningful as a static size.
#[derive(Debug, Copy, Clone, PartialEq, Eq, Structural)]
pub struct Filestat {
    /// The synthesized device number.
    pub device_id: u64,
    pub inode: u64,
    pub filetype: FileKind,
    pub nlink: u64,
    pub size: u64,
}

/// An open handle bound to a device endpoint, tagged with the capabilities
/// the guest requested and a synthesized device number.
#[derive(Debug, Copy, Clone, PartialEq, Eq, Structural)]
pub struct OpenDuplexLinkFile {
    /// The endpoint this handle reads and writes.
    pub link: AttachedDuplexLink,
    /// The family-specific constant packed with the slot index.
    pub device_number: u32,
    /// Whether the handle may read.
    pub read: bool,
    /// Whether the handle may write.
    pub write: bool,
}

/// An open handle on the device directory pseudo-file itself.
#[derive(Debug, Copy, Clone, PartialEq, Eq, Structural)]
pub struct OpenDevDirFile {
}

/// What opening a path in the device directory yields.
#[derive(Debug, Copy, Clone, PartialEq, Eq, Structural)]
pub enum OpenedNode {
    Link(OpenDuplexLinkFile),
    Directory(OpenDevDirFile),
}

/// The value a device-path index parses to: the suffix must be all decimal
/// digits and fit in the 20 bits a slot index has, else the index is
/// unusable.
pub open spec fn spec_parse_index(s: Seq<char>) -> Option<u32> {
    if all_digits(s) && dec_value(s) < MINOR_LIMIT {
        Some(dec_value(s) as u32)
    } else {
        None
    }
}

/// The family-name part of a device path: everything before the first digit.
pub open spec fn spec_dev_prefix(s: Seq<char>) -> Seq<char> {
    s.subrange(0, first_digit_pos(s))
}

/// The index part of a device path: the parse of everything from the first
/// digit on, or `None` when the path holds no digit.
pub open spec fn spec_dev_index(s: Seq<char>) -> Option<u32> {
    if first_digit_pos(s) == s.len() {
        None
    } else {
        spec_parse_index(s.skip(first_digit_pos(s)))
    }
}

/// The index of the first ASCII digit in `name`, or its length when `name`
/// holds none.
fn first_digit_index(name: &str) -> (d: usize)
    ensures
        d == first_digit_pos(name@),
{
    let n = name.unicode_len();
    let mut d: usize = 0;
    while d < n
        invariant
            n == name@.len(),
            d <= n,
            forall|i: int| 0 <= i < d ==> !spec_is_ascii_digit(#[trigger] name@[i]),
        decreases n - d,
    {
        if is_ascii_digit(name.get_char(d)) {
            proof {
                lemma_first_digit_pos_at(name@, d as int);
            }
            return d;
        }
        d += 1;
    }
    proof {
        lemma_first_digit_pos_at(name@, n as int);
    }
    d
}

/// Parses the characters of `name` from position `from` as a decimal index.
fn parse_index(name: &str, from: usize) -> (r: Option<u32>)
    requires
        from <= name@.len(),
    ensures
        r == spec_parse_index(name@.skip(from as int)),
        r matches Some(v) ==> v < MINOR_LIMIT,
{
    let ghost t = name@.skip(from as int);
    let n = name.unicode_len();
    let mut value: u32 = 0;
    let mut over: bool = false;
    let mut ok: bool = true;
    let mut j: usize = from;
    while j < n
        invariant
            from <= j <= n,
            n == name@.len(),
            t == name@.skip(from as int),
            ok <==> all_digits(t.take(j - from)),
            ok && !over ==> value == dec_value(t.take(j - from)) && value < MINOR_LIMIT,
            ok && over ==> dec_value(t.take(j - from)) >= MINOR_LIMIT,
        decreases n - j,
    {
        let c = name.get_char(j);
        let ghost prev = t.take(j - from);
        proof {
            assert(t.take(j - from + 1).drop_last() =~= prev);
            assert(t.take(j - from + 1).last() == name@[j as int]);
        }
        if !is_ascii_digit(c) {
            ok = false;
        } else if ok && !over {
            let dv = (c as u32) - 48;
            let nv = value * 10 + dv;
            if nv >= MINOR_LIMIT {
                over = true;
                proof {
                    assert(dec_value(t.take(j - from + 1)) == dec_value(prev) * 10 + digit_val(
                        name@[j as int],
                    ));
                }
            } else {
                value = nv;
            }
        }
        j += 1;
    }
    proof {
        assert(t.take(n - from) =~= t);
    }
    if ok && !over {
        Some(value)
    } else {
        None
    }
}

/// Splits a device path into the family name before the first digit run and
/// the parsed decimal index from the first digit on (`None` when there is no
/// digit, the run holds a non-digit, or the value does not fit in a slot
/// index's 20 bits).
pub fn parse_dev<'a>(name: &'a str) -> (r: (&'a str, Option<u32>))
    ensures
        r.0@ == spec_dev_prefix(name@),
        r.1 == spec_dev_index(name@),
        r.1 matches Some(v) ==> v < MINOR_LIMIT,
{
    proof {
        lemma_first_digit_pos_bounds(name@);
    }
    let n = name.unicode_len();
    let d = first_digit_index(name);
    let prefix = name.substring_char(0, d);
    let idx = if d < n {
        parse_index(name, d)
    } else {
        None
    };
    (prefix, idx)
}

/// What opening a path in the device directory yields, for every combination
/// of path, open flags, capability requests and descriptor flags:
/// - any nonzero generic open flag is `NotSupported`;
/// - any flag of the synchronize family is `NotSupported`;
/// - `<family-name><index>` resolves against the registry, `NotFound` when
///   the index was never attached, else a handle bound to that endpoint,
///   tagged with the requested capabilities and the synthesized device
///   number;
/// - `.` (no digits) opens the directory pseudo-file;
/// - everything else is `NotFound`.
pub open spec fn spec_open_file(
    devs: Devices,
    path: Seq<char>,
    flags: u32,
    read: bool,
    write: bool,
    fdflags: u32,
) -> Result<OpenedNode, DeviceError> {
    if flags != 0 {
        Err(DeviceError::NotSupported)
    } else if fdflags & (FDFLAG_DSYNC | FDFLAG_SYNC | FDFLAG_RSYNC) != 0 {
        Err(DeviceError::NotSupported)
    } else {
        let prefix = spec_dev_prefix(path);
        let idx = spec_dev_index(path);
        if prefix == "ethernet"@ && idx is Some {
            spec_open_endpoint(devs, DeviceType::Ethernet, idx->Some_0 as usize, read, write)
        } else if prefix == "wireless"@ && idx is Some {
            spec_open_endpoint(devs, DeviceType::Wireless, idx->Some_0 as usize, read, write)
        } else if prefix == "."@ && idx is None {
            Ok(OpenedNode::Directory(OpenDevDirFile {  }))
        } else {
            Err(DeviceError::NotFound)
        }
    }
}

/// The handle opening (family, index) yields: `NotFound` when the index was
/// never attached.
pub open spec fn spec_open_endpoint(
    devs: Devices,
    dev_type: DeviceType,
    dev_idx: usize,
    read: bool,
    write: bool,
) -> Result<OpenedNode, DeviceError> {
    if devs.spec_contains(dev_type, dev_idx) {
        Ok(
            OpenedNode::Link(
                OpenDuplexLinkFile {
                    link: devs.endpoint_at(dev_type, dev_idx),
                    device_number: spec_make_device_number(
                        crate::devnum::family_code(dev_type),
                        dev_idx as u32,
                    ),
                    read,
                    write,
                },
            ),
        )
    } else {
        Err(DeviceError::NotFound)
    }
}

/// Opens a path in the device directory: rejects unsupported flags, resolves
/// the path against the registry and returns a capability-tagged handle.
pub fn open_file(
    devs: &Devices,
    path: &str,
    flags: u32,
    read: bool,
    write: bool,
    fdflags: u32,
) -> (r: Result<OpenedNode, DeviceError>)
    ensures
        r == spec_open_file(*devs, path@, flags, read, write, fdflags),
{
    proof {
        reveal_strlit("ethernet");
        reveal_strlit("wireless");
        reveal_strlit(".");
        assert("ethernet"@.len() == 8);
        assert("wireless"@.len() == 8);
        assert("."@.len() == 1);
        assert("ethernet"@[0] == 'e');
        assert("wireless"@[0] == 'w');
    }
    if flags != 0 {
        return Err(DeviceError::NotSupported);
    }
    if fdflags & (FDFLAG_DSYNC | FDFLAG_SYNC | FDFLAG_RSYNC) != 0 {
        return Err(DeviceError::NotSupported);
    }

    let (name, idx) = parse_dev(path);

    if str_eq(name, "ethernet") {
        match idx {
            Some(i) => open_endpoint(devs, DeviceType::Ethernet, i as usize, read, write),
            None => Err(DeviceError::NotFound),
        }
    } else if str_eq(name, "wireless") {
        match idx {
            Some(i) => open_endpoint(devs, DeviceType::Wireless, i as usize, read, write),
            None => Err(DeviceError::NotFound),
        }
    } else if str_eq(name, ".") {
        match idx {
            Some(_) => Err(DeviceError::NotFound),
            None => Ok(OpenedNode::Directory(OpenDevDirFile {  })),
        }
    } else {
        Err(DeviceError::NotFound)
    }
}

/// Resolves (family, index) to a capability-tagged handle, `NotFound` when
/// the index was never attached.
fn open_endpoint(
    devs: &Devices,
    dev_type: DeviceType,
    dev_idx: usize,
    read: bool,
    write: bool,
) -> (r: Result<OpenedNode, DeviceError>)
    requires
        dev_idx < MINOR_LIMIT as usize,
    ensures
        r == spec_open_endpoint(*devs, dev_type, dev_idx, read, write),
{
    match devs.device(dev_type, dev_idx) {
        Some(link) => {
            let major = match dev_type {
                DeviceType::Ethernet => ETHERNET_MAJOR,
                DeviceType::Wireless => WIRELESS_MAJOR,
            };
            let device_number = make_device_number(major, dev_idx as u32);
            Ok(OpenedNode::Link(OpenDuplexLinkFile { link, device_number, read, write }))
        },
        None => Err(DeviceError::NotFound),
    }
}

impl OpenDuplexLinkFile {
    /// Device handles are character-special files.
    pub fn get_filetype(&self) -> (r: FileKind)
        ensures
            r == FileKind::CharacterDevice,
    {
        FileKind::CharacterDevice
    }

    /// A device handle always reports append mode: writes go at the end of
    /// the queue.
    pub fn get_fdflags(&self) -> (r: u32)
        ensures
            r == FDFLAG_APPEND,
    {
        FDFLAG_APPEND
    }

    /// Append mode is the only accepted flag set; anything else is
    /// `NotSupported`.
    pub fn set_fdflags(&self, flags: u32) -> (r: Result<(), DeviceError>)
        ensures
            r is Ok <==> flags == FDFLAG_APPEND,
            r is Err ==> r == Err::<(), DeviceError>(DeviceError::NotSupported),
    {
        if flags == FDFLAG_APPEND {
            Ok(())
        } else {
            Err(DeviceError::NotSupported)
        }
    }

    /// The stat of a device handle: character-special, the synthesized device
    /// number, and a fixed zero size.
    pub fn get_filestat(&self) -> (r: Filestat)
        ensures
            r == (Filestat {
                device_id: self.device_number as u64,
                inode: 1,
                filetype: FileKind::CharacterDevice,
                nlink: 0,
                size: 0,
            }),
    {
        Filestat {
            device_id: self.device_number as u64,
            inode: 1,
            filetype: FileKind::CharacterDevice,
            nlink: 0,
            size: 0,
        }
    }

    /// Reads whatever is queued towards this endpoint: `BadDescriptor` on a
    /// handle opened without read capability, else a non-blocking drain of
    /// the endpoint's read slot. Everything else in the table is untouched:
    /// the drained buffer keeps its wake-up event and epoch (a read fires no
    /// notification), the opposite direction's buffer is unchanged as a
    /// whole, and so is every other link.
    pub fn read(&self, table: &mut LinkTable) -> (r: Result<Vec<u8>, DeviceError>)
        requires
            self.link.valid(*old(table)),
        ensures
            !self.read ==> r == Err::<Vec<u8>, DeviceError>(DeviceError::BadDescriptor)
                && *final(table) == *old(table),
            self.read ==> (r matches Ok(v) && v@ == self.link.read_bytes(*old(table))),
            self.read ==> self.link.read_bytes(*final(table)) == Seq::<u8>::empty(),
            self.read ==> self.link.link_of(*final(table)).read_buffer(
                self.link.first_half,
            ).epoch() == self.link.link_of(*old(table)).read_buffer(self.link.first_half).epoch(),
            self.read ==> self.link.link_of(*final(table)).read_buffer(
                self.link.first_half,
            ).on_send == self.link.link_of(*old(table)).read_buffer(
                self.link.first_half,
            ).on_send,
            self.read ==> self.link.link_of(*final(table)).write_buffer(self.link.first_half)
                == self.link.link_of(*old(table)).write_buffer(self.link.first_half),
            final(table).links@.len() == old(table).links@.len(),
            forall|i: int|
                0 <= i < old(table).links@.len() && i != self.link.link_id
                    ==> final(table).links@[i] == old(table).links@[i],
    {
        if !self.read {
            return Err(DeviceError::BadDescriptor);
        }
        Ok(self.link.read(table))
    }

    /// Writes towards the paired endpoint: `BadDescriptor` on a handle opened
    /// without write capability, else an append to the endpoint's write slot
    /// that wakes the paired endpoint's waiters if and only if at least one
    /// byte was written. The handle's own read-side buffer is unchanged as a
    /// whole (no spurious wake-up there), the written buffer keeps its
    /// wake-up event, and every other link is untouched.
    pub fn write(&self, table: &mut LinkTable, bytes: &[u8]) -> (r: Result<u64, DeviceError>)
        requires
            self.link.valid(*old(table)),
        ensures
            !self.write ==> r == Err::<u64, DeviceError>(DeviceError::BadDescriptor)
                && *final(table) == *old(table),
            self.write ==> r == Ok::<u64, DeviceError>(bytes@.len() as u64),
            self.write ==> self.link.write_bytes(*final(table)) == self.link.write_bytes(
                *old(table),
            ) + bytes@,
            self.write ==> self.link.link_of(*final(table)).read_buffer(self.link.first_half)
                == self.link.link_of(*old(table)).read_buffer(self.link.first_half),
            self.write ==> self.link.link_of(*final(table)).write_buffer(
                self.link.first_half,
            ).on_send == self.link.link_of(*old(table)).write_buffer(
                self.link.first_half,
            ).on_send,
            self.write && bytes@.len() > 0 ==> self.link.link_of(*final(table)).write_buffer(
                self.link.first_half,
            ).epoch() == self.link.link_of(*old(table)).write_buffer(
                self.link.first_half,
            ).epoch() + 1,
            self.write && bytes@.len() == 0 ==> self.link.link_of(*final(table)).write_buffer(
                self.link.first_half,
            ).epoch() == self.link.link_of(*old(table)).write_buffer(
                self.link.first_half,
            ).epoch(),
            final(table).links@.len() == old(table).links@.len(),
            forall|i: int|
                0 <= i < old(table).links@.len() && i != self.link.link_id
                    ==> final(table).links@[i] == old(table).links@[i],
    {
        if !self.write {
            return Err(DeviceError::BadDescriptor);
        }
        let n = self.link.write(table, bytes);
        Ok(n as u64)
    }

    /// How many bytes a read would return right now; `BadDescriptor` on a
    /// handle opened without read capability.
    pub fn num_ready_bytes(&self, table: &LinkTable) -> (r: Result<u64, DeviceError>)
        requires
            self.link.valid(*table),
        ensures
            self.read ==> r == Ok::<u64, DeviceError>(self.link.read_bytes(*table).len() as u64),
            !self.read ==> r == Err::<u64, DeviceError>(DeviceError::BadDescriptor),
    {
        if self.read {
            let bytes = table.links[self.link.link_id].read_buffer_len(self.link.first_half);
            Ok(bytes as u64)
        } else {
            Err(DeviceError::BadDescriptor)
        }
    }

    /// Whether the handle was opened with read capability.
    pub fn readable(&self) -> (r: Result<(), DeviceError>)
        ensures
            r is Ok <==> self.read,
            r is Err ==> r == Err::<(), DeviceError>(DeviceError::BadDescriptor),
    {
        if self.read {
            Ok(())
        } else {
            Err(DeviceError::BadDescriptor)
        }
    }

    /// Whether the handle was opened with write capability.
    pub fn writable(&self) -> (r: Result<(), DeviceError>)
        ensures
            r is Ok <==> self.write,
            r is Err ==> r == Err::<(), DeviceError>(DeviceError::BadDescriptor),
    {
        if self.write {
            Ok(())
        } else {
            Err(DeviceError::BadDescriptor)
        }
    }
}

impl OpenDevDirFile {
    /// The directory pseudo-file is a directory.
    pub fn get_filetype(&self) -> (r: FileKind)
        ensures
            r == FileKind::Directory,
    {
        FileKind::Directory
    }

    /// The directory pseudo-file reports no descriptor flags.
    pub fn get_fdflags(&self) -> (r: u32)
        ensures
            r == 0,
    {
        0
    }

    /// The directory pseudo-file accepts no descriptor flag changes.
    pub fn set_fdflags(&self, _flags: u32) -> (r: Result<(), DeviceError>)
        ensures
            r == Err::<(), DeviceError>(DeviceError::NotSupported),
    {
        Err(DeviceError::NotSupported)
    }

    /// The directory pseudo-file is always readable.
    pub fn readable(&self) -> (r: Result<(), DeviceError>)
        ensures
            r is Ok,
    {
        Ok(())
    }

    /// The directory pseudo-file is read-only.
    pub fn writable(&self) -> (r: Result<(), DeviceError>)
        ensures
            r == Err::<(), DeviceError>(DeviceError::NotSupported),
    {
        Err(DeviceError::NotSupported)
    }
}

/// The stat of the device directory itself: the directory pseudo-device's
/// number and a fixed zero size.
pub open spec fn spec_dir_filestat() -> Filestat {
    Filestat {
        device_id: spec_make_device_number(DEV_MAJOR, 0) as u64,
        inode: 1,
        filetype: FileKind::Directory,
        nlink: 0,
        size: 0,
    }
}

/// Stats the device directory itself.
pub fn dir_filestat() -> (r: Filestat)
    ensures
        r == spec_dir_filestat(),
{
    let device_number = make_device_number(DEV_MAJOR, 0);
    Filestat {
        device_id: device_number as u64,
        inode: 1,
        filetype: FileKind::Directory,
        nlink: 0,
        size: 0,
    }
}

/// What stat-ing a path yields: the stat of the handle that opening the path
/// read-only with no flags yields, or that open's error.
pub open spec fn spec_get_path_filestat(devs: Devices, path: Seq<char>) -> Result<
    Filestat,
    DeviceError,
> {
    match spec_open_file(devs, path, 0, true, false, 0) {
        Ok(OpenedNode::Link(f)) => Ok(
            Filestat {
                device_id: f.device_number as u64,
                inode: 1,
                filetype: FileKind::CharacterDevice,
                nlink: 0,
                size: 0,
            },
        ),
        Ok(OpenedNode::Directory(_)) => Ok(spec_dir_filestat()),
        Err(e) => Err(e),
    }
}

/// Stats a path in the device directory by resolving it as a read-only open
/// would; symlinks cannot exist here, so `follow_symlinks` changes nothing.
pub fn get_path_filestat(devs: &Devices, path: &str, _follow_symlinks: bool) -> (r: Result<
    Filestat,
    DeviceError,
>)
    ensures
        r == spec_get_path_filestat(*devs, path@),
{
    match open_file(devs, path, 0, true, false, 0) {
        Ok(OpenedNode::Link(f)) => Ok(f.get_filestat()),
        Ok(OpenedNode::Directory(_)) => Ok(dir_filestat()),
        Err(e) => Err(e),
    }
}

/// One produced directory entry.
#[derive(Debug, Clone, PartialEq, Eq)]
pub struct DirEntry {
    /// The cursor at which a later listing resumes right after this entry.
    pub next: u64,
    pub inode: u64,
    /// The synthesized name, `<family-name><index>`.
    pub name: String,
    pub filetype: FileKind,
}

/// The number of entries a full listing of the registry yields.
pub open spec fn spec_total_entries(devs: Devices) -> int {
    devs.ethernet_links@.len() + devs.wireless_links@.len() as int
}

/// The name of the listing entry at absolute position `p`: every attached
/// ethernet slot by index, then every wireless slot by index.
pub open spec fn spec_entry_name(devs: Devices, p: int) -> Seq<char> {
    if p < devs.ethernet_links@.len() {
        "ethernet"@ + dec_digits(p)
    } else {
        "wireless"@ + dec_digits(p - devs.ethernet_links@.len())
    }
}

/// Lists the registry from a cursor: every attached ethernet slot by index,
/// then every wireless slot by index, each entry carrying the monotonic
/// resumption cursor right after itself, so a listing can be resumed from any
/// previously issued cursor. A cursor past the end yields nothing.
pub fn readdir(devs: &Devices, cursor: u64) -> (r: Vec<DirEntry>)
    requires
        devs.ethernet_links@.len() + devs.wireless_links@.len() <= usize::MAX,
    ensures
        cursor <= spec_total_entries(*devs) ==> r@.len() == spec_total_entries(*devs) - cursor,
        cursor > spec_total_entries(*devs) ==> r@.len() == 0,
        forall|k: int|
            0 <= k < r@.len() ==> (#[trigger] r@[k]).name@ == spec_entry_name(
                *devs,
                cursor + k,
            ) && r@[k].next == cursor + k + 1 && r@[k].inode == 1 + cursor + k && r@[k].filetype
                == FileKind::CharacterDevice,
{
    let eth = devs.ethernet_links.len();
    let wl = devs.wireless_links.len();
    let total = eth + wl;
    let start: usize = if cursor >= total as u64 {
        total
    } else {
        cursor as usize
    };
    let mut out: Vec<DirEntry> = Vec::new();
    let mut p: usize = start;
    while p < total
        invariant
            eth == devs.ethernet_links@.len(),
            total == eth + wl,
            wl == devs.wireless_links@.len(),
            start <= p <= total,
            out@.len() == p - start,
            forall|k: int|
                0 <= k < out@.len() ==> (#[trigger] out@[k]).name@ == spec_entry_name(
                    *devs,
                    start + k,
                ) && out@[k].next == start + k + 1 && out@[k].inode == 1 + start + k
                    && out@[k].filetype == FileKind::CharacterDevice,
        decreases total - p,
    {
        let mut name = if p < eth {
            String::from_str("ethernet")
        } else {
            String::from_str("wireless")
        };
        let idx_in_family = if p < eth {
            p
        } else {
            p - eth
        };
        push_decimal(&mut name, idx_in_family as u64);
        out.push(
            DirEntry {
                next: (p as u64) + 1,
                inode: 1 + (p as u64),
                name,
                filetype: FileKind::CharacterDevice,
            },
        );
        p += 1;
    }
    out
}

/// The device directory has no subdirectories to open.
pub fn open_dir(_path: &str) -> (r: Result<OpenDevDirFile, DeviceError>)
    ensures
        r == Err::<OpenDevDirFile, DeviceError>(DeviceError::NotFound),
{
    Err(DeviceError::NotFound)
}

/// The device namespace is fixed: no directory can be created in it.
pub fn create_dir(_path: &str) -> (r: Result<(), DeviceError>)
    ensures
        r == Err::<(), DeviceError>(DeviceError::PermissionDenied),
{
    Err(DeviceError::PermissionDenied)
}

/// The device directory supports no symlinks.
pub fn symlink(_old_path: &str, _new_path: &str) -> (r: Result<(), DeviceError>)
    ensures
        r == Err::<(), DeviceError>(DeviceError::NotSupported),
{
    Err(DeviceError::NotSupported)
}

/// The device namespace is fixed: no entry can be removed.
pub fn remove_dir(_path: &str) -> (r: Result<(), DeviceError>)
    ensures
        r == Err::<(), DeviceError>(DeviceError::PermissionDenied),
{
    Err(DeviceError::PermissionDenied)
}

/// The device namespace is fixed: no file can be unlinked.
pub fn unlink_file(_path: &str) -> (r: Result<(), DeviceError>)
    ensures
        r == Err::<(), DeviceError>(DeviceError::NotSupported),
{
    Err(DeviceError::NotSupported)
}

/// The device directory supports no symlinks, so none can be read.
pub fn read_link(_path: &str) -> (r: Result<String, DeviceError>)
    ensures
        r == Err::<String, DeviceError>(DeviceError::NotSupported),
{
    Err(DeviceError::NotSupported)
}

/// The device namespace is fixed: no entry can be renamed.
pub fn rename(_path: &str, _dest_path: &str) -> (r: Result<(), DeviceError>)
    ensures
        r == Err::<(), DeviceError>(DeviceError::PermissionDenied),
{
    Err(DeviceError::PermissionDenied)
}

/// The device directory supports no hard links.
pub fn hard_link(_path: &str, _target_path: &str) -> (r: Result<(), DeviceError>)
    ensures
        r == Err::<(), DeviceError>(DeviceError::NotSupported),
{
    Err(DeviceError::NotSupported)
}

/// The device namespace is fixed: timestamps cannot be set on its entries.
pub fn set_times(
    _path: &str,
    _atime_ns: Option<u64>,
    _mtime_ns: Option<u64>,
    _follow_symlinks: bool,
) -> (r: Result<(), DeviceError>)
    ensures
        r == Err::<(), DeviceError>(DeviceError::PermissionDenied),
{
    Err(DeviceError::PermissionDenied)
}

} // verus!
