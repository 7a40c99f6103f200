//! Index entries: the native shape, in which an empty path marks a slot that
//! holds no entry, and the owned value that a present entry becomes.
use vstd::prelude::*;

verus! {

/// A timestamp of an index entry, in seconds and nanoseconds.
#[derive(Clone, Copy, Debug, PartialEq, Eq, Structural)]
pub struct IndexTime {
    pub seconds: i32,
    pub nanoseconds: u32,
}

/// An index entry as the merge engine lays it out. An empty `path` means that
/// the slot holding it does not take part in the conflict.
#[derive(Clone, Debug)]
pub struct RawIndexEntry {
    pub ctime: IndexTime,
    pub mtime: IndexTime,
    pub dev: u32,
    pub ino: u32,
    pub mode: u32,
    pub uid: u32,
    pub gid: u32,
    pub file_size: u32,
    pub id: [u8; 20],
    pub flags: u16,
    pub flags_extended: u16,
    pub path: Vec<u8>,
}

/// An owned index entry: a path together with the file's metadata and the
/// identity of its object.
#[derive(Clone, Debug)]
pub struct IndexEntry {
    pub ctime: IndexTime,
    pub mtime: IndexTime,
    pub dev: u32,
    pub ino: u32,
    pub mode: u32,
    pub uid: u32,
    pub gid: u32,
    pub file_size: u32,
    pub id: [u8; 20],
    pub flags: u16,
    pub flags_extended: u16,
    pub path: Vec<u8>,
}

/// A byte string that holds the same bytes as `v`, owned by the caller.
pub(crate) fn copy_bytes(v: &Vec<u8>) -> (r: Vec<u8>)
    ensures
        r@ == v@,
{
    let mut r: Vec<u8> = Vec::with_capacity(v.len());
    let mut i: usize = 0;
    while i < v.len()
        invariant
            i <= v@.len(),
            r@ == v@.subrange(0, i as int),
        decreases v@.len() - i,
    {
        r.push(v[i]);
        i = i + 1;
    }
    assert(r@ =~= v@);
    r
}

impl RawIndexEntry {
    /// Whether this slot holds an entry: its path is not empty.
    pub open spec fn is_present(&self) -> bool {
        self.path@.len() > 0
    }
}

impl IndexEntry {
    /// `self` holds the same values as `raw`, field by field.
    pub open spec fn copies(&self, raw: &RawIndexEntry) -> bool {
        &&& self.ctime == raw.ctime
        &&& self.mtime == raw.mtime
        &&& self.dev == raw.dev
        &&& self.ino == raw.ino
        &&& self.mode == raw.mode
        &&& self.uid == raw.uid
        &&& self.gid == raw.gid
        &&& self.file_size == raw.file_size
        &&& self.id@ == raw.id@
        &&& self.flags == raw.flags
        &&& self.flags_extended == raw.flags_extended
        &&& self.path@ == raw.path@
    }

    /// `self` and `other` hold the same values, field by field.
    pub open spec fn same_value(&self, other: &IndexEntry) -> bool {
        &&& self.ctime == other.ctime
        &&& self.mtime == other.mtime
        &&& self.dev == other.dev
        &&& self.ino == other.ino
        &&& self.mode == other.mode
        &&& self.uid == other.uid
        &&& self.gid == other.gid
        &&& self.file_size == other.file_size
        &&& self.id@ == other.id@
        &&& self.flags == other.flags
        &&& self.flags_extended == other.flags_extended
        &&& self.path@ == other.path@
    }

    /// Copies a native entry into an owned one, sharing nothing with it.
    pub fn from_raw(raw: &RawIndexEntry) -> (r: IndexEntry)
        ensures
            r.copies(raw),
    {
        IndexEntry {
            ctime: raw.ctime,
            mtime: raw.mtime,
            dev: raw.dev,
            ino: raw.ino,
            mode: raw.mode,
            uid: raw.uid,
            gid: raw.gid,
            file_size: raw.file_size,
            id: raw.id,
            flags: raw.flags,
            flags_extended: raw.flags_extended,
            path: copy_bytes(&raw.path),
        }
    }
}

} // verus!
