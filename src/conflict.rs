//! The conflict set of a tree merge and the records it materializes.
use vstd::prelude::*;
use vstd::set_lib::{lemma_int_range, set_int_range};
use crate::index_entry::{IndexEntry, RawIndexEntry};
use crate::merge_file::{MergeFileResult, RawMergeFileResult};

verus! {

/// One conflict record as the merge engine lays it out. The kind and the two
/// status tags are the engine's own values and are passed on unread.
#[derive(Clone, Debug)]
pub struct RawMergeDiff {
    pub dtype: u32,
    pub ancestor_entry: RawIndexEntry,
    pub our_entry: RawIndexEntry,
    pub our_status: u32,
    pub their_entry: RawIndexEntry,
    pub their_status: u32,
    pub merge_result: RawMergeFileResult,
}

/// An owned conflict record: the conflict's kind, the entry on each of the
/// three sides where that side has one, how each side changed the path, and
/// the outcome of merging the file's content.
#[derive(Clone, Debug)]
pub struct MergeDiff {
    pub dtype: u32,
    pub ancestor_entry: Option<IndexEntry>,
    pub our_entry: Option<IndexEntry>,
    pub our_status: u32,
    pub their_entry: Option<IndexEntry>,
    pub their_status: u32,
    pub merge_result: MergeFileResult,
}

/// The conflict set of one merge. It owns the engine's records; each record
/// is handed out as an owned copy, which stays valid after the set is gone.
pub struct Conflicts {
    raw: Vec<RawMergeDiff>,
}

/// `slot` is what the native slot `raw` becomes: `None` where its path is
/// empty, else an entry that copies it.
pub open spec fn slot_holds(slot: Option<IndexEntry>, raw: RawIndexEntry) -> bool {
    match slot {
        Some(e) => raw.is_present() && e.copies(&raw),
        None => !raw.is_present(),
    }
}

/// The two slots are both empty, or both hold entries of the same value.
pub open spec fn same_slot(a: Option<IndexEntry>, b: Option<IndexEntry>) -> bool {
    match (a, b) {
        (Some(x), Some(y)) => x.same_value(&y),
        (None, None) => true,
        _ => false,
    }
}

/// Materializes one native slot: `None` for an empty path, else an owned
/// copy of the entry.
fn slot_from_raw(raw: &RawIndexEntry) -> (r: Option<IndexEntry>)
    ensures
        slot_holds(r, *raw),
{
    if raw.path.len() == 0 {
        None
    } else {
        Some(IndexEntry::from_raw(raw))
    }
}

impl MergeDiff {
    /// `self` is what the native record `raw` becomes.
    pub open spec fn materializes(&self, raw: &RawMergeDiff) -> bool {
        &&& self.dtype == raw.dtype
        &&& slot_holds(self.ancestor_entry, raw.ancestor_entry)
        &&& slot_holds(self.our_entry, raw.our_entry)
        &&& self.our_status == raw.our_status
        &&& slot_holds(self.their_entry, raw.their_entry)
        &&& self.their_status == raw.their_status
        &&& self.merge_result.copies(&raw.merge_result)
    }

    /// `self` and `other` hold the same values.
    pub open spec fn same_value(&self, other: &MergeDiff) -> bool {
        &&& self.dtype == other.dtype
        &&& same_slot(self.ancestor_entry, other.ancestor_entry)
        &&& same_slot(self.our_entry, other.our_entry)
        &&& self.our_status == other.our_status
        &&& same_slot(self.their_entry, other.their_entry)
        &&& self.their_status == other.their_status
        &&& self.merge_result.same_value(&other.merge_result)
    }

    /// Materializes a native record: the tags are copied, each entry slot
    /// with an empty path becomes `None` and every other one an owned entry,
    /// and the merge outcome is copied. Nothing of `raw` is shared.
    ///
    /// There is no way back from a record to the native shape.
    pub fn from_raw(raw: &RawMergeDiff) -> (r: MergeDiff)
        ensures
            r.materializes(raw),
    {
        MergeDiff {
            dtype: raw.dtype,
            ancestor_entry: slot_from_raw(&raw.ancestor_entry),
            our_entry: slot_from_raw(&raw.our_entry),
            our_status: raw.our_status,
            their_entry: slot_from_raw(&raw.their_entry),
            their_status: raw.their_status,
            merge_result: MergeFileResult::from_raw(&raw.merge_result),
        }
    }
}

impl View for Conflicts {
    type V = Seq<RawMergeDiff>;

    closed spec fn view(&self) -> Seq<RawMergeDiff> {
        self.raw@
    }
}

impl Conflicts {
    /// Whether the set resolves a record at position `n`.
    pub open spec fn has_record(&self, n: int) -> bool {
        0 <= n < self@.len()
    }

    /// `r` is what asking for the record at position `n` gives: `None` where
    /// the set has no record there, else the materialized record.
    pub open spec fn materialized_at(&self, n: int, r: Option<MergeDiff>) -> bool {
        match r {
            Some(d) => self.has_record(n) && d.materializes(&self@[n]),
            None => !self.has_record(n),
        }
    }

    /// Takes ownership of the records that the merge engine produced.
    pub fn from_raw(raw: Vec<RawMergeDiff>) -> (r: Conflicts)
        ensures
            r@ == raw@,
    {
        Conflicts { raw }
    }

    /// The native records that the set owns.
    pub fn raw(&self) -> (r: &Vec<RawMergeDiff>)
        ensures
            r@ == self@,
    {
        &self.raw
    }

    /// The number of conflict records.
    pub fn len(&self) -> (r: usize)
        ensures
            r == self@.len(),
    {
        self.raw.len()
    }

    /// Materializes the record at position `n`, or gives `None` where the set
    /// has none there.
    pub fn get(&self, n: usize) -> (r: Option<MergeDiff>)
        ensures
            self.materialized_at(n as int, r),
    {
        if n < self.raw.len() {
            Some(MergeDiff::from_raw(&self.raw[n]))
        } else {
            None
        }
    }
}

/// The number of records equals the number of positions below it at which
/// the set resolves a record, and it resolves none at or past it.
pub proof fn lemma_len_counts_records(c: &Conflicts)
    ensures
        set_int_range(0, c@.len() as int).filter(|i: int| c.has_record(i)).len() == c@.len(),
        forall|i: int| i >= c@.len() ==> !c.has_record(i),
{
    let s = set_int_range(0, c@.len() as int);
    lemma_int_range(0, c@.len() as int);
    assert(s.filter(|i: int| c.has_record(i)) =~= s);
}

/// A slot of a materialized record holds an entry exactly where the native
/// path is not empty, and that entry keeps the path.
pub proof fn lemma_slot_presence(raw: RawIndexEntry, slot: Option<IndexEntry>)
    requires
        slot_holds(slot, raw),
    ensures
        slot.is_some() <==> raw.path@.len() > 0,
        slot matches Some(e) ==> e.path@ == raw.path@,
{
}

/// Asking twice for the record at one position of an unchanged set gives
/// records of the same value, or `None` both times.
pub proof fn lemma_get_idempotent(c: &Conflicts, n: int, a: Option<MergeDiff>, b: Option<MergeDiff>)
    requires
        c.materialized_at(n, a),
        c.materialized_at(n, b),
    ensures
        match (a, b) {
            (Some(x), Some(y)) => x.same_value(&y),
            (None, None) => true,
            _ => false,
        },
{
}

} // verus!
