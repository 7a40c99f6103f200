//! The outcome of merging one file's content across the three sides: the
//! native shape, and the owned value it becomes.
use vstd::prelude::*;
use crate::index_entry::copy_bytes;

verus! {

/// A per-file merge outcome as the merge engine lays it out. A nonzero
/// `automergeable` flag means the content merged without conflict; an empty
/// `path` means that no path was chosen for the result.
#[derive(Clone, Debug)]
pub struct RawMergeFileResult {
    pub automergeable: u32,
    pub path: Vec<u8>,
    pub mode: u32,
    pub content: Vec<u8>,
}

/// An owned per-file merge outcome.
#[derive(Clone, Debug)]
pub struct MergeFileResult {
    pub automergeable: bool,
    pub path: Option<Vec<u8>>,
    pub mode: u32,
    pub content: Vec<u8>,
}

impl MergeFileResult {
    /// `self` is what `raw` becomes: the flag read as a boolean, an empty
    /// path read as no path, the mode and the content kept.
    pub open spec fn copies(&self, raw: &RawMergeFileResult) -> bool {
        &&& self.automergeable == (raw.automergeable != 0)
        &&& (match self.path {
            Some(p) => raw.path@.len() > 0 && p@ == raw.path@,
            None => raw.path@.len() == 0,
        })
        &&& self.mode == raw.mode
        &&& self.content@ == raw.content@
    }

    /// `self` and `other` hold the same values.
    pub open spec fn same_value(&self, other: &MergeFileResult) -> bool {
        &&& self.automergeable == other.automergeable
        &&& (match (self.path, other.path) {
            (Some(p), Some(q)) => p@ == q@,
            (None, None) => true,
            _ => false,
        })
        &&& self.mode == other.mode
        &&& self.content@ == other.content@
    }

    /// Copies a native merge outcome into an owned one, sharing nothing with
    /// it.
    pub fn from_raw(raw: &RawMergeFileResult) -> (r: MergeFileResult)
        ensures
            r.copies(raw),
    {
        let path = if raw.path.len() == 0 {
            None
        } else {
            Some(copy_bytes(&raw.path))
        };
        MergeFileResult {
            automergeable: raw.automergeable != 0,
            path,
            mode: raw.mode,
            content: copy_bytes(&raw.content),
        }
    }

    /// Whether the content merged without conflict.
    pub fn is_automergeable(&self) -> (r: bool)
        ensures
            r == self.automergeable,
    {
        self.automergeable
    }

    /// The file mode chosen for the merged content.
    pub fn mode(&self) -> (r: u32)
        ensures
            r == self.mode,
    {
        self.mode
    }

    /// The merged content.
    pub fn content(&self) -> (r: &Vec<u8>)
        ensures
            r@ == self.content@,
    {
        &self.content
    }
}

} // verus!
