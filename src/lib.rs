//! A safe, read-only view over the conflict records that a three-way tree
//! merge produces.
//!
//! The merge engine hands over its result as a set of native records, in
//! which an absent index entry is marked by an empty path. [`Conflicts`] owns
//! that set and materializes one record at a time into an owned
//! [`MergeDiff`], in which each absent entry is a `None`.
pub mod index_entry;
pub mod conflict;
pub mod merge_file;

pub use conflict::{Conflicts, MergeDiff, RawMergeDiff};
pub use index_entry::{IndexEntry, IndexTime, RawIndexEntry};
pub use merge_file::{MergeFileResult, RawMergeFileResult};
