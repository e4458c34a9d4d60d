//! Failures of a compaction round.

use vstd::prelude::*;
use crate::storage::manifest::{CommitFault, RegionEdit};
use crate::storage::sst::FileId;

verus! {

/// Why the merge of one output failed.
#[derive(Debug, Clone, Copy, PartialEq, Eq, Structural)]
pub enum MergeFault {
    /// Reading an input or writing the output failed.
    Io,
    /// An input does not fit the schema that the merge reads with.
    SchemaMismatch,
}

/// Failure of a round, with what a log line needs to tell the cases apart.
#[allow(inconsistent_fields)]
#[derive(Debug, Clone, PartialEq, Eq)]
pub enum Error {
    /// A merge failed; the round was given up before any edit was built.
    MergeFailure {
        region_name: String,
        /// Inputs of the output whose merge failed.
        file_ids: Vec<FileId>,
        fault: MergeFault,
    },
    /// The edit of the round was not committed.
    CommitFailure { region_name: String, edit: RegionEdit, fault: CommitFault },
}

} // verus!
