//! Identity and metadata of sorted data files.

use vstd::prelude::*;
use crate::storage::registry::FileRegistry;

verus! {

/// Tier of a file in the level hierarchy.
pub type Level = u8;

/// Globally unique identifier of one data file.
#[derive(Debug, Clone, Copy, PartialEq, Eq, Structural, Hash)]
pub struct FileId {
    pub value: u128,
}

impl TimeRange {
    /// Whether `timestamp` lies in `[start, end)`.
    pub open spec fn covers(self, timestamp: i64) -> bool {
        self.start <= timestamp < self.end
    }

    pub fn contains(&self, timestamp: i64) -> (inside: bool)
        ensures
            inside == self.covers(timestamp),
    {
        self.start <= timestamp && timestamp < self.end
    }
}

impl FileId {
    pub fn new(value: u128) -> (id: FileId)
        ensures
            id.value == value,
    {
        FileId { value }
    }
}

/// Half-open time interval `[start, end)` covered by a file.
#[derive(Debug, Clone, Copy, PartialEq, Eq, Structural, Hash)]
pub struct TimeRange {
    pub start: i64,
    pub end: i64,
}

/// Immutable description of one committed file.
#[derive(Debug, Clone, Copy, PartialEq, Eq, Structural, Hash)]
pub struct FileMeta {
    pub region_id: u64,
    pub file_id: FileId,
    pub time_range: Option<TimeRange>,
    pub level: Level,
    pub file_size: u64,
}

/// What the write of a new file reports.
#[derive(Debug, Clone, Copy, PartialEq, Eq, Structural)]
pub struct SstInfo {
    pub time_range: Option<TimeRange>,
    pub file_size: u64,
}

/// Reference to a file, through which its compacting flag is read and written.
///
/// The flag itself lives in the region's [`FileRegistry`], so that every holder of
/// a handle to the same file sees the same state.
#[derive(Debug, Clone, Copy, PartialEq, Eq, Structural)]
pub struct FileHandle {
    pub meta: FileMeta,
}

impl FileHandle {
    pub fn new(meta: FileMeta) -> (handle: FileHandle)
        ensures
            handle.meta == meta,
    {
        FileHandle { meta }
    }

    pub fn meta(&self) -> (meta: FileMeta)
        ensures
            meta == self.meta,
    {
        self.meta
    }

    pub fn file_id(&self) -> (id: FileId)
        ensures
            id == self.meta.file_id,
    {
        self.meta.file_id
    }

    pub fn level(&self) -> (level: Level)
        ensures
            level == self.meta.level,
    {
        self.meta.level
    }

    pub fn time_range(&self) -> (range: Option<TimeRange>)
        ensures
            range == self.meta.time_range,
    {
        self.meta.time_range
    }

    /// Whether some compaction round holds the file.
    pub fn compacting(&self, registry: &FileRegistry) -> (flag: bool)
        ensures
            flag == registry@.contains(self.meta.file_id),
    {
        registry.is_compacting(self.meta.file_id)
    }

    /// Sets or clears the file's flag; the flags of other files stay as they are.
    pub fn mark_compacting(&self, registry: &mut FileRegistry, compacting: bool)
        ensures
            compacting ==> final(registry)@ == old(registry)@.insert(self.meta.file_id),
            !compacting ==> final(registry)@ == old(registry)@.remove(self.meta.file_id),
    {
        registry.mark_compacting(self.meta.file_id, compacting);
    }
}

/// The metadata of `handles`, in order.
pub open spec fn metas_of(handles: Seq<FileHandle>) -> Seq<FileMeta> {
    handles.map_values(|handle: FileHandle| handle.meta)
}

/// The identifiers of `metas`, in order.
pub open spec fn ids_of(metas: Seq<FileMeta>) -> Seq<FileId> {
    metas.map_values(|meta: FileMeta| meta.file_id)
}

} // verus!
