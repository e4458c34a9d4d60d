//! The per-file "is being compacted" flags of a region.
//!
//! A file is either idle or compacting. The registry holds the identifiers of
//! the files that are compacting; every other file is idle, whether or not it
//! is part of the live file set.

use std::collections::HashSet;
use vstd::prelude::*;
use crate::storage::sst::FileId;

verus! {

broadcast use vstd::std_specs::hash::group_hash_axioms;

/// Set of the files that some compaction round currently holds.
pub struct FileRegistry {
    compacting: HashSet<u128>,
}

impl View for FileRegistry {
    type V = Set<FileId>;

    /// The files whose flag is set.
    closed spec fn view(&self) -> Set<FileId> {
        Set::new(|id: FileId| self.compacting@.contains(id.value))
    }
}

impl FileRegistry {
    /// A registry in which every file is idle.
    pub fn new() -> (registry: FileRegistry)
        ensures
            registry@ == Set::<FileId>::empty(),
    {
        let registry = FileRegistry { compacting: HashSet::new() };
        assert(registry@ =~= Set::<FileId>::empty());
        registry
    }

    /// Whether the flag of `id` is set.
    pub fn is_compacting(&self, id: FileId) -> (flag: bool)
        ensures
            flag == self@.contains(id),
    {
        self.compacting.contains(&id.value)
    }

    /// Sets or clears the flag of `id`. Doing so twice is the same as doing so once,
    /// and no other file's flag changes.
    pub fn mark_compacting(&mut self, id: FileId, compacting: bool)
        ensures
            compacting ==> final(self)@ == old(self)@.insert(id),
            !compacting ==> final(self)@ == old(self)@.remove(id),
    {
        if compacting {
            self.compacting.insert(id.value);
            assert(self@ =~= old(self)@.insert(id));
        } else {
            self.compacting.remove(&id.value);
            assert(self@ =~= old(self)@.remove(id));
        }
    }
}

} // verus!
