//! The state of a region that its tasks share.

use vstd::prelude::*;
use crate::storage::manifest::RegionManifest;
use crate::storage::registry::FileRegistry;
use crate::storage::sst::{FileId, FileMeta};

verus! {

/// The state of a region that its tasks share: its identity, its file set and the
/// compacting flags of its files.
pub struct SharedData {
    pub id: u64,
    pub name: String,
    pub manifest: RegionManifest,
    pub registry: FileRegistry,
}

impl SharedData {
    /// A region at `region_version` without files.
    pub fn new(id: u64, name: String, region_version: u64) -> (region: SharedData)
        ensures
            region.id == id,
            region.name == name,
            region.manifest@.region_version == region_version,
            region.manifest@.flushed_sequence == None::<u64>,
            region.manifest@.files == Set::<FileMeta>::empty(),
            region.registry@ == Set::<FileId>::empty(),
    {
        SharedData {
            id,
            name,
            manifest: RegionManifest::new(region_version),
            registry: FileRegistry::new(),
        }
    }

    pub fn id(&self) -> (id: u64)
        ensures
            id == self.id,
    {
        self.id
    }

    pub fn name(&self) -> (name: &String)
        ensures
            name == self.name,
    {
        &self.name
    }
}

} // verus!
