//! The storage engine's file bookkeeping and compaction.

pub mod compaction;
pub mod error;
pub mod manifest;
pub mod region;
pub mod registry;
pub mod sst;
pub mod unique;
