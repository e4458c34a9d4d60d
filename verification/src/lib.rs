//! Verified core of a time-series storage node: the compaction round of its LSM
//! storage engine, and the decision procedures of the services around it.

pub mod datanode;
pub mod datasource;
pub mod meta;
pub mod storage;
