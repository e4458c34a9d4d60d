//! Decisions of a metadata server's peer client.

pub mod cluster;
pub mod error;
