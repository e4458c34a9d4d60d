//! Options of a data node.

pub mod config;
