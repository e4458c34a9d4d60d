//! Choosing the objects of a data source.

pub mod lister;
