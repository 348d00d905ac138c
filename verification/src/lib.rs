//! Metadata keys, table definitions and the service plumbing logic of planar.

pub mod error;
pub mod function;
pub mod metadata;
pub mod metastore;
pub mod service;
pub mod table_md;
