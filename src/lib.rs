//! Configuration for a build-file generator: the schema of the configuration
//! document and the layered merge of per-crate settings with global settings.

pub mod config;
pub mod merge;
