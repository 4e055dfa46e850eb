//! The reports each `vault` command prints.

pub mod diff;
pub mod init;
pub mod log;
pub mod prune;
pub mod reindex;
pub mod show;
