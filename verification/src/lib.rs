//! Automatic version history: the vault library's verified core.

pub mod cli;
pub mod config;
pub mod daemon;
pub mod domain;
pub mod error;
pub mod ignore;
pub mod init;
pub mod paths;
pub mod queue;
pub mod registry;
pub mod service;
pub mod snapshot;
pub mod status;
pub mod text;
