//! Command-line reports: every text the `vault` commands print, built from plain values.

pub mod args;
pub mod commands;
pub mod render;
pub mod support;
