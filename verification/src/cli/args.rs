//! The arguments of the `vault` command line, as plain values.

use vstd::prelude::*;

verus! {

/// Arguments for the hidden `vault daemon` command.
#[derive(Debug, Clone, Copy, PartialEq, Eq, Structural)]
pub struct DaemonArgs {
    /// Run in the foreground (used by systemd and tests).
    pub foreground: bool,
}

/// Arguments for `vault diff`.
#[derive(Debug, Clone, PartialEq, Eq)]
pub struct DiffArgs {
    /// Path to the file.
    pub path: String,
    /// Start timestamp.
    pub at: Option<String>,
    /// End timestamp (only together with `at`).
    pub to: Option<String>,
}

/// Arguments for `vault ignore`.
#[derive(Debug, Clone, PartialEq, Eq)]
pub struct IgnoreArgs {
    /// Glob pattern to ignore (e.g. `*.pdf`).
    pub pattern: String,
}

/// Arguments for `vault init`.
#[derive(Debug, Clone, Copy, PartialEq, Eq, Structural)]
pub struct InitArgs {
    /// Skip installing or starting the background daemon.
    pub no_service: bool,
}

/// Arguments for `vault log`.
#[derive(Debug, Clone, PartialEq, Eq)]
pub struct LogArgs {
    /// Optional path to filter history.
    pub path: Option<String>,
}

/// Arguments for `vault reindex`.
#[derive(Debug, Clone, Copy, PartialEq, Eq, Structural)]
pub struct ReindexArgs {
    /// Rebuild even when `meta.db` already holds snapshots.
    pub force: bool,
    /// Report what would be rebuilt without writing.
    pub dry_run: bool,
}

/// Arguments for `vault restore`.
#[derive(Debug, Clone, PartialEq, Eq)]
pub struct RestoreArgs {
    /// Path to the file.
    pub path: String,
    /// Timestamp (`YYYY-MM-DD`, `YYYY-MM-DD HH:MM`, or RFC3339).
    pub at: String,
    /// Show what would be restored without writing.
    pub dry_run: bool,
}

/// Arguments for `vault show`.
#[derive(Debug, Clone, PartialEq, Eq)]
pub struct ShowArgs {
    /// Path to a file or directory; omitted means the whole vault.
    pub path: Option<String>,
    /// Timestamp (`YYYY-MM-DD`, `YYYY-MM-DD HH:MM`, or RFC3339).
    pub at: String,
}

/// Vault subcommands.
#[derive(Debug, Clone, PartialEq, Eq)]
pub enum Command {
    /// Initialize a vault in the current directory.
    Init(InitArgs),
    /// Show a file as it was at a given timestamp.
    Show(ShowArgs),
    /// Restore a file to an earlier version.
    Restore(RestoreArgs),
    /// Browse version history for a file or the whole vault.
    Log(LogArgs),
    /// Compare a file between two points in time.
    Diff(DiffArgs),
    /// Report watcher health and last snapshot time.
    Status,
    /// Remove registered vaults whose root directory no longer exists.
    Prune,
    /// Rebuild `meta.db` by replaying `.git`'s commit history.
    Reindex(ReindexArgs),
    /// List tracked files and their latest version timestamp.
    List,
    /// Add an ignore glob pattern.
    Ignore(IgnoreArgs),
    /// Run the singleton background watcher.
    Daemon(DaemonArgs),
}

/// The parsed `vault` command line.
#[derive(Debug, Clone, PartialEq, Eq)]
pub struct Cli {
    /// Enable verbose output.
    pub verbose: bool,
    /// Path to the `.vault/` directory (default: `./.vault` under the current directory).
    pub vault_path: Option<String>,
    /// The subcommand, if any.
    pub command: Option<Command>,
}

/// The version the `vault` binary reports.
pub const VERSION: &'static str = "0.1.0";

} // verus!
