//! Typed errors for vault library operations.

use vstd::prelude::*;

use crate::paths::META_DB;
use crate::text::{decimal, push_i64, push_str, push_u64, signed_decimal, str_eq};

verus! {

/// Category of an I/O failure, as far as the library distinguishes them.
#[derive(Debug, Clone, Copy, PartialEq, Eq, Structural)]
pub enum IoErrorKind {
    /// The entity was not found.
    NotFound,
    /// An input parameter was invalid.
    InvalidInput,
    /// Any other I/O failure.
    Other,
}

/// An I/O failure: its category and human-readable description.
#[derive(Debug, Clone, PartialEq, Eq)]
pub struct IoFailure {
    /// Failure category.
    pub kind: IoErrorKind,
    /// Human-readable description.
    pub message: String,
}

/// Errors returned by vault library operations.
#[derive(Debug, Clone, PartialEq, Eq)]
pub enum VaultError {
    /// Partial vault artifacts exist, and at least one data-bearing marker (`.git`/`meta.db`)
    /// is among the missing ones, so automatic repair was refused.
    PartialVault {
        /// Path to the partial `.vault/` directory.
        path: String,
        /// Human-readable list of present markers.
        found: String,
        /// Human-readable list of missing markers.
        missing: String,
    },
    /// Init markers are already present in the `.vault/` directory.
    AlreadyInitialized {
        /// Path to the existing `.vault/` directory.
        path: String,
    },
    /// `--vault-path` does not have a parent directory.
    InvalidVaultPath {
        /// The invalid vault path.
        path: String,
    },
    /// No `.vault/` directory was found.
    VaultNotFound {
        /// Directory where discovery began.
        start: String,
    },
    /// Path is not under the vault worktree.
    PathOutsideWorktree {
        /// The offending path.
        path: String,
    },
    /// Path component is not valid UTF-8.
    NonUtf8Path {
        /// The offending path.
        path: String,
    },
    /// Invalid glob pattern.
    InvalidGlob {
        /// The invalid pattern.
        pattern: String,
    },
    /// Platform state directory could not be resolved.
    StateDirUnresolved,
    /// Advisory lock is held by another process.
    LockHeld,
    /// A spawned task panicked.
    TaskPanicked,
    /// The singleton daemon is already running.
    DaemonAlreadyRunning {
        /// Process id holding the daemon lock.
        pid: u32,
    },
    /// The singleton daemon is not running.
    DaemonNotRunning,
    /// Registry file has an unsupported version.
    UnsupportedRegistryVersion {
        /// Version found on disk.
        found: u32,
        /// Version this binary supports.
        expected: u32,
    },
    /// Filesystem notification error.
    Notify(String),
    /// Service manager operation failed.
    Service(String),
    /// I/O failure.
    Io(IoFailure),
    /// Git storage operation failed.
    Git(String),
    /// `SQLite` operation failed.
    Sqlite(String),
    /// TOML serialization failed.
    TomlSerialize(String),
    /// TOML deserialization failed.
    TomlDeserialize(String),
    /// JSON serialization failed.
    Json(String),
    /// No snapshot exists at or before the requested timestamp.
    NoSnapshotAt {
        /// The requested timestamp (UTC RFC3339).
        at: String,
    },
    /// The path did not exist (or was deleted) in the resolved snapshot.
    PathNotTrackedAt {
        /// The requested path.
        path: String,
        /// The requested timestamp (UTC RFC3339).
        at: String,
    },
    /// `meta.db` contained a value outside the schema's expected domain.
    CorruptMetaIndex {
        /// Human-readable description of the unexpected value.
        detail: String,
    },
    /// A `--at`/`--to` value did not match any accepted date format.
    InvalidDate {
        /// The raw input string.
        input: String,
    },
    /// A queued background task was not found.
    TaskNotFound {
        /// Task identifier.
        id: u64,
    },
    /// `vault reindex` found a commit with more than one parent.
    NonLinearHistory {
        /// The offending commit's hex SHA.
        commit_sha: String,
    },
    /// `vault reindex` refused to overwrite an existing, populated `meta.db` without `--force`.
    MetaDbNotEmpty {
        /// Path to the existing `meta.db`.
        path: String,
        /// Number of snapshot rows already present.
        snapshot_count: i64,
    },
}

/// How the standard library's `Debug` renders the path `path` (quoted, with escapes).
pub uninterp spec fn path_debug_text(path: Seq<char>) -> Seq<char>;

/// `path` rendered as `Debug` renders a `std::path::Path` holding it.
#[verifier::external_body]
fn debug_path(path: &str) -> (res: String)
    ensures
        res@ == path_debug_text(path@),
{
    format!("{:?}", std::path::Path::new(path))
}

/// The hint a partial-vault message ends with: a pointer to `vault reindex` exactly when the
/// only missing marker is `meta.db`, the one data-bearing marker with an automated fix.
pub open spec fn reindex_hint_spec(missing: Seq<char>) -> Seq<char> {
    if missing == META_DB@ {
        " \u{2014} run `vault reindex` to rebuild it from .git history"@
    } else {
        ""@
    }
}

/// The hint appended to a partial-vault message for the missing-marker list `missing`.
pub fn reindex_hint(missing: &str) -> (res: &'static str)
    ensures
        res@ == reindex_hint_spec(missing@),
{
    if str_eq(missing, META_DB) {
        " \u{2014} run `vault reindex` to rebuild it from .git history"
    } else {
        ""
    }
}

/// The human-readable message of `e`.
pub open spec fn error_message(e: VaultError) -> Seq<char> {
    match e {
        VaultError::PartialVault { path, found, missing } => "incomplete vault at "@ + path@
            + " (found: "@ + found@ + "; missing: "@ + missing@ + ")"@ + reindex_hint_spec(
            missing@,
        ),
        VaultError::AlreadyInitialized { path } => "vault already initialized at "@ + path@,
        VaultError::InvalidVaultPath { path } => "vault directory missing parent: "@ + path@,
        VaultError::VaultNotFound { start } => "no vault found starting from "@ + start@,
        VaultError::PathOutsideWorktree { path } => "path outside worktree: "@ + path@,
        VaultError::NonUtf8Path { path } => "non-UTF-8 path: "@ + path_debug_text(path@),
        VaultError::InvalidGlob { pattern } => "invalid glob pattern: "@ + pattern@,
        VaultError::StateDirUnresolved => "could not resolve user data directory"@,
        VaultError::LockHeld => "daemon lock held"@,
        VaultError::TaskPanicked => "background task panicked"@,
        VaultError::DaemonAlreadyRunning { pid } => "vault daemon already running (pid "@
            + decimal(pid as nat) + ")"@,
        VaultError::DaemonNotRunning => "vault daemon is not running"@,
        VaultError::UnsupportedRegistryVersion { found, expected } =>
            "unsupported registry version "@ + decimal(found as nat) + ", expected "@ + decimal(
            expected as nat,
        ),
        VaultError::Notify(_) => "filesystem watcher error"@,
        VaultError::Service(_) => "service manager error"@,
        VaultError::Io(f) => f.message@,
        VaultError::Git(_) => "git storage error"@,
        VaultError::Sqlite(m) => m@,
        VaultError::TomlSerialize(m) => m@,
        VaultError::TomlDeserialize(m) => m@,
        VaultError::Json(m) => m@,
        VaultError::NoSnapshotAt { at } => "no snapshot at or before "@ + at@,
        VaultError::PathNotTrackedAt { path, at } => path@ + " was not tracked at "@ + at@,
        VaultError::CorruptMetaIndex { detail } => "corrupt metadata index: "@ + detail@,
        VaultError::InvalidDate { input } => "invalid date '"@ + input@
            + "' (expected YYYY-MM-DD, YYYY-MM-DD HH:MM, or RFC3339)"@,
        VaultError::TaskNotFound { id } => "queued task not found: "@ + decimal(id as nat),
        VaultError::NonLinearHistory { commit_sha } => "commit "@ + commit_sha@
            + " has more than one parent \u{2014} .vault/.git history is not linear, refusing to reindex"@,
        VaultError::MetaDbNotEmpty { path, snapshot_count } => "meta.db at "@ + path@
            + " already has "@ + signed_decimal(snapshot_count as int)
            + " snapshot(s) \u{2014} pass --force to rebuild it from .git history"@,
    }
}

impl VaultError {
    /// The human-readable message of this error.
    pub fn message(&self) -> (res: String)
        ensures
            res@ == error_message(*self),
    {
        match self {
            VaultError::PartialVault { path, found, missing } => {
                let mut s = String::from_str("incomplete vault at ");
                push_str(&mut s, path.as_str());
                push_str(&mut s, " (found: ");
                push_str(&mut s, found.as_str());
                push_str(&mut s, "; missing: ");
                push_str(&mut s, missing.as_str());
                push_str(&mut s, ")");
                push_str(&mut s, reindex_hint(missing.as_str()));
                s
            },
            VaultError::AlreadyInitialized { path } => {
                let mut s = String::from_str("vault already initialized at ");
                push_str(&mut s, path.as_str());
                s
            },
            VaultError::InvalidVaultPath { path } => {
                let mut s = String::from_str("vault directory missing parent: ");
                push_str(&mut s, path.as_str());
                s
            },
            VaultError::VaultNotFound { start } => {
                let mut s = String::from_str("no vault found starting from ");
                push_str(&mut s, start.as_str());
                s
            },
            VaultError::PathOutsideWorktree { path } => {
                let mut s = String::from_str("path outside worktree: ");
                push_str(&mut s, path.as_str());
                s
            },
            VaultError::NonUtf8Path { path } => {
                let mut s = String::from_str("non-UTF-8 path: ");
                let quoted = debug_path(path.as_str());
                push_str(&mut s, quoted.as_str());
                s
            },
            VaultError::InvalidGlob { pattern } => {
                let mut s = String::from_str("invalid glob pattern: ");
                push_str(&mut s, pattern.as_str());
                s
            },
            VaultError::StateDirUnresolved => String::from_str("could not resolve user data directory"),
            VaultError::LockHeld => String::from_str("daemon lock held"),
            VaultError::TaskPanicked => String::from_str("background task panicked"),
            VaultError::DaemonAlreadyRunning { pid } => {
                let mut s = String::from_str("vault daemon already running (pid ");
                push_u64(&mut s, *pid as u64);
                push_str(&mut s, ")");
                s
            },
            VaultError::DaemonNotRunning => String::from_str("vault daemon is not running"),
            VaultError::UnsupportedRegistryVersion { found, expected } => {
                let mut s = String::from_str("unsupported registry version ");
                push_u64(&mut s, *found as u64);
                push_str(&mut s, ", expected ");
                push_u64(&mut s, *expected as u64);
                s
            },
            VaultError::Notify(_) => String::from_str("filesystem watcher error"),
            VaultError::Service(_) => String::from_str("service manager error"),
            VaultError::Io(f) => f.message.clone(),
            VaultError::Git(_) => String::from_str("git storage error"),
            VaultError::Sqlite(m) => m.clone(),
            VaultError::TomlSerialize(m) => m.clone(),
            VaultError::TomlDeserialize(m) => m.clone(),
            VaultError::Json(m) => m.clone(),
            VaultError::NoSnapshotAt { at } => {
                let mut s = String::from_str("no snapshot at or before ");
                push_str(&mut s, at.as_str());
                s
            },
            VaultError::PathNotTrackedAt { path, at } => {
                let mut s = path.clone();
                push_str(&mut s, " was not tracked at ");
                push_str(&mut s, at.as_str());
                s
            },
            VaultError::CorruptMetaIndex { detail } => {
                let mut s = String::from_str("corrupt metadata index: ");
                push_str(&mut s, detail.as_str());
                s
            },
            VaultError::InvalidDate { input } => {
                let mut s = String::from_str("invalid date '");
                push_str(&mut s, input.as_str());
                push_str(&mut s, "' (expected YYYY-MM-DD, YYYY-MM-DD HH:MM, or RFC3339)");
                s
            },
            VaultError::TaskNotFound { id } => {
                let mut s = String::from_str("queued task not found: ");
                push_u64(&mut s, *id);
                s
            },
            VaultError::NonLinearHistory { commit_sha } => {
                let mut s = String::from_str("commit ");
                push_str(&mut s, commit_sha.as_str());
                push_str(
                    &mut s,
                    " has more than one parent \u{2014} .vault/.git history is not linear, refusing to reindex",
                );
                s
            },
            VaultError::MetaDbNotEmpty { path, snapshot_count } => {
                let mut s = String::from_str("meta.db at ");
                push_str(&mut s, path.as_str());
                push_str(&mut s, " already has ");
                push_i64(&mut s, *snapshot_count);
                push_str(&mut s, " snapshot(s) \u{2014} pass --force to rebuild it from .git history");
                s
            },
        }
    }
}

} // verus!
