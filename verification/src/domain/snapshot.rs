//! Snapshot domain types.

use vstd::prelude::*;

use crate::domain::change::FileChange;

verus! {

/// Git commit object id (hex).
#[derive(Debug, Clone, PartialEq, Eq)]
pub struct CommitSha(pub String);

impl CommitSha {
    /// Return the hex SHA string.
    pub fn as_str(&self) -> (res: &str)
        ensures
            res@ == self.0@,
    {
        self.0.as_str()
    }
}

/// Result of a successful snapshot.
#[derive(Debug, Clone, PartialEq, Eq)]
pub struct SnapshotResult {
    /// Commit object id.
    pub commit_sha: CommitSha,
    /// ISO-8601 UTC timestamp.
    pub created_at: String,
}

/// Snapshot row for the metadata index.
#[derive(Debug, Clone, PartialEq, Eq)]
pub struct SnapshotRecord {
    /// Commit object id.
    pub commit_sha: CommitSha,
    /// ISO-8601 UTC timestamp.
    pub created_at: String,
    /// File changes in this snapshot.
    pub changes: Vec<FileChange>,
}

/// One commit as observed by walking `.git`'s history directly, for `vault reindex`.
#[derive(Debug, Clone, PartialEq, Eq)]
pub struct HistoryCommit {
    /// Commit object id.
    pub sha: CommitSha,
    /// Raw git commit message.
    pub message: String,
    /// File changes, derived from diffing this commit's tree against its parent's.
    pub changes: Vec<FileChange>,
    /// This commit's own committer timestamp (ISO-8601 UTC), the fallback `created_at` for
    /// messages that don't match vault's own `"... @ <created_at>"` format.
    pub committer_time: String,
}

} // verus!
