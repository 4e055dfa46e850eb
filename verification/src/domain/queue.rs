//! Background task types for the daemon work queue.

use vstd::prelude::*;

verus! {

/// Opaque identifier for a queued task, unique for the daemon process's lifetime.
#[derive(Debug, Clone, Copy, PartialEq, Eq, Hash, Structural)]
pub struct TaskId(u64);

impl View for TaskId {
    type V = u64;

    closed spec fn view(&self) -> u64 {
        self.0
    }
}

impl TaskId {
    /// Create a task id from its numeric value.
    pub fn new(id: u64) -> (res: Self)
        ensures
            res@ == id,
    {
        TaskId(id)
    }

    /// Return the raw numeric identifier.
    pub fn as_u64(self) -> (res: u64)
        ensures
            res == self@,
    {
        self.0
    }

    /// Ids are their numbers: two ids are equal exactly when their numbers are, so ids built by
    /// [`TaskId::new`] from equal numbers are equal and from different numbers differ.
    pub proof fn lemma_ids_are_their_numbers(a: TaskId, b: TaskId)
        ensures
            a@ == b@ <==> a == b,
    {
    }
}

/// Recurrence of a reconciliation walk built by [`TaskKind::reconcile_walk`]: ten minutes,
/// in milliseconds.
pub const RECONCILE_WALK_INTERVAL_MS: u64 = 600000;

/// Recurrence of a git-housekeeping check built by [`TaskKind::git_housekeeping`]: one hour,
/// in milliseconds.
pub const GIT_HOUSEKEEPING_INTERVAL_MS: u64 = 3600000;

/// Kinds of background work the queue can carry, each owning its own recurrence.
///
/// Construct variants only through their `TaskKind::xxx(..)` constructor so the recurrence
/// interval lives with the kind's own definition.
#[derive(Debug, Clone, PartialEq, Eq)]
pub enum TaskKind {
    /// Walk a vault's watch roots and diff against tracked files, logging any mismatch.
    ReconcileWalk {
        /// Vault worktree root.
        vault_root: String,
        /// Re-enqueue this many milliseconds after this run finishes; `None` = run once.
        interval: Option<u64>,
    },
    /// Check a vault's git housekeeping thresholds and repack when due.
    GitHousekeeping {
        /// Vault worktree root.
        vault_root: String,
        /// Re-enqueue this many milliseconds after this run finishes; `None` = run once.
        interval: Option<u64>,
    },
}

/// The vault root a task kind works on.
pub open spec fn kind_root(kind: TaskKind) -> String {
    match kind {
        TaskKind::ReconcileWalk { vault_root, .. } => vault_root,
        TaskKind::GitHousekeeping { vault_root, .. } => vault_root,
    }
}

/// The recurrence of a task kind, in milliseconds; `None` for a one-shot task.
pub open spec fn kind_interval(kind: TaskKind) -> Option<u64> {
    match kind {
        TaskKind::ReconcileWalk { interval, .. } => interval,
        TaskKind::GitHousekeeping { interval, .. } => interval,
    }
}

impl TaskKind {
    /// Build a recurring reconciliation-walk task for `vault_root`.
    pub fn reconcile_walk(vault_root: String) -> (res: Self)
        ensures
            res == (TaskKind::ReconcileWalk {
                vault_root,
                interval: Some(RECONCILE_WALK_INTERVAL_MS),
            }),
    {
        TaskKind::ReconcileWalk { vault_root, interval: Some(RECONCILE_WALK_INTERVAL_MS) }
    }

    /// Build a one-shot reconciliation-walk task (for tests).
    pub fn reconcile_walk_once(vault_root: String) -> (res: Self)
        ensures
            res == (TaskKind::ReconcileWalk { vault_root, interval: None }),
    {
        TaskKind::ReconcileWalk { vault_root, interval: None }
    }

    /// Build a reconciliation-walk task recurring every `interval_ms` milliseconds.
    pub fn reconcile_walk_with_interval(vault_root: String, interval_ms: u64) -> (res: Self)
        ensures
            res == (TaskKind::ReconcileWalk { vault_root, interval: Some(interval_ms) }),
    {
        TaskKind::ReconcileWalk { vault_root, interval: Some(interval_ms) }
    }

    /// Build a recurring git-housekeeping task for `vault_root`.
    pub fn git_housekeeping(vault_root: String) -> (res: Self)
        ensures
            res == (TaskKind::GitHousekeeping {
                vault_root,
                interval: Some(GIT_HOUSEKEEPING_INTERVAL_MS),
            }),
    {
        TaskKind::GitHousekeeping { vault_root, interval: Some(GIT_HOUSEKEEPING_INTERVAL_MS) }
    }

    /// Build a one-shot git-housekeeping task (for tests).
    pub fn git_housekeeping_once(vault_root: String) -> (res: Self)
        ensures
            res == (TaskKind::GitHousekeeping { vault_root, interval: None }),
    {
        TaskKind::GitHousekeeping { vault_root, interval: None }
    }

    /// The kind's own recurrence in milliseconds, if any; read by the runner after each run.
    pub fn interval(&self) -> (res: Option<u64>)
        ensures
            res == kind_interval(*self),
    {
        match self {
            TaskKind::ReconcileWalk { interval, .. } => *interval,
            TaskKind::GitHousekeeping { interval, .. } => *interval,
        }
    }

    /// Stable low-level name for logging and `vault status`.
    pub fn name(&self) -> (res: &'static str)
        ensures
            res@ == task_kind_name(*self),
    {
        match self {
            TaskKind::ReconcileWalk { .. } => "reconcile_walk",
            TaskKind::GitHousekeeping { .. } => "git_housekeeping",
        }
    }

    /// Vault worktree root when this kind is vault-scoped.
    pub fn vault_root(&self) -> (res: Option<&String>)
        ensures
            res matches Some(r) && *r == kind_root(*self),
    {
        match self {
            TaskKind::ReconcileWalk { vault_root, .. } => Some(vault_root),
            TaskKind::GitHousekeeping { vault_root, .. } => Some(vault_root),
        }
    }

    /// An independent copy of the kind.
    pub fn duplicate(&self) -> (res: Self)
        ensures
            res == *self,
    {
        match self {
            TaskKind::ReconcileWalk { vault_root, interval } => TaskKind::ReconcileWalk {
                vault_root: vault_root.clone(),
                interval: *interval,
            },
            TaskKind::GitHousekeeping { vault_root, interval } => TaskKind::GitHousekeeping {
                vault_root: vault_root.clone(),
                interval: *interval,
            },
        }
    }
}

/// The stable name of a task kind.
pub open spec fn task_kind_name(kind: TaskKind) -> Seq<char> {
    match kind {
        TaskKind::ReconcileWalk { .. } => "reconcile_walk"@,
        TaskKind::GitHousekeeping { .. } => "git_housekeeping"@,
    }
}

/// A task as held by a queue store, with its lane and retry bookkeeping.
#[derive(Debug, Clone, PartialEq, Eq)]
pub struct QueuedTask {
    /// Unique task identifier.
    pub id: TaskId,
    /// Work to perform.
    pub kind: TaskKind,
    /// Scheduling lane (FIFO within lane).
    pub lane: String,
    /// How many times the task has been claimed.
    pub attempts: u32,
}

impl QueuedTask {
    /// An independent copy of the queued task.
    pub fn duplicate(&self) -> (res: Self)
        ensures
            res == *self,
    {
        QueuedTask {
            id: self.id,
            kind: self.kind.duplicate(),
            lane: self.lane.clone(),
            attempts: self.attempts,
        }
    }
}

} // verus!
