//! The singleton daemon's records (heartbeat, queue snapshot, log lines) and the decisions
//! taken from what the lock and heartbeat files show.

use vstd::prelude::*;

use crate::domain::queue::{
    kind_interval, kind_root, task_kind_name, QueuedTask, TaskKind, GIT_HOUSEKEEPING_INTERVAL_MS,
    RECONCILE_WALK_INTERVAL_MS,
};
use crate::error::VaultError;
use crate::registry::{kept_entries, removed_roots, VaultEntry, VaultRegistry};
use crate::text::push_str;

verus! {

/// Daemon heartbeat written to `daemon.json`.
#[derive(Debug, Clone, PartialEq, Eq)]
pub struct DaemonHeartbeat {
    /// Process id of the daemon.
    pub pid: u32,
    /// When the daemon started.
    pub started_at: String,
    /// When the heartbeat was last updated.
    pub updated_at: String,
    /// Number of registered vaults.
    pub vault_count: usize,
    /// Vault binary version.
    pub version: String,
}

/// Daemon work-queue snapshot written to `queue.json`.
#[derive(Debug, Clone, PartialEq, Eq)]
pub struct QueueSnapshot {
    /// When the snapshot was written.
    pub updated_at: String,
    /// Pending tasks in FIFO order.
    pub tasks: Vec<QueueTaskSnapshot>,
}

/// One pending task in a queue snapshot.
#[derive(Debug, Clone, PartialEq, Eq)]
pub struct QueueTaskSnapshot {
    /// Task identifier.
    pub id: u64,
    /// Stable task kind name.
    pub kind: String,
    /// Scheduling lane.
    pub lane: String,
    /// Claim attempt count.
    pub attempts: u32,
}

/// The snapshot record of one queued task.
pub open spec fn task_snapshot_spec(task: QueuedTask, s: QueueTaskSnapshot) -> bool {
    &&& s.id == task.id@
    &&& s.kind@ == task_kind_name(task.kind)
    &&& s.lane == task.lane
    &&& s.attempts == task.attempts
}

/// The snapshot record of one queued task: its id, kind name, lane and attempt count.
pub fn queue_task_snapshot(task: QueuedTask) -> (res: QueueTaskSnapshot)
    ensures
        task_snapshot_spec(task, res),
{
    QueueTaskSnapshot {
        id: task.id.as_u64(),
        kind: String::from_str(task.kind.name()),
        lane: task.lane,
        attempts: task.attempts,
    }
}

/// The queue snapshot written at `updated_at` for the pending tasks `tasks`, in order.
pub fn queue_snapshot(updated_at: String, tasks: Vec<QueuedTask>) -> (res: QueueSnapshot)
    ensures
        res.updated_at == updated_at,
        res.tasks@.len() == tasks@.len(),
        forall|i: int| 0 <= i < tasks@.len() ==> task_snapshot_spec(tasks@[i], #[trigger] res.tasks@[i]),
{
    let mut out: Vec<QueueTaskSnapshot> = Vec::new();
    let mut i: usize = 0;
    while i < tasks.len()
        invariant
            i <= tasks@.len(),
            out@.len() == i,
            forall|j: int| 0 <= j < i ==> task_snapshot_spec(tasks@[j], #[trigger] out@[j]),
        decreases tasks@.len() - i,
    {
        out.push(queue_task_snapshot(tasks[i].duplicate()));
        i = i + 1;
    }
    QueueSnapshot { updated_at, tasks: out }
}

/// Whether the daemon appears to be running: its heartbeat is readable and its lock is held.
pub fn is_running(heartbeat_present: bool, lock_held: bool) -> (res: bool)
    ensures
        res == (heartbeat_present && lock_held),
{
    heartbeat_present && lock_held
}

/// The error for a daemon lock held by another process: it names the heartbeat's pid when
/// one is known.
pub fn lock_held_error(heartbeat_pid: Option<u32>) -> (res: VaultError)
    ensures
        heartbeat_pid matches Some(pid) ==> res == (VaultError::DaemonAlreadyRunning { pid }),
        heartbeat_pid is None ==> res == VaultError::LockHeld,
{
    match heartbeat_pid {
        Some(pid) => VaultError::DaemonAlreadyRunning { pid },
        None => VaultError::LockHeld,
    }
}

/// One `daemon.log` line: the timestamp, a space, the message and a newline.
pub fn log_line(timestamp: &str, message: &str) -> (res: String)
    ensures
        res@ == timestamp@ + " "@ + message@ + "\n"@,
{
    let mut s = String::from_str(timestamp);
    push_str(&mut s, " ");
    push_str(&mut s, message);
    push_str(&mut s, "\n");
    s
}

/// A task kind as plain values: its name, its vault root and its recurrence.
pub open spec fn kind_view(kind: TaskKind) -> (Seq<char>, Seq<char>, Option<u64>) {
    (task_kind_name(kind), kind_root(kind)@, kind_interval(kind))
}

/// The background tasks the daemon seeds for registry entries: for each entry that is enabled
/// and whose root is a directory (`root_is_dir[i]` for entry `i`), in order, a recurring
/// reconciliation walk and then a recurring git-housekeeping check of its root.
pub open spec fn seeded_kinds(entries: Seq<VaultEntry>, root_is_dir: Seq<bool>) -> Seq<
    (Seq<char>, Seq<char>, Option<u64>),
>
    decreases entries.len(),
{
    if entries.len() == 0 {
        seq![]
    } else {
        let r = seeded_kinds(entries.drop_last(), root_is_dir.take(entries.len() - 1));
        let root = entries.last().root@;
        if entries.last().enabled && root_is_dir[entries.len() - 1] {
            r.push(("reconcile_walk"@, root, Some(RECONCILE_WALK_INTERVAL_MS))).push(
                ("git_housekeeping"@, root, Some(GIT_HOUSEKEEPING_INTERVAL_MS)),
            )
        } else {
            r
        }
    }
}

/// The background tasks the daemon seeds at start: a recurring reconciliation walk and a
/// recurring git-housekeeping check for each enabled registered vault whose root is a
/// directory.
pub fn seed_background_tasks(entries: &Vec<VaultEntry>, root_is_dir: &Vec<bool>) -> (res: Vec<
    TaskKind,
>)
    requires
        entries@.len() == root_is_dir@.len(),
    ensures
        res@.map_values(|k: TaskKind| kind_view(k)) == seeded_kinds(entries@, root_is_dir@),
{
    let mut out: Vec<TaskKind> = Vec::new();
    let mut i: usize = 0;
    while i < entries.len()
        invariant
            i <= entries@.len() == root_is_dir@.len(),
            out@.map_values(|k: TaskKind| kind_view(k)) == seeded_kinds(
                entries@.take(i as int),
                root_is_dir@.take(i as int),
            ),
        decreases entries@.len() - i,
    {
        let ghost before = out@.map_values(|k: TaskKind| kind_view(k));
        assert(entries@.take(i + 1).drop_last() =~= entries@.take(i as int));
        assert(root_is_dir@.take(i + 1).take(i as int) =~= root_is_dir@.take(i as int));
        if entries[i].enabled && root_is_dir[i] {
            out.push(TaskKind::reconcile_walk(entries[i].root.clone()));
            out.push(TaskKind::git_housekeeping(entries[i].root.clone()));
            assert(out@.map_values(|k: TaskKind| kind_view(k)) =~= before.push(
                ("reconcile_walk"@, entries@[i as int].root@, Some(RECONCILE_WALK_INTERVAL_MS)),
            ).push(("git_housekeeping"@, entries@[i as int].root@, Some(GIT_HOUSEKEEPING_INTERVAL_MS))));
        }
        i = i + 1;
    }
    assert(entries@.take(entries@.len() as int) =~= entries@);
    assert(root_is_dir@.take(entries@.len() as int) =~= root_is_dir@);
    out
}

/// Daemon maintenance: drop the registry entries whose roots are gone (`root_exists[i]` tells
/// whether the root of entry `i` is a directory) and return how many were dropped. The
/// registry needs saving when any was.
pub fn prune_registry(registry: &mut VaultRegistry, root_exists: &Vec<bool>) -> (removed: usize)
    requires
        old(registry).vault@.len() == root_exists@.len(),
    ensures
        final(registry).vault@ == kept_entries(old(registry).vault@, root_exists@),
        removed == removed_roots(old(registry).vault@, root_exists@).len(),
        final(registry).version == old(registry).version,
{
    let roots = registry.prune_stale(root_exists);
    roots.len()
}

} // verus!
