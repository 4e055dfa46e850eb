//! `vault status` report: the daemon's state, the queue and each registered vault, and the
//! text `vault status` prints for them.

use vstd::prelude::*;

use crate::daemon::DaemonHeartbeat;
use crate::domain::rel_path::RelPath;
use crate::queue::handlers::{saturating_sub_spec, RepackRecord};
use crate::service::ServiceState;
use crate::text::{
    concat_spec, decimal, lemma_concat_take_step, push_i64, push_str, push_u64, signed_decimal,
};

verus! {

/// The daemon part of a status report.
#[derive(Debug, Clone, PartialEq, Eq)]
pub struct DaemonStatus {
    /// Whether the daemon appears to be running.
    pub running: bool,
    /// The service manager's view of the daemon.
    pub service_state: ServiceState,
    /// The last heartbeat, if readable.
    pub heartbeat: Option<DaemonHeartbeat>,
    /// Seconds since the heartbeat was last updated, if known.
    pub heartbeat_age_secs: Option<i64>,
}

/// Object counts of a vault's git store.
#[derive(Debug, Clone, Copy, PartialEq, Eq, Structural)]
pub struct ObjectCounts {
    /// Loose objects.
    pub loose: u64,
    /// Packfiles.
    pub packs: u64,
}

/// A vault's git housekeeping state.
#[derive(Debug, Clone, PartialEq, Eq)]
pub struct VaultHousekeepingStatus {
    /// Current object counts.
    pub counts: ObjectCounts,
    /// The last repack, if any ran.
    pub last_repack: Option<RepackRecord>,
}

/// One registered vault in a status report.
#[derive(Debug, Clone, PartialEq, Eq)]
pub struct VaultStatus {
    /// Vault worktree root.
    pub root: String,
    /// When the vault was registered.
    pub registered_at: String,
    /// The latest snapshot time, if any.
    pub last_snapshot: Option<String>,
    /// Whether the root directory exists.
    pub root_exists: bool,
    /// Housekeeping state, when readable.
    pub housekeeping: Option<VaultHousekeepingStatus>,
    /// Files too large to be tracked.
    pub oversized: Vec<RelPath>,
}

/// One pending task in a status report.
#[derive(Debug, Clone, PartialEq, Eq)]
pub struct QueueTaskStatus {
    /// Task identifier.
    pub id: u64,
    /// Stable task kind name.
    pub kind: String,
    /// Scheduling lane.
    pub lane: String,
    /// Claim attempt count.
    pub attempts: u32,
}

/// The daemon's work queue in a status report.
#[derive(Debug, Clone, PartialEq, Eq)]
pub struct QueueStatus {
    /// When the queue snapshot was written.
    pub updated_at: String,
    /// Pending tasks in FIFO order.
    pub tasks: Vec<QueueTaskStatus>,
}

/// The whole status report.
#[derive(Debug, Clone, PartialEq, Eq)]
pub struct StatusReport {
    /// The daemon's state.
    pub daemon: DaemonStatus,
    /// The queue, when a snapshot is readable.
    pub queue: Option<QueueStatus>,
    /// Every registered vault.
    pub vaults: Vec<VaultStatus>,
}

/// The word for a service state.
pub open spec fn service_state_label_spec(state: ServiceState) -> Seq<char> {
    match state {
        ServiceState::Running => "running"@,
        ServiceState::Stopped => "stopped"@,
        ServiceState::Unsupported => "unsupported"@,
    }
}

/// The word for a service state.
pub fn service_state_label(state: ServiceState) -> (res: &'static str)
    ensures
        res@ == service_state_label_spec(state),
{
    match state {
        ServiceState::Running => "running",
        ServiceState::Stopped => "stopped",
        ServiceState::Unsupported => "unsupported",
    }
}

/// A byte count in whole MB (from 1 MiB), whole KB (from 1 KiB) or bytes.
pub open spec fn format_bytes_spec(bytes: nat) -> Seq<char> {
    if bytes >= 1048576 {
        decimal(bytes / 1048576) + " MB"@
    } else if bytes >= 1024 {
        decimal(bytes / 1024) + " KB"@
    } else {
        decimal(bytes) + " B"@
    }
}

/// A byte count in whole MB (from 1 MiB), whole KB (from 1 KiB) or bytes.
pub fn format_bytes(bytes: u64) -> (res: String)
    ensures
        res@ == format_bytes_spec(bytes as nat),
{
    let mut s = String::new();
    if bytes >= 1048576 {
        push_u64(&mut s, bytes / 1048576);
        push_str(&mut s, " MB");
    } else if bytes >= 1024 {
        push_u64(&mut s, bytes / 1024);
        push_str(&mut s, " KB");
    } else {
        push_u64(&mut s, bytes);
        push_str(&mut s, " B");
    }
    s
}

/// The daemon block of `vault status`.
pub open spec fn daemon_status_spec(d: DaemonStatus) -> Seq<char> {
    (if d.running {
        "Daemon: running (pid "@ + match d.heartbeat {
            Some(h) => decimal(h.pid as nat),
            None => "unknown"@,
        } + ")\n"@
    } else {
        "Daemon: stopped\n"@
    }) + "Service: "@ + service_state_label_spec(d.service_state) + "\n"@ + match d.heartbeat_age_secs {
        Some(age) => "Heartbeat age: "@ + signed_decimal(age as int) + "s\n"@,
        None => seq![],
    }
}

impl DaemonStatus {
    /// The daemon block of `vault status`.
    pub fn render(&self) -> (res: String)
        ensures
            res@ == daemon_status_spec(*self),
    {
        let mut s = String::new();
        if self.running {
            push_str(&mut s, "Daemon: running (pid ");
            match &self.heartbeat {
                Some(h) => push_u64(&mut s, h.pid as u64),
                None => push_str(&mut s, "unknown"),
            }
            push_str(&mut s, ")\n");
        } else {
            push_str(&mut s, "Daemon: stopped\n");
        }
        push_str(&mut s, "Service: ");
        push_str(&mut s, service_state_label(self.service_state));
        push_str(&mut s, "\n");
        match self.heartbeat_age_secs {
            Some(age) => {
                push_str(&mut s, "Heartbeat age: ");
                push_i64(&mut s, age);
                push_str(&mut s, "s\n");
            },
            None => {},
        }
        s
    }
}

/// The housekeeping summary of a vault.
pub open spec fn housekeeping_spec(h: VaultHousekeepingStatus) -> Seq<char> {
    decimal(h.counts.loose as nat) + " loose objects, "@ + decimal(h.counts.packs as nat) + " pack"@
        + match h.last_repack {
        Some(r) => " (last repack "@ + r.ran_at@ + ": packed "@ + decimal(r.objects_packed as nat)
            + " objects, reclaimed ~"@ + format_bytes_spec(saturating_sub_spec(r.bytes_before, r.bytes_after))
            + ")"@,
        None => " (never repacked)"@,
    }
}

impl VaultHousekeepingStatus {
    /// The housekeeping summary of a vault.
    pub fn render(&self) -> (res: String)
        ensures
            res@ == housekeeping_spec(*self),
    {
        let mut s = String::new();
        push_u64(&mut s, self.counts.loose);
        push_str(&mut s, " loose objects, ");
        push_u64(&mut s, self.counts.packs);
        push_str(&mut s, " pack");
        match &self.last_repack {
            Some(record) => {
                let reclaimed: u64 = if record.bytes_before > record.bytes_after {
                    record.bytes_before - record.bytes_after
                } else {
                    0
                };
                push_str(&mut s, " (last repack ");
                push_str(&mut s, record.ran_at.as_str());
                push_str(&mut s, ": packed ");
                push_u64(&mut s, record.objects_packed);
                push_str(&mut s, " objects, reclaimed ~");
                let b = format_bytes(reclaimed);
                push_str(&mut s, b.as_str());
                push_str(&mut s, ")");
            },
            None => push_str(&mut s, " (never repacked)"),
        }
        s
    }
}

/// One oversized path's line in `vault status`.
pub open spec fn oversized_line(p: RelPath) -> Seq<char> {
    "      "@ + p@ + "\n"@
}

/// The oversized block of a vault in `vault status`: nothing when no file is oversized,
/// otherwise a count line and one line per path.
pub open spec fn oversized_block_spec(paths: Seq<RelPath>) -> Seq<char> {
    if paths.len() == 0 {
        seq![]
    } else {
        "    oversized ("@ + decimal(paths.len()) + " not tracked):\n"@ + concat_spec(
            paths.map_values(|p: RelPath| oversized_line(p)),
        )
    }
}

/// The first line of a vault in `vault status`: root, state and last snapshot.
pub open spec fn vault_line_spec(v: VaultStatus) -> Seq<char> {
    "  "@ + v.root@ + " ["@ + (if v.root_exists {
        "ok"@
    } else {
        "missing"@
    }) + "] last snapshot: "@ + match v.last_snapshot {
        Some(t) => t@,
        None => "never"@,
    } + "\n"@
}

/// The lines of a vault in `vault status`.
pub open spec fn vault_status_spec(v: VaultStatus) -> Seq<char> {
    vault_line_spec(v) + match v.housekeeping {
        Some(h) => "    housekeeping: "@ + housekeeping_spec(h) + "\n"@,
        None => seq![],
    } + oversized_block_spec(v.oversized@)
}

fn oversized_block(paths: &Vec<RelPath>) -> (res: String)
    ensures
        res@ == oversized_block_spec(paths@),
{
    let mut s = String::new();
    if paths.len() > 0 {
        push_str(&mut s, "    oversized (");
        push_u64(&mut s, paths.len() as u64);
        push_str(&mut s, " not tracked):\n");
        let ghost head = s@;
        let ghost lines = paths@.map_values(|p: RelPath| oversized_line(p));
        let mut i: usize = 0;
        while i < paths.len()
            invariant
                i <= paths@.len(),
                lines == paths@.map_values(|p: RelPath| oversized_line(p)),
                s@ == head + concat_spec(lines.take(i as int)),
            decreases paths@.len() - i,
        {
            let ghost before = s@;
            push_str(&mut s, "      ");
            push_str(&mut s, paths[i].as_str());
            push_str(&mut s, "\n");
            proof {
                assert(lines[i as int] == oversized_line(paths@[i as int]));
                assert(s@ == before + lines[i as int]);
                lemma_concat_take_step(lines, i as int);
            }
            i = i + 1;
        }
        assert(lines.take(paths@.len() as int) =~= lines);
    }
    s
}

fn vault_line(v: &VaultStatus) -> (res: String)
    ensures
        res@ == vault_line_spec(*v),
{
    let mut s = String::from_str("  ");
    push_str(&mut s, v.root.as_str());
    push_str(&mut s, " [");
    if v.root_exists {
        push_str(&mut s, "ok");
    } else {
        push_str(&mut s, "missing");
    }
    push_str(&mut s, "] last snapshot: ");
    match &v.last_snapshot {
        Some(t) => push_str(&mut s, t.as_str()),
        None => push_str(&mut s, "never"),
    }
    push_str(&mut s, "\n");
    s
}

impl VaultStatus {
    /// The lines of a vault in `vault status`.
    pub fn render(&self) -> (res: String)
        ensures
            res@ == vault_status_spec(*self),
    {
        let mut s = vault_line(self);
        match &self.housekeeping {
            Some(h) => {
                push_str(&mut s, "    housekeeping: ");
                let line = h.render();
                push_str(&mut s, line.as_str());
                push_str(&mut s, "\n");
            },
            None => {},
        }
        let block = oversized_block(&self.oversized);
        push_str(&mut s, block.as_str());
        s
    }
}

/// One pending task's line in `vault status`.
pub open spec fn queue_task_line(t: QueueTaskStatus) -> Seq<char> {
    "  #"@ + decimal(t.id as nat) + " "@ + t.kind@ + " ["@ + t.lane@ + "] attempts="@ + decimal(
        t.attempts as nat,
    ) + "\n"@
}

/// The queue block of `vault status`.
pub open spec fn queue_status_spec(q: QueueStatus) -> Seq<char> {
    "Queue: "@ + decimal(q.tasks@.len()) + " pending\n"@ + concat_spec(
        q.tasks@.map_values(|t: QueueTaskStatus| queue_task_line(t)),
    )
}

fn queue_task_text(t: &QueueTaskStatus) -> (res: String)
    ensures
        res@ == queue_task_line(*t),
{
    let mut s = String::from_str("  #");
    push_u64(&mut s, t.id);
    push_str(&mut s, " ");
    push_str(&mut s, t.kind.as_str());
    push_str(&mut s, " [");
    push_str(&mut s, t.lane.as_str());
    push_str(&mut s, "] attempts=");
    push_u64(&mut s, t.attempts as u64);
    push_str(&mut s, "\n");
    s
}

impl QueueStatus {
    /// The queue block of `vault status`.
    pub fn render(&self) -> (res: String)
        ensures
            res@ == queue_status_spec(*self),
    {
        let mut s = String::from_str("Queue: ");
        push_u64(&mut s, self.tasks.len() as u64);
        push_str(&mut s, " pending\n");
        let ghost head = s@;
        let ghost lines = self.tasks@.map_values(|t: QueueTaskStatus| queue_task_line(t));
        let mut i: usize = 0;
        while i < self.tasks.len()
            invariant
                i <= self.tasks@.len(),
                lines == self.tasks@.map_values(|t: QueueTaskStatus| queue_task_line(t)),
                s@ == head + concat_spec(lines.take(i as int)),
            decreases self.tasks@.len() - i,
        {
            let line = queue_task_text(&self.tasks[i]);
            push_str(&mut s, line.as_str());
            proof {
                assert(lines[i as int] == queue_task_line(self.tasks@[i as int]));
                lemma_concat_take_step(lines, i as int);
            }
            i = i + 1;
        }
        assert(lines.take(self.tasks@.len() as int) =~= lines);
        s
    }
}

/// The whole `vault status` text.
pub open spec fn status_report_spec(r: StatusReport) -> Seq<char> {
    daemon_status_spec(r.daemon) + match r.queue {
        Some(q) => queue_status_spec(q),
        None => seq![],
    } + "Vaults: "@ + decimal(r.vaults@.len()) + concat_spec(
        r.vaults@.map_values(|v: VaultStatus| "\n"@ + vault_status_spec(v)),
    )
}

impl StatusReport {
    /// The whole `vault status` text.
    pub fn render(&self) -> (res: String)
        ensures
            res@ == status_report_spec(*self),
    {
        let mut s = self.daemon.render();
        match &self.queue {
            Some(q) => {
                let block = q.render();
                push_str(&mut s, block.as_str());
            },
            None => {},
        }
        push_str(&mut s, "Vaults: ");
        push_u64(&mut s, self.vaults.len() as u64);
        let ghost head = s@;
        let ghost parts = self.vaults@.map_values(|v: VaultStatus| "\n"@ + vault_status_spec(v));
        let mut i: usize = 0;
        while i < self.vaults.len()
            invariant
                i <= self.vaults@.len(),
                parts == self.vaults@.map_values(|v: VaultStatus| "\n"@ + vault_status_spec(v)),
                s@ == head + concat_spec(parts.take(i as int)),
            decreases self.vaults@.len() - i,
        {
            push_str(&mut s, "\n");
            let v = self.vaults[i].render();
            push_str(&mut s, v.as_str());
            assert(parts.take(i + 1).drop_last() =~= parts.take(i as int));
            i = i + 1;
        }
        assert(parts.take(self.vaults@.len() as int) =~= parts);
        s
    }
}

/// The total length of the first `i` of `parts`.
pub open spec fn parts_len(parts: Seq<Seq<char>>, i: int) -> int
    decreases i,
{
    if i <= 0 {
        0
    } else {
        parts_len(parts, i - 1) + parts[i - 1].len()
    }
}

/// The lines of `tasks` in the queue block, in order.
pub open spec fn task_lines(tasks: Seq<QueueTaskStatus>) -> Seq<Seq<char>> {
    tasks.map_values(|t: QueueTaskStatus| queue_task_line(t))
}

/// The total length of the lines of the first `i` tasks.
pub open spec fn task_lines_len(tasks: Seq<QueueTaskStatus>, i: int) -> int {
    parts_len(task_lines(tasks), i)
}

/// The header line of the queue block.
pub open spec fn queue_header(q: QueueStatus) -> Seq<char> {
    "Queue: "@ + decimal(q.tasks@.len()) + " pending\n"@
}

proof fn lemma_parts_len_monotone(parts: Seq<Seq<char>>, i: int, j: int)
    requires
        0 <= i <= j,
    ensures
        parts_len(parts, i) <= parts_len(parts, j),
    decreases j - i,
{
    if i < j {
        lemma_parts_len_monotone(parts, i, j - 1);
    }
}

proof fn lemma_concat_len(parts: Seq<Seq<char>>, k: int)
    requires
        0 <= k <= parts.len(),
    ensures
        concat_spec(parts.take(k)).len() == parts_len(parts, k),
    decreases k,
{
    if k == 0 {
        assert(parts.take(0) =~= Seq::<Seq<char>>::empty());
    } else {
        lemma_concat_len(parts, k - 1);
        lemma_concat_take_step(parts, k - 1);
    }
}

proof fn lemma_subrange_of_append(a: Seq<char>, b: Seq<char>, lo: int, hi: int)
    requires
        0 <= lo <= hi <= a.len(),
    ensures
        (a + b).subrange(lo, hi) == a.subrange(lo, hi),
{
    assert((a + b).subrange(lo, hi) =~= a.subrange(lo, hi));
}

proof fn lemma_subrange_appended(a: Seq<char>, b: Seq<char>)
    ensures
        (a + b).subrange(a.len() as int, (a.len() + b.len()) as int) == b,
{
    assert((a + b).subrange(a.len() as int, (a.len() + b.len()) as int) =~= b);
}

proof fn lemma_concat_part(parts: Seq<Seq<char>>, k: int, i: int)
    requires
        0 <= i < k <= parts.len(),
    ensures
        concat_spec(parts.take(k)).subrange(parts_len(parts, i), parts_len(parts, i + 1)) == parts[i],
    decreases k,
{
    lemma_concat_take_step(parts, k - 1);
    lemma_concat_len(parts, k - 1);
    let prev = concat_spec(parts.take(k - 1));
    if i < k - 1 {
        lemma_concat_part(parts, k - 1, i);
        lemma_parts_len_monotone(parts, i + 1, k - 1);
        lemma_parts_len_monotone(parts, i, i + 1);
        lemma_parts_len_monotone(parts, 0, i);
        lemma_subrange_of_append(prev, parts[k - 1], parts_len(parts, i), parts_len(parts, i + 1));
    } else {
        lemma_subrange_appended(prev, parts[k - 1]);
    }
}

/// The queue block lists every pending task, in order: after the header line it holds exactly
/// the tasks' lines, one per task, and the text between the end of task `i - 1`'s line and the
/// end of task `i`'s line is task `i`'s line, showing its id, kind, lane and attempts.
pub proof fn lemma_queue_block_lists_every_task(q: QueueStatus)
    ensures
        queue_status_spec(q).len() == queue_header(q).len() + task_lines_len(q.tasks@, q.tasks@.len() as int),
        queue_status_spec(q).subrange(0, queue_header(q).len() as int) == queue_header(q),
        forall|i: int|
            0 <= i < q.tasks@.len() ==> queue_status_spec(q).subrange(
                queue_header(q).len() + task_lines_len(q.tasks@, i),
                queue_header(q).len() + task_lines_len(q.tasks@, i + 1),
            ) == queue_task_line(#[trigger] q.tasks@[i]),
{
    let tasks = q.tasks@;
    let lines = task_lines(tasks);
    lemma_concat_len(lines, tasks.len() as int);
    assert(lines.take(tasks.len() as int) =~= lines);
    let h = queue_header(q);
    let c = concat_spec(lines);
    assert(queue_status_spec(q) == h + c);
    assert((h + c).subrange(0, h.len() as int) =~= h);
    assert forall|i: int| 0 <= i < tasks.len() implies (h + c).subrange(
        h.len() + task_lines_len(tasks, i),
        h.len() + task_lines_len(tasks, i + 1),
    ) == queue_task_line(#[trigger] tasks[i]) by {
        lemma_parts_len_monotone(lines, 0, i);
        lemma_parts_len_monotone(lines, i, i + 1);
        lemma_parts_len_monotone(lines, i + 1, tasks.len() as int);
        assert(lines[i] == queue_task_line(tasks[i]));
        lemma_concat_part(lines, tasks.len() as int, i);
        assert((h + c).subrange(h.len() + task_lines_len(tasks, i), h.len() + task_lines_len(tasks, i + 1))
            =~= c.subrange(parts_len(lines, i), parts_len(lines, i + 1)));
    }
}

} // verus!
