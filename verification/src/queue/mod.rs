//! The background work queue: an in-memory FIFO store of tasks per lane, with claim,
//! completion and bounded retry bookkeeping, plus the runner's settle decision.

pub mod handlers;

use vstd::prelude::*;

use crate::domain::queue::{kind_interval, QueuedTask, TaskId, TaskKind};
use crate::error::{error_message, VaultError};
use crate::text::{push_str, str_eq};

verus! {

/// Default scheduling lane.
pub const DEFAULT_LANE: &'static str = "default";

/// How many claims a task gets: its failure on the last of them drops it.
pub const MAX_ATTEMPTS: u32 = 3;

/// Whether a failed task was requeued or dropped after retries.
#[derive(Debug, Clone, Copy, PartialEq, Eq, Structural)]
pub enum FailOutcome {
    /// Task was requeued for another attempt.
    Requeued,
    /// Task was dropped after exhausting retries.
    Dropped,
}

/// The index of the first task of `lane` at or after `from` in `s`, or `-1`.
pub open spec fn first_in_lane(s: Seq<QueuedTask>, lane: Seq<char>, from: int) -> int
    decreases s.len() - from,
{
    if from < 0 || from >= s.len() {
        -1
    } else if s[from].lane@ == lane {
        from
    } else {
        first_in_lane(s, lane, from + 1)
    }
}

/// The index of the first task with id `id` at or after `from` in `s`, or `-1`.
pub open spec fn index_of_id(s: Seq<QueuedTask>, id: TaskId, from: int) -> int
    decreases s.len() - from,
{
    if from < 0 || from >= s.len() {
        -1
    } else if s[from].id == id {
        from
    } else {
        index_of_id(s, id, from + 1)
    }
}

/// Whether `t` belongs to `lane`.
pub open spec fn lane_pred(lane: Seq<char>) -> spec_fn(QueuedTask) -> bool {
    |t: QueuedTask| t.lane@ == lane
}

/// The tasks of `lane` in `s`, in order.
pub open spec fn in_lane(s: Seq<QueuedTask>, lane: Seq<char>) -> Seq<QueuedTask> {
    s.filter(lane_pred(lane))
}

/// Whether the ids of `s` are pairwise distinct.
pub open spec fn distinct_ids(s: Seq<QueuedTask>) -> bool {
    forall|a: int, b: int| 0 <= a < s.len() && 0 <= b < s.len() && a != b ==> #[trigger] s[a].id
        != #[trigger] s[b].id
}

/// `t` with one more claim recorded.
pub open spec fn claimed_copy(t: QueuedTask) -> QueuedTask {
    QueuedTask { attempts: (t.attempts + 1) as u32, ..t }
}

/// In-memory storage and ordering backend for queued background tasks.
///
/// Pending tasks are held in scheduling order; claimed tasks wait for completion or failure.
pub struct InMemoryQueueStore {
    pending: Vec<QueuedTask>,
    claimed: Vec<QueuedTask>,
    next_id: u64,
}

impl InMemoryQueueStore {
    /// Pending tasks, in scheduling order.
    pub closed spec fn pending(&self) -> Seq<QueuedTask> {
        self.pending@
    }

    /// Claimed tasks awaiting completion or failure.
    pub closed spec fn claimed(&self) -> Seq<QueuedTask> {
        self.claimed@
    }

    /// The id the next scheduled task gets.
    pub closed spec fn next_id(&self) -> u64 {
        self.next_id
    }

    /// Every id is below the next one and unique across pending and claimed tasks; pending
    /// tasks have claims left, claimed ones at most [`MAX_ATTEMPTS`] claims.
    pub closed spec fn wf(&self) -> bool {
        let all = self.pending@ + self.claimed@;
        &&& distinct_ids(all)
        &&& forall|i: int| 0 <= i < all.len() ==> (#[trigger] all[i]).id@ < self.next_id
        &&& forall|i: int| 0 <= i < self.pending@.len() ==> (#[trigger] self.pending@[i]).attempts
            < MAX_ATTEMPTS
        &&& forall|i: int| 0 <= i < self.claimed@.len() ==> (#[trigger] self.claimed@[i]).attempts
            <= MAX_ATTEMPTS
    }

    /// An empty store whose first task gets id 1.
    pub fn new() -> (res: Self)
        ensures
            res.wf(),
            res.pending().len() == 0,
            res.claimed().len() == 0,
            res.next_id() == 1,
    {
        InMemoryQueueStore { pending: Vec::new(), claimed: Vec::new(), next_id: 1 }
    }

    /// Whether the store holds no task at all; an empty store is well formed.
    pub fn is_empty(&self) -> (res: bool)
        ensures
            res == (self.pending().len() == 0 && self.claimed().len() == 0),
            res ==> self.wf(),
    {
        self.pending.len() == 0 && self.claimed.len() == 0
    }

    /// Whether another task can be given a fresh id.
    pub fn can_schedule(&self) -> (res: bool)
        ensures
            res == (self.next_id() < u64::MAX),
    {
        self.next_id < u64::MAX
    }

    /// Enqueue `kind` on `lane` at the back of the pending tasks and return its fresh id.
    pub fn schedule(&mut self, kind: TaskKind, lane: &str) -> (id: TaskId)
        requires
            old(self).wf(),
            old(self).next_id() < u64::MAX,
        ensures
            final(self).wf(),
            id@ == old(self).next_id(),
            final(self).next_id() == old(self).next_id() + 1,
            final(self).pending().len() == old(self).pending().len() + 1,
            final(self).pending().drop_last() == old(self).pending(),
            final(self).pending().last().id == id,
            final(self).pending().last().kind == kind,
            final(self).pending().last().lane@ == lane@,
            final(self).pending().last().attempts == 0,
            final(self).claimed() == old(self).claimed(),
    {
        let id = TaskId::new(self.next_id);
        let ghost old_all = self.pending@ + self.claimed@;
        self.pending.push(QueuedTask { id, kind, lane: String::from_str(lane), attempts: 0 });
        self.next_id = self.next_id + 1;
        proof {
            let all = self.pending@ + self.claimed@;
            let n = old(self).pending@.len() as int;
            assert forall|i: int| 0 <= i < all.len() implies (#[trigger] all[i]).id@
                < self.next_id by {
                if i < n {
                    assert(all[i] == old_all[i]);
                } else if i > n {
                    assert(all[i] == old_all[i - 1]);
                }
            }
            assert forall|a: int, b: int|
                0 <= a < all.len() && 0 <= b < all.len() && a != b implies #[trigger] all[a].id
                != #[trigger] all[b].id by {
                if a != n && b != n {
                    let oa = if a < n { a } else { a - 1 };
                    let ob = if b < n { b } else { b - 1 };
                    assert(all[a] == old_all[oa]);
                    assert(all[b] == old_all[ob]);
                } else if a == n {
                    let ob = if b < n { b } else { b - 1 };
                    assert(all[b] == old_all[ob]);
                    assert(old_all[ob].id@ < old(self).next_id);
                } else {
                    let oa = if a < n { a } else { a - 1 };
                    assert(all[a] == old_all[oa]);
                    assert(old_all[oa].id@ < old(self).next_id);
                }
            }
            assert(self.pending@.drop_last() =~= old(self).pending@);
        }
        id
    }

    /// Atomically claim the next pending task on `lane`, if any: the earliest scheduled one,
    /// moved to the claimed tasks with one more attempt recorded.
    pub fn claim_next_pending(&mut self, lane: &str) -> (res: Option<QueuedTask>)
        requires
            old(self).wf(),
        ensures
            final(self).wf(),
            final(self).next_id() == old(self).next_id(),
            ({
                let i = first_in_lane(old(self).pending(), lane@, 0);
                if i < 0 {
                    &&& res is None
                    &&& final(self).pending() == old(self).pending()
                    &&& final(self).claimed() == old(self).claimed()
                } else {
                    &&& res == Some(claimed_copy(old(self).pending()[i]))
                    &&& final(self).pending() == old(self).pending().remove(i)
                    &&& final(self).claimed() == old(self).claimed().push(
                        claimed_copy(old(self).pending()[i]),
                    )
                }
            }),
    {
        let mut i: usize = 0;
        while i < self.pending.len()
            invariant
                i <= self.pending@.len(),
                self == old(self),
                self.wf(),
                first_in_lane(self.pending@, lane@, 0) == first_in_lane(self.pending@, lane@, i as int),
            decreases self.pending@.len() - i,
        {
            if str_eq(self.pending[i].lane.as_str(), lane) {
                let ghost old_pending = self.pending@;
                let ghost old_all = self.pending@ + self.claimed@;
                let task = self.pending.remove(i);
                let claimed_task = QueuedTask {
                    id: task.id,
                    kind: task.kind,
                    lane: task.lane,
                    attempts: task.attempts + 1,
                };
                let out = claimed_task.duplicate();
                self.claimed.push(claimed_task);
                proof {
                    let all = self.pending@ + self.claimed@;
                    let n = old_pending.len() as int;
                    let c = self.claimed@.len() as int;
                    // Position of each element of `all` in `old_all`.
                    let pos = |k: int|
                        if k < i {
                            k
                        } else if k < n - 1 {
                            k + 1
                        } else if k < n - 1 + c - 1 {
                            k + 1
                        } else {
                            i as int
                        };
                    assert forall|k: int| 0 <= k < all.len() implies #[trigger] all[k].id
                        == old_all[pos(k)].id && 0 <= pos(k) < old_all.len() by {
                        if k < n - 1 {
                            assert(all[k] == self.pending@[k]);
                        } else {
                            assert(all[k] == self.claimed@[k - (n - 1)]);
                        }
                    }
                    assert forall|a: int, b: int|
                        0 <= a < all.len() && 0 <= b < all.len() && a != b implies #[trigger] all[a].id
                        != #[trigger] all[b].id by {
                        assert(pos(a) != pos(b));
                        assert(old_all[pos(a)].id != old_all[pos(b)].id);
                    }
                    assert forall|k: int| 0 <= k < all.len() implies (#[trigger] all[k]).id@
                        < self.next_id by {
                        assert(old_all[pos(k)].id@ < self.next_id);
                    }
                    assert forall|k: int| 0 <= k < self.pending@.len() implies (
                    #[trigger] self.pending@[k]).attempts < MAX_ATTEMPTS by {
                        if k < i {
                            assert(self.pending@[k] == old_pending[k]);
                        } else {
                            assert(self.pending@[k] == old_pending[k + 1]);
                        }
                    }
                    assert forall|k: int| 0 <= k < self.claimed@.len() implies (
                    #[trigger] self.claimed@[k]).attempts <= MAX_ATTEMPTS by {
                        if k < c - 1 {
                            assert(self.claimed@[k] == old(self).claimed@[k]);
                        }
                    }
                    assert(claimed_task == claimed_copy(old_pending[i as int]));
                }
                return Some(out);
            }
            i = i + 1;
        }
        None
    }

    /// Remove a task (claimed or still pending) once its work is done.
    ///
    /// Returns [`VaultError::TaskNotFound`] when no task has id `id`.
    pub fn mark_complete(&mut self, id: TaskId) -> (res: Result<(), VaultError>)
        requires
            old(self).wf(),
        ensures
            final(self).wf(),
            final(self).next_id() == old(self).next_id(),
            ({
                let c = index_of_id(old(self).claimed(), id, 0);
                let p = index_of_id(old(self).pending(), id, 0);
                if c >= 0 {
                    &&& res is Ok
                    &&& final(self).claimed() == old(self).claimed().remove(c)
                    &&& final(self).pending() == old(self).pending()
                } else if p >= 0 {
                    &&& res is Ok
                    &&& final(self).pending() == old(self).pending().remove(p)
                    &&& final(self).claimed() == old(self).claimed()
                } else {
                    &&& res == Err::<(), VaultError>(VaultError::TaskNotFound { id: id@ })
                    &&& final(self).pending() == old(self).pending()
                    &&& final(self).claimed() == old(self).claimed()
                }
            }),
    {
        let c = find_id(&self.claimed, id);
        if c < self.claimed.len() {
            let ghost old_all = self.pending@ + self.claimed@;
            self.claimed.remove(c);
            proof {
                lemma_remove_keeps_wf_claimed(old(self).pending@, old(self).claimed@, c as int, self.next_id);
            }
            return Ok(());
        }
        let p = find_id(&self.pending, id);
        if p < self.pending.len() {
            self.pending.remove(p);
            proof {
                lemma_remove_keeps_wf_pending(old(self).pending@, old(self).claimed@, p as int, self.next_id);
            }
            return Ok(());
        }
        Err(VaultError::TaskNotFound { id: id.as_u64() })
    }

    /// Record the failure of a claimed task: a task that has used all [`MAX_ATTEMPTS`] claims
    /// is dropped, any other goes back to the end of the pending tasks. The failure text is
    /// not kept.
    ///
    /// Returns [`VaultError::TaskNotFound`] when no claimed task has id `id`.
    pub fn mark_failed(&mut self, id: TaskId, error: &str) -> (res: Result<FailOutcome, VaultError>)
        requires
            old(self).wf(),
        ensures
            final(self).wf(),
            final(self).next_id() == old(self).next_id(),
            ({
                let c = index_of_id(old(self).claimed(), id, 0);
                if c < 0 {
                    &&& res == Err::<FailOutcome, VaultError>(VaultError::TaskNotFound { id: id@ })
                    &&& final(self).pending() == old(self).pending()
                    &&& final(self).claimed() == old(self).claimed()
                } else if old(self).claimed()[c].attempts >= MAX_ATTEMPTS {
                    &&& res == Ok::<FailOutcome, VaultError>(FailOutcome::Dropped)
                    &&& final(self).pending() == old(self).pending()
                    &&& final(self).claimed() == old(self).claimed().remove(c)
                } else {
                    &&& res == Ok::<FailOutcome, VaultError>(FailOutcome::Requeued)
                    &&& final(self).pending() == old(self).pending().push(old(self).claimed()[c])
                    &&& final(self).claimed() == old(self).claimed().remove(c)
                }
            }),
    {
        let c = find_id(&self.claimed, id);
        if c >= self.claimed.len() {
            return Err(VaultError::TaskNotFound { id: id.as_u64() });
        }
        let task = self.claimed.remove(c);
        proof {
            lemma_remove_keeps_wf_claimed(old(self).pending@, old(self).claimed@, c as int, self.next_id);
        }
        if task.attempts >= MAX_ATTEMPTS {
            return Ok(FailOutcome::Dropped);
        }
        let ghost mid_pending = self.pending@;
        let ghost mid_claimed = self.claimed@;
        self.pending.push(task);
        proof {
            lemma_requeue_keeps_wf(
                old(self).pending@,
                old(self).claimed@,
                c as int,
                self.next_id,
            );
        }
        Ok(FailOutcome::Requeued)
    }

    /// Non-destructive peek at the pending tasks of `lane`, in scheduling order.
    pub fn snapshot(&self, lane: &str) -> (res: Vec<QueuedTask>)
        ensures
            res@ == in_lane(self.pending(), lane@),
    {
        let mut out: Vec<QueuedTask> = Vec::new();
        let mut i: usize = 0;
        while i < self.pending.len()
            invariant
                i <= self.pending@.len(),
                out@ == in_lane(self.pending@.take(i as int), lane@),
            decreases self.pending@.len() - i,
        {
            let ghost prefix = self.pending@.take(i + 1);
            assert(prefix.drop_last() =~= self.pending@.take(i as int));
            assert(prefix.last() == self.pending@[i as int]);
            reveal(Seq::filter);
            assert(in_lane(prefix, lane@) == (if lane_pred(lane@)(prefix.last()) {
                in_lane(prefix.drop_last(), lane@).push(prefix.last())
            } else {
                in_lane(prefix.drop_last(), lane@)
            }));
            if str_eq(self.pending[i].lane.as_str(), lane) {
                out.push(self.pending[i].duplicate());
                assert(lane_pred(lane@)(prefix.last()));
            } else {
                assert(!lane_pred(lane@)(prefix.last()));
            }
            i = i + 1;
        }
        assert(self.pending@.take(self.pending@.len() as int) =~= self.pending@);
        out
    }
}

/// The position of the first task with `id` in `v`, or `v.len()` when there is none.
fn find_id(v: &Vec<QueuedTask>, id: TaskId) -> (res: usize)
    ensures
        res <= v@.len(),
        res < v@.len() <==> index_of_id(v@, id, 0) >= 0,
        res < v@.len() ==> res == index_of_id(v@, id, 0),
{
    let mut i: usize = 0;
    while i < v.len()
        invariant
            i <= v@.len(),
            index_of_id(v@, id, 0) == index_of_id(v@, id, i as int),
        decreases v@.len() - i,
    {
        if v[i].id == id {
            return i;
        }
        i = i + 1;
    }
    i
}

proof fn lemma_remove_keeps_wf_claimed(
    pending: Seq<QueuedTask>,
    claimed: Seq<QueuedTask>,
    c: int,
    next_id: u64,
)
    requires
        0 <= c < claimed.len(),
        distinct_ids(pending + claimed),
        forall|i: int| 0 <= i < (pending + claimed).len() ==> (#[trigger] (pending + claimed)[i]).id@ < next_id,
        forall|i: int| 0 <= i < claimed.len() ==> (#[trigger] claimed[i]).attempts <= MAX_ATTEMPTS,
    ensures
        distinct_ids(pending + claimed.remove(c)),
        forall|i: int| 0 <= i < (pending + claimed.remove(c)).len() ==> (#[trigger] (pending + claimed.remove(c))[i]).id@ < next_id,
        forall|i: int| 0 <= i < claimed.remove(c).len() ==> (#[trigger] claimed.remove(c)[i]).attempts <= MAX_ATTEMPTS,
{
    let old_all = pending + claimed;
    let all = pending + claimed.remove(c);
    let n = pending.len() as int;
    let pos = |k: int| if k < n + c { k } else { k + 1 };
    assert forall|k: int| 0 <= k < all.len() implies #[trigger] all[k] == old_all[pos(k)] by {
        if k >= n {
            assert(all[k] == claimed.remove(c)[k - n]);
        }
    }
    assert forall|a: int, b: int|
        0 <= a < all.len() && 0 <= b < all.len() && a != b implies #[trigger] all[a].id
        != #[trigger] all[b].id by {
        assert(all[a] == old_all[pos(a)]);
        assert(all[b] == old_all[pos(b)]);
    }
    assert forall|k: int| 0 <= k < all.len() implies (#[trigger] all[k]).id@ < next_id by {
        assert(all[k] == old_all[pos(k)]);
    }
    assert forall|k: int| 0 <= k < claimed.remove(c).len() implies (
    #[trigger] claimed.remove(c)[k]).attempts <= MAX_ATTEMPTS by {
        if k >= c {
            assert(claimed.remove(c)[k] == claimed[k + 1]);
        }
    }
}

proof fn lemma_remove_keeps_wf_pending(
    pending: Seq<QueuedTask>,
    claimed: Seq<QueuedTask>,
    p: int,
    next_id: u64,
)
    requires
        0 <= p < pending.len(),
        distinct_ids(pending + claimed),
        forall|i: int| 0 <= i < (pending + claimed).len() ==> (#[trigger] (pending + claimed)[i]).id@ < next_id,
        forall|i: int| 0 <= i < pending.len() ==> (#[trigger] pending[i]).attempts < MAX_ATTEMPTS,
    ensures
        distinct_ids(pending.remove(p) + claimed),
        forall|i: int| 0 <= i < (pending.remove(p) + claimed).len() ==> (#[trigger] (pending.remove(p) + claimed)[i]).id@ < next_id,
        forall|i: int| 0 <= i < pending.remove(p).len() ==> (#[trigger] pending.remove(p)[i]).attempts < MAX_ATTEMPTS,
{
    let old_all = pending + claimed;
    let all = pending.remove(p) + claimed;
    let n = pending.len() as int;
    let pos = |k: int| if k < p { k } else { k + 1 };
    assert forall|k: int| 0 <= k < all.len() implies #[trigger] all[k] == old_all[pos(k)] by {
        if k < n - 1 {
            assert(all[k] == pending.remove(p)[k]);
        } else {
            assert(all[k] == claimed[k - (n - 1)]);
        }
    }
    assert forall|a: int, b: int|
        0 <= a < all.len() && 0 <= b < all.len() && a != b implies #[trigger] all[a].id
        != #[trigger] all[b].id by {
        assert(all[a] == old_all[pos(a)]);
        assert(all[b] == old_all[pos(b)]);
    }
    assert forall|k: int| 0 <= k < all.len() implies (#[trigger] all[k]).id@ < next_id by {
        assert(all[k] == old_all[pos(k)]);
    }
    assert forall|k: int| 0 <= k < pending.remove(p).len() implies (
    #[trigger] pending.remove(p)[k]).attempts < MAX_ATTEMPTS by {
        if k >= p {
            assert(pending.remove(p)[k] == pending[k + 1]);
        }
    }
}

proof fn lemma_requeue_keeps_wf(pending: Seq<QueuedTask>, claimed: Seq<QueuedTask>, c: int, next_id: u64)
    requires
        0 <= c < claimed.len(),
        claimed[c].attempts < MAX_ATTEMPTS,
        distinct_ids(pending + claimed),
        forall|i: int| 0 <= i < (pending + claimed).len() ==> (#[trigger] (pending + claimed)[i]).id@ < next_id,
        forall|i: int| 0 <= i < pending.len() ==> (#[trigger] pending[i]).attempts < MAX_ATTEMPTS,
        forall|i: int| 0 <= i < claimed.len() ==> (#[trigger] claimed[i]).attempts <= MAX_ATTEMPTS,
    ensures
        distinct_ids(pending.push(claimed[c]) + claimed.remove(c)),
        forall|i: int| 0 <= i < (pending.push(claimed[c]) + claimed.remove(c)).len() ==> (#[trigger] (pending.push(claimed[c]) + claimed.remove(c))[i]).id@ < next_id,
        forall|i: int| 0 <= i < pending.push(claimed[c]).len() ==> (#[trigger] pending.push(claimed[c])[i]).attempts < MAX_ATTEMPTS,
        forall|i: int| 0 <= i < claimed.remove(c).len() ==> (#[trigger] claimed.remove(c)[i]).attempts <= MAX_ATTEMPTS,
{
    let old_all = pending + claimed;
    let all = pending.push(claimed[c]) + claimed.remove(c);
    let n = pending.len() as int;
    let pos = |k: int|
        if k < n {
            k
        } else if k == n {
            n + c
        } else if k - (n + 1) < c {
            k - 1
        } else {
            k
        };
    assert forall|k: int| 0 <= k < all.len() implies #[trigger] all[k] == old_all[pos(k)] by {
        if k < n {
            assert(all[k] == pending[k]);
        } else if k == n {
            assert(all[k] == claimed[c]);
        } else {
            assert(all[k] == claimed.remove(c)[k - (n + 1)]);
        }
    }
    assert forall|a: int, b: int|
        0 <= a < all.len() && 0 <= b < all.len() && a != b implies #[trigger] all[a].id
        != #[trigger] all[b].id by {
        assert(all[a] == old_all[pos(a)]);
        assert(all[b] == old_all[pos(b)]);
    }
    assert forall|k: int| 0 <= k < all.len() implies (#[trigger] all[k]).id@ < next_id by {
        assert(all[k] == old_all[pos(k)]);
    }
    assert forall|k: int| 0 <= k < claimed.remove(c).len() implies (
    #[trigger] claimed.remove(c)[k]).attempts <= MAX_ATTEMPTS by {
        if k >= c {
            assert(claimed.remove(c)[k] == claimed[k + 1]);
        }
    }
}

/// How a handler run ended.
#[derive(Debug, Clone, PartialEq, Eq)]
pub enum RunResult {
    /// The handler returned successfully.
    Succeeded,
    /// The handler returned an error with this description.
    Failed(String),
    /// The handler panicked.
    Panicked,
}

/// What the runner asks of the store after a run.
#[derive(Debug, Clone, PartialEq, Eq)]
pub enum MarkRequest {
    /// Mark the task complete.
    Complete,
    /// Record the task's failure with this description.
    Fail(String),
}

/// How the store took the runner's request.
#[derive(Debug, Clone, Copy, PartialEq, Eq, Structural)]
pub enum MarkResult {
    /// The task was marked complete.
    Completed,
    /// The failure was recorded with this outcome.
    FailRecorded(FailOutcome),
    /// The store refused the request.
    StoreError,
}

/// The description recorded for a panicked handler.
pub open spec fn panicked_text() -> Seq<char> {
    "background task panicked"@
}

/// What to ask of the store after a run: completion for a success, the failure's own
/// description for an error, and a fixed description for a panic.
pub fn mark_request(run: RunResult) -> (res: MarkRequest)
    ensures
        run is Succeeded ==> res is Complete,
        run matches RunResult::Failed(msg) ==> res == MarkRequest::Fail(msg),
        run is Panicked ==> (res matches MarkRequest::Fail(msg) && msg@ == panicked_text()),
{
    match run {
        RunResult::Succeeded => MarkRequest::Complete,
        RunResult::Failed(msg) => MarkRequest::Fail(msg),
        RunResult::Panicked => MarkRequest::Fail(String::from_str("background task panicked")),
    }
}

/// Whether a task is finished once the store took the request: completed, or dropped after
/// its last allowed failure.
pub open spec fn finished_spec(mark: MarkResult) -> bool {
    match mark {
        MarkResult::Completed => true,
        MarkResult::FailRecorded(FailOutcome::Dropped) => true,
        MarkResult::FailRecorded(FailOutcome::Requeued) => false,
        MarkResult::StoreError => false,
    }
}

/// After how many milliseconds a task of recurrence `interval` is scheduled again: its own
/// interval when it is finished and recurring; never for a one-shot or unfinished task.
pub fn reschedule_delay(mark: MarkResult, interval: Option<u64>) -> (res: Option<u64>)
    ensures
        res == (if finished_spec(mark) {
            interval
        } else {
            None
        }),
        interval is None ==> res is None,
{
    let finished = match mark {
        MarkResult::Completed => true,
        MarkResult::FailRecorded(FailOutcome::Dropped) => true,
        MarkResult::FailRecorded(FailOutcome::Requeued) => false,
        MarkResult::StoreError => false,
    };
    if finished {
        interval
    } else {
        None
    }
}

/// The store effect of `mark_complete(id)` taking `before` to `after`.
pub open spec fn completed_from(before: InMemoryQueueStore, after: InMemoryQueueStore, id: TaskId) -> bool {
    let c = index_of_id(before.claimed(), id, 0);
    let p = index_of_id(before.pending(), id, 0);
    if c >= 0 {
        &&& after.claimed() == before.claimed().remove(c)
        &&& after.pending() == before.pending()
    } else if p >= 0 {
        &&& after.pending() == before.pending().remove(p)
        &&& after.claimed() == before.claimed()
    } else {
        &&& after.pending() == before.pending()
        &&& after.claimed() == before.claimed()
    }
}

/// The store effect of `mark_failed(id, ..)` taking `before` to `after`.
pub open spec fn failed_from(before: InMemoryQueueStore, after: InMemoryQueueStore, id: TaskId) -> bool {
    let c = index_of_id(before.claimed(), id, 0);
    if c < 0 {
        &&& after.pending() == before.pending()
        &&& after.claimed() == before.claimed()
    } else if before.claimed()[c].attempts >= MAX_ATTEMPTS {
        &&& after.pending() == before.pending()
        &&& after.claimed() == before.claimed().remove(c)
    } else {
        &&& after.pending() == before.pending().push(before.claimed()[c])
        &&& after.claimed() == before.claimed().remove(c)
    }
}

/// Whether the store knows task `id` at all (claimed or pending).
pub open spec fn knows_id(s: InMemoryQueueStore, id: TaskId) -> bool {
    index_of_id(s.claimed(), id, 0) >= 0 || index_of_id(s.pending(), id, 0) >= 0
}

/// Whether recording a failure of `id` drops the task: it is claimed and has used all its
/// claims.
pub open spec fn failure_drops(s: InMemoryQueueStore, id: TaskId) -> bool {
    let c = index_of_id(s.claimed(), id, 0);
    c >= 0 && s.claimed()[c].attempts >= MAX_ATTEMPTS
}

/// Whether a run of `task` with outcome `run` leaves it finished in `s`: a success of a task
/// the store knows, or a failure that drops it.
pub open spec fn settles_finished(s: InMemoryQueueStore, id: TaskId, run: RunResult) -> bool {
    if run is Succeeded {
        knows_id(s, id)
    } else {
        failure_drops(s, id)
    }
}

/// The line the runner logs when the store refuses its request about task `id`, if it does.
pub open spec fn settle_log_spec(s: InMemoryQueueStore, id: TaskId, run: RunResult) -> Option<Seq<char>> {
    if run is Succeeded {
        if knows_id(s, id) {
            None
        } else {
            Some("queue complete error: "@ + error_message(VaultError::TaskNotFound { id: id@ }))
        }
    } else if index_of_id(s.claimed(), id, 0) >= 0 {
        None
    } else {
        Some("queue fail error: "@ + error_message(VaultError::TaskNotFound { id: id@ }))
    }
}

/// Facade over an [`InMemoryQueueStore`] that schedules on the default lane; waking the runner
/// is the caller's part. Its store is always well formed.
pub struct WorkQueue {
    store: InMemoryQueueStore,
}

impl WorkQueue {
    /// The store of a work queue is well formed.
    #[verifier::type_invariant]
    spec fn store_is_wf(self) -> bool {
        self.store.wf()
    }

    /// The underlying store.
    pub closed spec fn store_view(&self) -> InMemoryQueueStore {
        self.store
    }

    /// Create a work queue backed by `store`.
    pub fn new(store: InMemoryQueueStore) -> (res: Self)
        requires
            store.wf(),
        ensures
            res.store_view() == store,
    {
        WorkQueue { store }
    }

    /// Shared store handle.
    pub fn store(&self) -> (res: &InMemoryQueueStore)
        ensures
            *res == self.store_view(),
            res.wf(),
    {
        proof {
            use_type_invariant(self);
        }
        &self.store
    }

    /// Whether another task can be given a fresh id.
    pub fn can_enqueue(&self) -> (res: bool)
        ensures
            res == (self.store_view().next_id() < u64::MAX),
    {
        self.store.can_schedule()
    }

    /// Enqueue `kind` on the default lane, at the back of the pending tasks.
    pub fn enqueue(&mut self, kind: TaskKind) -> (res: Result<TaskId, VaultError>)
        requires
            old(self).store_view().next_id() < u64::MAX,
        ensures
            res matches Ok(id) && id@ == old(self).store_view().next_id(),
            final(self).store_view().next_id() == old(self).store_view().next_id() + 1,
            final(self).store_view().pending().drop_last() == old(self).store_view().pending(),
            final(self).store_view().pending().len() == old(self).store_view().pending().len() + 1,
            final(self).store_view().pending().last().id@ == old(self).store_view().next_id(),
            final(self).store_view().pending().last().kind == kind,
            final(self).store_view().pending().last().lane@ == DEFAULT_LANE@,
            final(self).store_view().pending().last().attempts == 0,
            final(self).store_view().claimed() == old(self).store_view().claimed(),
    {
        proof {
            use_type_invariant(&*self);
        }
        let mut store = InMemoryQueueStore::new();
        std::mem::swap(&mut store, &mut self.store);
        let id = store.schedule(kind, DEFAULT_LANE);
        self.store = store;
        Ok(id)
    }

    /// Non-destructive peek at pending tasks on the default lane.
    pub fn snapshot(&self) -> (res: Result<Vec<QueuedTask>, VaultError>)
        ensures
            res matches Ok(v) && v@ == in_lane(self.store_view().pending(), DEFAULT_LANE@),
    {
        Ok(self.store.snapshot(DEFAULT_LANE))
    }

    /// Claim the next pending task of the default lane, as the runner does each turn.
    pub fn claim_next(&mut self) -> (res: Option<QueuedTask>)
        ensures
            final(self).store_view().next_id() == old(self).store_view().next_id(),
            ({
                let i = first_in_lane(old(self).store_view().pending(), DEFAULT_LANE@, 0);
                if i < 0 {
                    &&& res is None
                    &&& final(self).store_view().pending() == old(self).store_view().pending()
                    &&& final(self).store_view().claimed() == old(self).store_view().claimed()
                } else {
                    &&& res == Some(claimed_copy(old(self).store_view().pending()[i]))
                    &&& final(self).store_view().pending() == old(self).store_view().pending().remove(i)
                    &&& final(self).store_view().claimed() == old(self).store_view().claimed().push(
                        claimed_copy(old(self).store_view().pending()[i]),
                    )
                }
            }),
    {
        proof {
            use_type_invariant(&*self);
        }
        let mut store = InMemoryQueueStore::new();
        std::mem::swap(&mut store, &mut self.store);
        let res = store.claim_next_pending(DEFAULT_LANE);
        self.store = store;
        res
    }

    /// Settle a claimed `task` after its handler ran with outcome `run`: mark it complete on
    /// success, or record its failure (the handler's description, or a fixed one for a panic).
    /// Returns after how many milliseconds the task's kind is to be enqueued again (a finished
    /// recurring task only), and the line to log when the store refused the request.
    pub fn settle(&mut self, task: &QueuedTask, run: RunResult) -> (res: (Option<u64>, Option<String>))
        ensures
            final(self).store_view().next_id() == old(self).store_view().next_id(),
            run is Succeeded ==> completed_from(old(self).store_view(), final(self).store_view(), task.id),
            !(run is Succeeded) ==> failed_from(old(self).store_view(), final(self).store_view(), task.id),
            res.0 == (if settles_finished(old(self).store_view(), task.id, run) {
                kind_interval(task.kind)
            } else {
                None
            }),
            match settle_log_spec(old(self).store_view(), task.id, run) {
                Some(line) => res.1 matches Some(l) && l@ == line,
                None => res.1 is None,
            },
    {
        proof {
            use_type_invariant(&*self);
        }
        let mut store = InMemoryQueueStore::new();
        std::mem::swap(&mut store, &mut self.store);
        let request = mark_request(run);
        let (mark, log) = match request {
            MarkRequest::Complete => match store.mark_complete(task.id) {
                Ok(()) => (MarkResult::Completed, None),
                Err(e) => {
                    let mut line = String::from_str("queue complete error: ");
                    let text = e.message();
                    push_str(&mut line, text.as_str());
                    (MarkResult::StoreError, Some(line))
                },
            },
            MarkRequest::Fail(msg) => match store.mark_failed(task.id, msg.as_str()) {
                Ok(outcome) => (MarkResult::FailRecorded(outcome), None),
                Err(e) => {
                    let mut line = String::from_str("queue fail error: ");
                    let text = e.message();
                    push_str(&mut line, text.as_str());
                    (MarkResult::StoreError, Some(line))
                },
            },
        };
        self.store = store;
        let delay = reschedule_delay(mark, task.kind.interval());
        (delay, log)
    }
}

/// Scanning a sequence with one more task at its end finds the same first task of `lane`, or
/// the new task when there was none and it belongs to `lane`.
proof fn lemma_first_in_lane_push(d: Seq<QueuedTask>, t: QueuedTask, lane: Seq<char>, from: int)
    requires
        0 <= from <= d.len(),
    ensures
        first_in_lane(d, lane, from) >= 0 ==> first_in_lane(d.push(t), lane, from) == first_in_lane(
            d,
            lane,
            from,
        ),
        first_in_lane(d, lane, from) < 0 ==> first_in_lane(d.push(t), lane, from) == (if t.lane@
            == lane {
            d.len() as int
        } else {
            -1
        }),
        first_in_lane(d, lane, from) == -1 || (from <= first_in_lane(d, lane, from) < d.len()),
    decreases d.len() - from,
{
    if from < d.len() {
        assert(d.push(t)[from] == d[from]);
        lemma_first_in_lane_push(d, t, lane, from + 1);
    } else {
        assert(d.push(t)[from] == t);
        if t.lane@ != lane {
            assert(first_in_lane(d.push(t), lane, from + 1) == -1);
        }
    }
}

/// The head of a lane's pending tasks is the task claimed next, and claiming it leaves the
/// rest of the lane in order.
proof fn lemma_in_lane_front(s: Seq<QueuedTask>, lane: Seq<char>)
    ensures
        first_in_lane(s, lane, 0) < 0 ==> in_lane(s, lane).len() == 0,
        first_in_lane(s, lane, 0) >= 0 ==> {
            let i = first_in_lane(s, lane, 0);
            &&& i < s.len()
            &&& in_lane(s, lane).len() > 0
            &&& in_lane(s, lane)[0] == s[i]
            &&& in_lane(s.remove(i), lane) == in_lane(s, lane).drop_first()
        },
    decreases s.len(),
{
    reveal(Seq::filter);
    if s.len() == 0 {
        assert(in_lane(s, lane) =~= Seq::<QueuedTask>::empty());
    } else {
        let d = s.drop_last();
        let t = s.last();
        assert(d.push(t) =~= s);
        lemma_in_lane_front(d, lane);
        lemma_first_in_lane_push(d, t, lane, 0);
        assert(in_lane(s, lane) == if t.lane@ == lane {
            in_lane(d, lane).push(t)
        } else {
            in_lane(d, lane)
        });
        let id = first_in_lane(d, lane, 0);
        if id >= 0 {
            let r = d.remove(id);
            assert(s.remove(id) =~= r.push(t));
            assert(s.remove(id).drop_last() =~= r);
            assert(s.remove(id).last() == t);
            assert(in_lane(s.remove(id), lane) == if t.lane@ == lane {
                in_lane(r, lane).push(t)
            } else {
                in_lane(r, lane)
            });
            if t.lane@ == lane {
                assert(in_lane(s.remove(id), lane) =~= in_lane(s, lane).drop_first());
            }
        } else if t.lane@ == lane {
            assert(s.remove(d.len() as int) =~= d);
            assert(in_lane(s, lane) =~= seq![t]);
        }
    }
}

/// Each lane is a first-in, first-out queue. Scheduling a task on `lane` appends it to the
/// lane's pending tasks (as [`InMemoryQueueStore::snapshot`] reports them); the task
/// [`InMemoryQueueStore::claim_next_pending`] takes is the head of the lane, and taking it
/// leaves the rest of the lane in order. With no pending task on the lane there is nothing
/// to claim.
pub proof fn lemma_lane_is_fifo(pending: Seq<QueuedTask>, t: QueuedTask, lane: Seq<char>)
    ensures
        t.lane@ == lane ==> in_lane(pending.push(t), lane) == in_lane(pending, lane).push(t),
        t.lane@ != lane ==> in_lane(pending.push(t), lane) == in_lane(pending, lane),
        first_in_lane(pending, lane, 0) < 0 <==> in_lane(pending, lane).len() == 0,
        first_in_lane(pending, lane, 0) >= 0 ==> {
            let i = first_in_lane(pending, lane, 0);
            &&& in_lane(pending, lane)[0] == pending[i]
            &&& in_lane(pending.remove(i), lane) == in_lane(pending, lane).drop_first()
        },
{
    reveal(Seq::filter);
    assert(pending.push(t).drop_last() =~= pending);
    lemma_in_lane_front(pending, lane);
}

/// Retries are bounded: in a well-formed store every pending task has claims left and no
/// claimed task has been claimed more than [`MAX_ATTEMPTS`] times, and ids are unique. Since
/// a claim records one more attempt and a failure at the cap drops the task, no task runs
/// more than [`MAX_ATTEMPTS`] times.
pub proof fn lemma_attempts_bounded(s: InMemoryQueueStore)
    requires
        s.wf(),
    ensures
        forall|i: int| 0 <= i < s.pending().len() ==> (#[trigger] s.pending()[i]).attempts < MAX_ATTEMPTS,
        forall|i: int| 0 <= i < s.claimed().len() ==> (#[trigger] s.claimed()[i]).attempts <= MAX_ATTEMPTS,
        distinct_ids(s.pending() + s.claimed()),
{
}

} // verus!
