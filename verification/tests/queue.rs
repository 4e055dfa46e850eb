use vault::domain::queue::{QueuedTask, TaskKind};
use vault::queue::{
    mark_request, reschedule_delay, FailOutcome, InMemoryQueueStore, MarkRequest, MarkResult,
    RunResult, WorkQueue, DEFAULT_LANE, MAX_ATTEMPTS,
};

fn once(root: &str) -> TaskKind {
    TaskKind::reconcile_walk_once(root.to_string())
}

#[test]
fn enqueue_returns_task_id() {
    let store = InMemoryQueueStore::new();
    let mut queue = WorkQueue::new(store);
    let id = queue.enqueue(once("/vault")).expect("enqueue");
    let snap = queue.snapshot().expect("snapshot");
    assert_eq!(snap.len(), 1);
    assert_eq!(snap[0].id, id);
}

#[test]
fn schedule_claims_fifo() {
    let mut store = InMemoryQueueStore::new();
    let first = store.schedule(once("/a"), DEFAULT_LANE);
    let second = store.schedule(once("/b"), DEFAULT_LANE);
    assert_eq!(store.claim_next_pending(DEFAULT_LANE).expect("some").id, first);
    assert_eq!(store.claim_next_pending(DEFAULT_LANE).expect("some").id, second);
    assert!(store.claim_next_pending(DEFAULT_LANE).is_none());
}

#[test]
fn lanes_are_independent() {
    let mut store = InMemoryQueueStore::new();
    let other = store.schedule(once("/x"), "other");
    let default = store.schedule(once("/y"), DEFAULT_LANE);
    assert_eq!(store.claim_next_pending(DEFAULT_LANE).expect("some").id, default);
    assert!(store.claim_next_pending(DEFAULT_LANE).is_none());
    assert_eq!(store.snapshot("other").len(), 1);
    assert_eq!(store.claim_next_pending("other").expect("some").id, other);
}

#[test]
fn empty_lane_returns_none() {
    let mut store = InMemoryQueueStore::new();
    assert!(store.claim_next_pending(DEFAULT_LANE).is_none());
}

#[test]
fn mark_complete_removes_task() {
    let mut store = InMemoryQueueStore::new();
    let id = store.schedule(once("/a"), DEFAULT_LANE);
    store.mark_complete(id).expect("complete");
    assert!(store.claim_next_pending(DEFAULT_LANE).is_none());
    assert!(store.mark_complete(id).is_err());
}

#[test]
fn mark_failed_retries_then_drops() {
    let mut store = InMemoryQueueStore::new();
    let id = store.schedule(once("/a"), DEFAULT_LANE);
    let first = store.claim_next_pending(DEFAULT_LANE).expect("claim");
    assert_eq!(first.attempts, 1);

    assert_eq!(store.mark_failed(id, "err").expect("fail"), FailOutcome::Requeued);
    let requeued = store.claim_next_pending(DEFAULT_LANE).expect("requeued");
    assert_eq!(requeued.attempts, 2);

    assert_eq!(store.mark_failed(id, "err").expect("fail"), FailOutcome::Requeued);
    let third = store.claim_next_pending(DEFAULT_LANE).expect("claim");
    assert_eq!(third.attempts, MAX_ATTEMPTS);

    assert_eq!(store.mark_failed(id, "err").expect("fail"), FailOutcome::Dropped);
    assert!(store.claim_next_pending(DEFAULT_LANE).is_none());
}

#[test]
fn mark_failed_of_unclaimed_task_is_not_found() {
    let mut store = InMemoryQueueStore::new();
    let id = store.schedule(once("/a"), DEFAULT_LANE);
    match store.mark_failed(id, "err") {
        Err(vault::error::VaultError::TaskNotFound { id: missing }) => assert_eq!(missing, id.as_u64()),
        other => panic!("unexpected {other:?}"),
    }
}

#[test]
fn requeued_task_goes_to_the_back() {
    let mut store = InMemoryQueueStore::new();
    let a = store.schedule(once("/a"), DEFAULT_LANE);
    let b = store.schedule(once("/b"), DEFAULT_LANE);
    let claimed = store.claim_next_pending(DEFAULT_LANE).expect("a");
    assert_eq!(claimed.id, a);
    store.mark_failed(a, "err").expect("requeue");
    let ids: Vec<_> = store.snapshot(DEFAULT_LANE).iter().map(|t| t.id).collect();
    assert_eq!(ids, vec![b, a]);
}

#[test]
fn snapshot_is_non_destructive() {
    let mut store = InMemoryQueueStore::new();
    assert!(store.snapshot(DEFAULT_LANE).is_empty());
    store.schedule(once("/a"), DEFAULT_LANE);
    store.schedule(once("/b"), DEFAULT_LANE);
    let snap = store.snapshot(DEFAULT_LANE);
    assert_eq!(snap.len(), 2);
    let claimed = store.claim_next_pending(DEFAULT_LANE).expect("some");
    assert_eq!(claimed.id, snap[0].id);
}

#[test]
fn interval_preserved_on_round_trip() {
    let mut store = InMemoryQueueStore::new();
    let kind = TaskKind::reconcile_walk_with_interval("/vault".to_string(), 50);
    store.schedule(kind, DEFAULT_LANE);
    let claimed = store.claim_next_pending(DEFAULT_LANE).expect("some");
    assert_eq!(claimed.kind.interval(), Some(50));
}

#[test]
fn ids_count_up_from_one() {
    let mut store = InMemoryQueueStore::new();
    assert!(store.can_schedule());
    assert_eq!(store.schedule(once("/a"), DEFAULT_LANE).as_u64(), 1);
    assert_eq!(store.schedule(once("/b"), DEFAULT_LANE).as_u64(), 2);
}

#[test]
fn mark_request_describes_the_run() {
    assert_eq!(mark_request(RunResult::Succeeded), MarkRequest::Complete);
    assert_eq!(
        mark_request(RunResult::Failed("boom".to_string())),
        MarkRequest::Fail("boom".to_string())
    );
    assert_eq!(
        mark_request(RunResult::Panicked),
        MarkRequest::Fail("background task panicked".to_string())
    );
}

#[test]
fn reschedule_only_finished_recurring_tasks() {
    assert_eq!(reschedule_delay(MarkResult::Completed, Some(50)), Some(50));
    assert_eq!(reschedule_delay(MarkResult::FailRecorded(FailOutcome::Dropped), Some(50)), Some(50));
    assert_eq!(reschedule_delay(MarkResult::FailRecorded(FailOutcome::Requeued), Some(50)), None);
    assert_eq!(reschedule_delay(MarkResult::StoreError, Some(50)), None);
    assert_eq!(reschedule_delay(MarkResult::Completed, None), None);
}

fn claim(queue: &mut WorkQueue) -> QueuedTask {
    queue.claim_next().expect("claim")
}

#[test]
fn settle_completes_and_reschedules_recurring_task() {
    let mut queue = WorkQueue::new(InMemoryQueueStore::new());
    queue
        .enqueue(TaskKind::reconcile_walk_with_interval("/v".to_string(), 50))
        .expect("enqueue");
    let task = claim(&mut queue);
    let (delay, log) = queue.settle(&task, RunResult::Succeeded);
    assert_eq!(delay, Some(50));
    assert_eq!(log, None);
    assert!(queue.snapshot().expect("snapshot").is_empty());
    assert!(queue.claim_next().is_none());
}

#[test]
fn settle_one_shot_task_does_not_reschedule() {
    let mut queue = WorkQueue::new(InMemoryQueueStore::new());
    queue.enqueue(once("/v")).expect("enqueue");
    let task = claim(&mut queue);
    assert_eq!(queue.settle(&task, RunResult::Succeeded), (None, None));
}

#[test]
fn settle_failure_requeues_until_dropped() {
    let mut queue = WorkQueue::new(InMemoryQueueStore::new());
    queue
        .enqueue(TaskKind::reconcile_walk_with_interval("/v".to_string(), 9))
        .expect("enqueue");
    let t1 = claim(&mut queue);
    assert_eq!(queue.settle(&t1, RunResult::Failed("no".to_string())), (None, None));
    assert_eq!(queue.snapshot().expect("snapshot").len(), 1);
    let t2 = claim(&mut queue);
    assert_eq!(queue.settle(&t2, RunResult::Panicked), (None, None));
    let t3 = claim(&mut queue);
    assert_eq!(t3.attempts, 3);
    assert_eq!(queue.settle(&t3, RunResult::Failed("no".to_string())), (Some(9), None));
    assert!(queue.snapshot().expect("snapshot").is_empty());
}

#[test]
fn settle_reports_store_refusal() {
    let mut queue = WorkQueue::new(InMemoryQueueStore::new());
    queue.enqueue(once("/v")).expect("enqueue");
    let task = claim(&mut queue);
    assert_eq!(queue.settle(&task, RunResult::Succeeded), (None, None));
    let (delay, log) = queue.settle(&task, RunResult::Succeeded);
    assert_eq!(delay, None);
    assert_eq!(log, Some(format!("queue complete error: queued task not found: {}", task.id.as_u64())));
    let (_, log) = queue.settle(&task, RunResult::Failed("x".to_string()));
    assert_eq!(log, Some(format!("queue fail error: queued task not found: {}", task.id.as_u64())));
}
