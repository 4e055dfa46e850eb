use vault::daemon::{
    is_running, prune_registry, lock_held_error, log_line, queue_snapshot, queue_task_snapshot,
    seed_background_tasks,
};
use vault::domain::queue::{
    QueuedTask, TaskId, TaskKind, GIT_HOUSEKEEPING_INTERVAL_MS, RECONCILE_WALK_INTERVAL_MS,
};
use vault::domain::vault::VaultLayout;
use vault::error::VaultError;
use vault::paths::{path_join, InitPaths, VaultPaths};
use vault::registry::{VaultEntry, VaultRegistry};
use vault::service::{ServiceState, StartAction, UnsupportedService};

fn task(id: u64, root: &str, attempts: u32) -> QueuedTask {
    QueuedTask {
        id: TaskId::new(id),
        kind: TaskKind::reconcile_walk_once(root.to_string()),
        lane: "default".to_string(),
        attempts,
    }
}

#[test]
fn queue_snapshot_lists_pending_tasks() {
    let snap = queue_snapshot("2026-08-04T10:00:00Z".to_string(), vec![task(7, "/a", 0), task(9, "/b", 2)]);
    assert_eq!(snap.updated_at, "2026-08-04T10:00:00Z");
    assert_eq!(snap.tasks.len(), 2);
    assert_eq!(snap.tasks[0].id, 7);
    assert_eq!(snap.tasks[0].kind, "reconcile_walk");
    assert_eq!(snap.tasks[1].lane, "default");
    assert_eq!(snap.tasks[1].attempts, 2);
    let one = queue_task_snapshot(task(3, "/c", 1));
    assert_eq!((one.id, one.kind.as_str(), one.attempts), (3, "reconcile_walk", 1));
}

#[test]
fn running_needs_heartbeat_and_lock() {
    assert!(is_running(true, true));
    assert!(!is_running(true, false));
    assert!(!is_running(false, true));
}

#[test]
fn lock_error_names_the_holder_when_known() {
    assert_eq!(lock_held_error(Some(12)), VaultError::DaemonAlreadyRunning { pid: 12 });
    assert_eq!(lock_held_error(None), VaultError::LockHeld);
}

#[test]
fn log_lines_are_timestamped() {
    assert_eq!(log_line("2026-01-01T00:00:00Z", "vault daemon started"), "2026-01-01T00:00:00Z vault daemon started\n");
}

#[test]
fn seeding_skips_disabled_and_missing_roots() {
    let entry = |root: &str, enabled: bool| VaultEntry {
        root: root.to_string(),
        registered_at: "t".to_string(),
        enabled,
    };
    let entries = vec![entry("/a", true), entry("/b", false), entry("/c", true), entry("/d", true)];
    let kinds = seed_background_tasks(&entries, &vec![true, true, false, true]);
    assert_eq!(
        kinds,
        vec![
            TaskKind::reconcile_walk("/a".to_string()),
            TaskKind::git_housekeeping("/a".to_string()),
            TaskKind::reconcile_walk("/d".to_string()),
            TaskKind::git_housekeeping("/d".to_string()),
        ]
    );
    assert_eq!(kinds[0].interval(), Some(RECONCILE_WALK_INTERVAL_MS));
    assert_eq!(kinds[1].interval(), Some(GIT_HOUSEKEEPING_INTERVAL_MS));
}

#[test]
fn unsupported_service_spawns_when_stopped() {
    let service = UnsupportedService;
    assert!(service.install().is_ok());
    assert_eq!(service.ensure_running(true), StartAction::AlreadyRunning);
    assert_eq!(service.ensure_running(false), StartAction::SpawnDetached);
    assert_eq!(service.state(), ServiceState::Unsupported);
}

#[test]
fn layouts_join_marker_paths() {
    let layout = VaultLayout::from_worktree("/notes".to_string());
    assert_eq!(layout.vault_dir, "/notes/.vault");
    assert_eq!(layout.config_path(), "/notes/.vault/config.toml");
    assert_eq!(layout.meta_db_path(), "/notes/.vault/meta.db");
    assert_eq!(layout.git_dir_path(), "/notes/.vault/.git");
    assert_eq!(layout.readme_path(), "/notes/.vault/README");
    let init = InitPaths { worktree: "/w".to_string(), vault_dir: "/w/custom".to_string() };
    assert_eq!(init.config_path(), "/w/custom/config.toml");
    let paths = VaultPaths::from_init(init);
    assert_eq!(paths.meta_db_path(), "/w/custom/meta.db");
}

#[test]
fn path_join_follows_push_rules() {
    assert_eq!(path_join("/a", "b"), "/a/b");
    assert_eq!(path_join("/a/", "b"), "/a/b");
    assert_eq!(path_join("", "b"), "b");
    assert_eq!(path_join("/a", "/etc"), "/etc");
}

#[test]
fn prune_registry_counts_removed_entries() {
    let mut registry = VaultRegistry::default();
    for root in ["/a", "/b", "/c"] {
        registry.register(root.to_string(), "t".to_string());
    }
    assert_eq!(prune_registry(&mut registry, &vec![false, true, false]), 2);
    assert_eq!(registry.vault.len(), 1);
    assert_eq!(registry.vault[0].root, "/b");
    assert_eq!(prune_registry(&mut registry, &vec![true]), 0);
}
