use vault::cli::args::VERSION;
use vault::config::VaultConfig;
use vault::domain::change::{FileChange, FileEventKind};
use vault::domain::queue::{TaskId, TaskKind, GIT_HOUSEKEEPING_INTERVAL_MS};
use vault::domain::rel_path::RelPath;
use vault::domain::vault::{vault_state, MarkerPresence, VaultState};
use vault::error::{reindex_hint, IoErrorKind, IoFailure, VaultError};
use vault::init::{initialize, starts_daemon, InitOptions};
use vault::ignore::{exceeds_max_bytes, normalize_rel_path, IgnoreMatcher};
use vault::paths::{
    state_dir_from, state_file_from,
    ancestors, daemon_log_path, discover_vault, is_initialized, registry_path, resolve_init,
    resolve_vault, skip_service, state_dir, META_DB, README_FILE,
};
use vault::queue::handlers::{git_housekeeping, reconcile_walk, run, RepackRecord};
use vault::registry::{VaultEntry, VaultRegistry, REGISTRY_VERSION};
use vault::snapshot::{changes_from_rel_paths, commit_message};

fn presence(config_file: bool, meta_db: bool, git_dir: bool, readme: bool) -> MarkerPresence {
    MarkerPresence { config_file, meta_db, git_dir, readme }
}

fn none_present() -> MarkerPresence {
    presence(false, false, false, false)
}

fn strings(items: &[&str]) -> Vec<String> {
    items.iter().map(|s| s.to_string()).collect()
}

// ---- error messages ----

#[test]
fn partial_vault_hints_reindex_when_only_meta_db_is_missing() {
    let err = VaultError::PartialVault {
        path: "/vault/.vault".to_string(),
        found: "config.toml, .git, README".to_string(),
        missing: "meta.db".to_string(),
    };
    assert!(err.message().contains("run `vault reindex`"));
}

#[test]
fn partial_vault_has_no_reindex_hint_when_git_is_also_missing() {
    let err = VaultError::PartialVault {
        path: "/vault/.vault".to_string(),
        found: "config.toml, README".to_string(),
        missing: ".git, meta.db".to_string(),
    };
    assert!(!err.message().contains("vault reindex"));
}

#[test]
fn invalid_glob_is_not_io_error() {
    let err = VaultError::InvalidGlob {
        pattern: "[unclosed".to_string(),
    };
    assert!(matches!(err, VaultError::InvalidGlob { .. }));
}

#[test]
fn new_variants_construct() {
    assert!(matches!(
        VaultError::NoSnapshotAt {
            at: "2026-01-01".to_string()
        },
        VaultError::NoSnapshotAt { .. }
    ));
    assert!(matches!(
        VaultError::PathNotTrackedAt {
            path: "a.md".to_string(),
            at: "2026-01-01".to_string()
        },
        VaultError::PathNotTrackedAt { .. }
    ));
    assert!(matches!(
        VaultError::CorruptMetaIndex {
            detail: "unknown event_type".to_string()
        },
        VaultError::CorruptMetaIndex { .. }
    ));
    assert!(matches!(
        VaultError::InvalidDate {
            input: "bad-date".to_string()
        },
        VaultError::InvalidDate { .. }
    ));
}

#[test]
fn error_messages_read_exactly() {
    let partial = VaultError::PartialVault {
        path: "/v/.vault".to_string(),
        found: "config.toml".to_string(),
        missing: "meta.db".to_string(),
    };
    assert_eq!(
        partial.message(),
        "incomplete vault at /v/.vault (found: config.toml; missing: meta.db) \u{2014} run `vault reindex` to rebuild it from .git history"
    );
    assert_eq!(
        VaultError::DaemonAlreadyRunning { pid: 77 }.message(),
        "vault daemon already running (pid 77)"
    );
    assert_eq!(
        VaultError::UnsupportedRegistryVersion { found: 99, expected: 1 }.message(),
        "unsupported registry version 99, expected 1"
    );
    assert_eq!(
        VaultError::TaskNotFound { id: 12 }.message(),
        "queued task not found: 12"
    );
    assert_eq!(
        VaultError::MetaDbNotEmpty { path: "/v/.vault/meta.db".to_string(), snapshot_count: 3 }
            .message(),
        "meta.db at /v/.vault/meta.db already has 3 snapshot(s) \u{2014} pass --force to rebuild it from .git history"
    );
    assert_eq!(
        VaultError::InvalidDate { input: "x".to_string() }.message(),
        "invalid date 'x' (expected YYYY-MM-DD, YYYY-MM-DD HH:MM, or RFC3339)"
    );
    assert_eq!(
        VaultError::PathNotTrackedAt { path: "a.md".to_string(), at: "T".to_string() }.message(),
        "a.md was not tracked at T"
    );
    assert_eq!(
        VaultError::Io(IoFailure { kind: IoErrorKind::Other, message: "disk full".to_string() })
            .message(),
        "disk full"
    );
    assert_eq!(VaultError::LockHeld.message(), "daemon lock held");
    assert_eq!(VaultError::Git("boom".to_string()).message(), "git storage error");
    assert_eq!(
        VaultError::NonUtf8Path { path: "a\"b".to_string() }.message(),
        "non-UTF-8 path: \"a\\\"b\""
    );
}

#[test]
fn reindex_hint_only_for_lone_meta_db() {
    assert!(reindex_hint("meta.db").contains("vault reindex"));
    assert_eq!(reindex_hint(".git, meta.db"), "");
    assert_eq!(reindex_hint(""), "");
}

// ---- ignore matching ----

#[test]
fn ignores_vault_glob() {
    let config = VaultConfig::defaults();
    let matcher = IgnoreMatcher::from_config(&config).expect("matcher");
    assert!(matcher.is_ignored(".vault/meta.db"));
    assert!(!matcher.is_ignored("notes.md"));
}

#[test]
fn ignores_swap_files() {
    let config = VaultConfig::defaults();
    let matcher = IgnoreMatcher::from_config(&config).expect("matcher");
    assert!(matcher.is_ignored("draft.md.swp"));
}

#[test]
fn rejects_invalid_glob_pattern() {
    let mut config = VaultConfig::defaults();
    config.ignore.push("[unclosed".to_string());

    let err = match IgnoreMatcher::from_config(&config) {
        Ok(_) => panic!("invalid glob accepted"),
        Err(e) => e,
    };
    match err {
        VaultError::Io(io_err) => {
            assert_eq!(io_err.kind, IoErrorKind::InvalidInput);
            assert!(io_err.message.contains("[unclosed"));
        }
        other => panic!("expected Io(InvalidInput), got {other:?}"),
    }
}

#[test]
fn ignore_matches_normalized_components() {
    let config = VaultConfig::defaults();
    let matcher = IgnoreMatcher::from_config(&config).expect("matcher");
    assert!(matcher.is_ignored(".git//objects/./ab"));
    assert!(matcher.is_ignored("deep/dir/report.pdf"));
    assert!(!matcher.is_ignored("deep/dir/report.md"));
    assert_eq!(normalize_rel_path("a//b/./c"), "a/b/c");
    assert_eq!(normalize_rel_path("a/b/"), "a/b");
}

#[test]
fn empty_pattern_list_ignores_nothing() {
    let mut config = VaultConfig::defaults();
    config.ignore.clear();
    let matcher = IgnoreMatcher::from_config(&config).expect("matcher");
    assert!(!matcher.is_ignored(".vault/meta.db"));
}

#[test]
fn size_cap_is_exclusive() {
    assert!(!exceeds_max_bytes(Some(10), 10));
    assert!(exceeds_max_bytes(Some(11), 10));
    assert!(!exceeds_max_bytes(None, 0));
}

// ---- snapshot changes ----

#[test]
fn changes_from_rel_paths_classifies_modify_and_delete() {
    let config = VaultConfig::defaults();
    let rels = vec![RelPath::parse("keep.md")];

    let changes = changes_from_rel_paths(&rels, &vec![Some(1)], &config).expect("modify");
    assert_eq!(changes.len(), 1);
    assert_eq!(changes[0].kind, FileEventKind::Modify);

    let changes = changes_from_rel_paths(&rels, &vec![None], &config).expect("delete");
    assert_eq!(changes.len(), 1);
    assert_eq!(changes[0].kind, FileEventKind::Delete);
}

#[test]
fn changes_from_rel_paths_skips_ignored_and_oversized() {
    let mut config = VaultConfig::defaults();
    config.watcher.max_file_bytes = 10;
    let rels = vec![RelPath::parse("notes.md.swp"), RelPath::parse("big.bin")];
    let changes = changes_from_rel_paths(&rels, &vec![Some(1), Some(11)], &config).expect("changes");
    assert!(changes.is_empty());
}

#[test]
fn changes_keep_notification_order() {
    let config = VaultConfig::defaults();
    let rels = vec![
        RelPath::parse("b.md"),
        RelPath::parse("a.md"),
        RelPath::parse(".git/HEAD"),
        RelPath::parse("c.md"),
    ];
    let sizes = vec![None, Some(3), Some(3), Some(0)];
    let changes = changes_from_rel_paths(&rels, &sizes, &config).expect("changes");
    let got: Vec<(String, FileEventKind)> = changes
        .iter()
        .map(|c| (c.rel.as_str().to_string(), c.kind))
        .collect();
    assert_eq!(
        got,
        vec![
            ("b.md".to_string(), FileEventKind::Delete),
            ("a.md".to_string(), FileEventKind::Modify),
            ("c.md".to_string(), FileEventKind::Modify),
        ]
    );
}

#[test]
fn changes_fail_on_invalid_ignore_pattern() {
    let mut config = VaultConfig::defaults();
    config.ignore.push("{a".to_string());
    let err = changes_from_rel_paths(&vec![], &vec![], &config).expect_err("bad glob");
    assert!(matches!(err, VaultError::Io(IoFailure { kind: IoErrorKind::InvalidInput, .. })));
}

#[test]
fn commit_message_prefixes_summary() {
    let one = vec![FileChange { rel: RelPath::parse("notes.md"), kind: FileEventKind::Modify }];
    assert_eq!(
        commit_message(&one, "2026-01-01T00:00:00Z"),
        "vault: update notes.md @ 2026-01-01T00:00:00Z"
    );
    let two = vec![
        FileChange { rel: RelPath::parse("a.md"), kind: FileEventKind::Delete },
        FileChange { rel: RelPath::parse("b.md"), kind: FileEventKind::Delete },
    ];
    assert_eq!(commit_message(&two, "T"), "vault: delete 2 files @ T");
}

// ---- paths ----

#[test]
fn resolve_init_defaults_to_cwd_vault() {
    let paths = resolve_init(None, "/home/u/notes".to_string(), &none_present()).expect("resolve");
    assert_eq!(paths.vault_dir, "/home/u/notes/.vault");
    assert_eq!(paths.worktree, "/home/u/notes");
}

#[test]
fn resolve_init_rejects_existing_vault() {
    let err = resolve_init(
        Some("/home/u/notes/.vault".to_string()),
        "/elsewhere".to_string(),
        &presence(false, true, false, false),
    )
    .expect_err("should fail");
    assert!(matches!(err, VaultError::AlreadyInitialized { .. }));
}

#[test]
fn resolve_init_rejects_root_vault_path() {
    let err = resolve_init(Some("/".to_string()), "/x".to_string(), &none_present())
        .expect_err("no parent");
    assert!(matches!(err, VaultError::InvalidVaultPath { path } if path == "/"));
}

#[test]
fn resolve_vault_requires_a_marker() {
    let err = resolve_vault(None, "/w".to_string(), &none_present()).expect_err("absent");
    assert!(matches!(err, VaultError::VaultNotFound { start } if start == "/w"));
    let paths = resolve_vault(
        Some("/w/.vault".to_string()),
        "/other".to_string(),
        &presence(true, false, false, false),
    )
    .expect("found");
    assert_eq!(paths.worktree, "/w");
    assert_eq!(paths.vault_dir, "/w/.vault");
}

#[test]
fn is_initialized_detects_readme() {
    assert!(is_initialized(&presence(false, false, false, true)));
    assert!(!is_initialized(&none_present()));
}

#[test]
fn state_dir_honors_env_override() {
    assert_eq!(state_dir(Some("/tmp/state")).expect("state dir"), "/tmp/state");
    assert_eq!(registry_path(Some("/tmp/state")).expect("registry"), "/tmp/state/registry.toml");
    assert_eq!(daemon_log_path(Some("/tmp/state/")).expect("log"), "/tmp/state/daemon.log");
}

#[test]
fn discover_vault_finds_parent() {
    let chain = ancestors("/home/u/notes/docs/deep");
    assert_eq!(
        chain,
        strings(&["/home/u/notes/docs/deep", "/home/u/notes/docs", "/home/u/notes", "/home/u", "/home", "/"])
    );
    let found_at: Vec<bool> = chain.iter().map(|a| a == "/home/u/notes").collect();
    assert_eq!(discover_vault(&chain, &found_at), Some("/home/u/notes/.vault".to_string()));
    let nowhere = vec![false; chain.len()];
    assert_eq!(discover_vault(&chain, &nowhere), None);
}

#[test]
fn skip_service_reads_flag_values() {
    assert!(!skip_service(None));
    assert!(!skip_service(Some("")));
    assert!(!skip_service(Some("0")));
    assert!(!skip_service(Some("FaLsE")));
    assert!(skip_service(Some("1")));
    assert!(skip_service(Some("yes")));
}

// ---- vault state ----

#[test]
fn lone_readme_is_partial_not_ready() {
    assert_eq!(
        vault_state(&presence(false, false, false, true)),
        VaultState::Partial(vec![README_FILE])
    );
}

#[test]
fn absent_when_empty() {
    assert_eq!(vault_state(&none_present()), VaultState::Absent);
}

#[test]
fn ready_when_all_markers_present() {
    assert_eq!(vault_state(&presence(true, true, true, true)), VaultState::Ready);
    assert_eq!(
        vault_state(&presence(true, false, true, false)),
        VaultState::Partial(vec!["config.toml", ".git"])
    );
    assert_eq!(META_DB, "meta.db");
}

// ---- registry ----

#[test]
fn register_dedupes() {
    let mut registry = VaultRegistry::default();
    assert!(registry.register("/v".to_string(), "2026-01-01T00:00:00Z".to_string()));
    assert!(!registry.register("/v".to_string(), "2026-01-02T00:00:00Z".to_string()));
    assert_eq!(registry.vault.len(), 1);
    assert_eq!(registry.vault[0].registered_at, "2026-01-01T00:00:00Z");
    assert!(registry.vault[0].enabled);
}

#[test]
fn prune_stale_removes_missing_roots() {
    let mut registry = VaultRegistry::default();
    registry.vault.push(VaultEntry {
        root: "/gone".to_string(),
        registered_at: "t".to_string(),
        enabled: true,
    });
    let removed = registry.prune_stale(&vec![false]);
    assert_eq!(removed, strings(&["/gone"]));
    assert!(registry.vault.is_empty());
}

#[test]
fn prune_stale_keeps_present_roots() {
    let mut registry = VaultRegistry::default();
    registry.register("/here".to_string(), "t".to_string());
    let removed = registry.prune_stale(&vec![true]);
    assert!(removed.is_empty());
    assert_eq!(registry.vault.len(), 1);
}

#[test]
fn prune_partitions_in_order() {
    let mut registry = VaultRegistry::default();
    for root in ["/a", "/b", "/c", "/d"] {
        registry.register(root.to_string(), "t".to_string());
    }
    let removed = registry.prune_stale(&vec![true, false, true, false]);
    assert_eq!(removed, strings(&["/b", "/d"]));
    let kept: Vec<String> = registry.vault.iter().map(|e| e.root.clone()).collect();
    assert_eq!(kept, strings(&["/a", "/c"]));
}

#[test]
fn rejects_unsupported_version() {
    let registry = VaultRegistry { version: 99, vault: vec![] };
    let err = registry.validate_version().expect_err("version");
    assert!(matches!(err, VaultError::UnsupportedRegistryVersion { found: 99, expected: 1 }));
    assert!(VaultRegistry::default().validate_version().is_ok());
    assert_eq!(REGISTRY_VERSION, 1);
}

#[test]
fn enabled_roots_deepest_first() {
    let mut registry = VaultRegistry::default();
    registry.register("/a".to_string(), "t".to_string());
    registry.register("/a/b/c".to_string(), "t".to_string());
    registry.register("/x/y".to_string(), "t".to_string());
    registry.register("/z/w".to_string(), "t".to_string());
    registry.vault.push(VaultEntry {
        root: "/off/deeper/still/here".to_string(),
        registered_at: "t".to_string(),
        enabled: false,
    });
    assert_eq!(registry.enabled_roots(), strings(&["/a/b/c", "/x/y", "/z/w", "/a"]));
}

// ---- handlers ----

#[test]
fn reconcile_walk_silent_when_sets_match() {
    let disk = strings(&["a.md", "b.md"]);
    let indexed = strings(&["b.md", "a.md", "a.md"]);
    assert_eq!(reconcile_walk("/v", &disk, &indexed), None);
}

#[test]
fn reconcile_walk_logs_mismatch_for_untracked_file() {
    let line = reconcile_walk("/v", &strings(&["orphan.md"]), &vec![]).expect("mismatch");
    assert!(line.contains("1 file(s) mismatch"));
    assert!(line.contains("1 untracked on disk"));
    assert_eq!(
        line,
        "reconcile_walk /v: 1 file(s) mismatch (1 untracked on disk, 0 missing on disk)"
    );
}

#[test]
fn reconcile_walk_counts_both_directions() {
    let line = reconcile_walk("/v", &strings(&["a", "b", "c"]), &strings(&["c", "d"])).expect("mismatch");
    assert_eq!(
        line,
        "reconcile_walk /v: 3 file(s) mismatch (2 untracked on disk, 1 missing on disk)"
    );
    let kind = TaskKind::reconcile_walk_once("/w".to_string());
    assert_eq!(
        run(&kind, &vec![], &strings(&["gone.md"]), true, &None),
        Some("reconcile_walk /w: 1 file(s) mismatch (0 untracked on disk, 1 missing on disk)".to_string())
    );
}

#[test]
fn git_housekeeping_logs_when_repack_runs() {
    let record = RepackRecord {
        ran_at: "2026-08-01T00:00:00Z".to_string(),
        objects_packed: 3,
        loose_removed: 3,
        bytes_before: 900,
        bytes_after: 400,
    };
    let kind = TaskKind::git_housekeeping_once("/v".to_string());
    let line = run(&kind, &strings(&["ignored.md"]), &vec![], true, &Some(record.clone())).expect("handler");
    assert!(line.contains("git_housekeeping"));
    assert!(line.contains("repacked"));
    assert_eq!(
        line,
        "git_housekeeping /v: repacked 3 objects, removed 3 loose files, reclaimed 500 bytes"
    );
    assert_eq!(git_housekeeping("/v", true, &Some(record.clone())), Some(line));
    assert_eq!(run(&kind, &vec![], &vec![], false, &Some(record.clone())), None);
    assert_eq!(git_housekeeping("/v", false, &Some(record)), None);
    assert_eq!(git_housekeeping("/v", true, &None), None);
}

// ---- misc ----

#[test]
fn version_matches_cargo_toml() {
    assert_eq!(VERSION, "0.1.0");
}

#[test]
fn task_ids_round_trip() {
    assert_eq!(TaskId::new(42).as_u64(), 42);
}

#[test]
fn initialize_folds_env_into_no_service() {
    let (paths, options) =
        initialize(None, "/w".to_string(), &none_present(), false, Some("1")).expect("init");
    assert_eq!(paths.vault_dir, "/w/.vault");
    assert!(options.no_service);
    let (_, options) = initialize(None, "/w".to_string(), &none_present(), false, None).expect("init");
    assert!(!options.no_service);
    assert!(starts_daemon(options, None));
    assert!(!starts_daemon(options, Some("true")));
    assert!(!starts_daemon(InitOptions { no_service: true }, None));
    assert!(!InitOptions::default().no_service);
    let err = initialize(None, "/w".to_string(), &presence(true, true, true, true), false, None)
        .expect_err("exists");
    assert!(matches!(err, VaultError::AlreadyInitialized { path } if path == "/w/.vault"));
}

#[test]
fn add_ignore_is_idempotent() {
    let mut config = VaultConfig::defaults();
    let before = config.ignore.len();
    assert!(config.add_ignore("*.tmp"));
    assert!(!config.add_ignore("*.tmp"));
    assert_eq!(config.ignore.len(), before + 1);
    assert_eq!(config.ignore.last().map(String::as_str), Some("*.tmp"));
    assert!(!config.add_ignore(".vault/**"));
    assert_eq!(config.ignore.len(), before + 1);
}

#[test]
fn defaults_match_documented_values() {
    let config = VaultConfig::defaults();
    assert_eq!(config.watch_roots, strings(&["."]));
    assert_eq!(
        config.ignore,
        strings(&[".vault/**", ".git/**", "**/*.swp", "**/*~", "**/.#*", "**/#*#", "**/*.pdf", "**/*.zip"])
    );
    assert_eq!(config.watcher.debounce_ms, 2000);
    assert_eq!(config.watcher.max_file_bytes, 10 * 1024 * 1024);
    assert_eq!(config.gc.loose_object_limit, 6700);
    assert_eq!(config.gc.pack_limit, 50);
    assert_eq!(config.gc.max_age_duration(), 7 * 24 * 60 * 60);
}

#[test]
fn housekeeping_kinds_recur_hourly() {
    let kind = TaskKind::git_housekeeping("/v".to_string());
    assert_eq!(kind.name(), "git_housekeeping");
    assert_eq!(kind.interval(), Some(GIT_HOUSEKEEPING_INTERVAL_MS));
    assert_eq!(kind.vault_root().map(String::as_str), Some("/v"));
    assert_eq!(TaskKind::git_housekeeping_once("/v".to_string()).interval(), None);
}

#[test]
fn task_ids_are_their_numbers() {
    assert_eq!(TaskId::new(5), TaskId::new(5));
    assert_ne!(TaskId::new(5), TaskId::new(6));
}

#[test]
fn to_path_round_trips_through_from_rel() {
    for p in ["notes.md", "a/b/c.md", "a//b/./c", "./x/y", "dir/"] {
        let r = RelPath::from_rel(p).expect("rel");
        let back = RelPath::from_rel(&r.to_path()).expect("rel");
        assert_eq!(back, r);
    }
}

#[test]
fn state_dir_from_prefers_a_non_empty_override() {
    assert_eq!(state_dir_from(Some("/o"), Some("/d".to_string())), Ok("/o".to_string()));
    assert_eq!(state_dir_from(Some(""), Some("/d".to_string())), Ok("/d".to_string()));
    assert_eq!(state_dir_from(None, Some("/d".to_string())), Ok("/d".to_string()));
    let err = state_dir_from(None, None).expect_err("unresolved");
    assert!(matches!(
        err,
        VaultError::Io(IoFailure { kind: IoErrorKind::NotFound, ref message })
            if message == "could not resolve user data directory"
    ));
    assert_eq!(
        state_file_from(Some(""), Some("/home/u/.local/share/vault".to_string()), "registry.toml"),
        Ok("/home/u/.local/share/vault/registry.toml".to_string())
    );
    assert!(state_file_from(Some(""), None, "daemon.log").is_err());
}
