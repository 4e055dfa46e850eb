use vault::domain::change::{FileChange, FileEventKind, PathKind};
use vault::domain::message::{parse_created_at, parse_single_verb, snapshot_message, verb_for};
use vault::domain::queue::TaskKind;
use vault::domain::rel_path::RelPath;
use vault::error::VaultError;

const MAX: u64 = 100;

#[test]
fn missing_path_is_a_delete() {
    assert_eq!(PathKind::Missing.classify(MAX), Some(FileEventKind::Delete));
}

#[test]
fn directory_is_never_a_change() {
    assert_eq!(PathKind::Directory.classify(MAX), None);
}

#[test]
fn special_file_is_never_a_change() {
    assert_eq!(PathKind::Special.classify(MAX), None);
}

#[test]
fn regular_file_is_a_modify() {
    assert_eq!(
        PathKind::File { size_bytes: MAX }.classify(MAX),
        Some(FileEventKind::Modify)
    );
}

#[test]
fn oversized_file_is_skipped() {
    assert_eq!(
        PathKind::File {
            size_bytes: MAX + 1
        }
        .classify(MAX),
        None
    );
}

fn change(path: &str, kind: FileEventKind) -> FileChange {
    FileChange {
        rel: RelPath::parse(path),
        kind,
    }
}

#[test]
fn verb_for_all_kinds() {
    assert_eq!(verb_for(FileEventKind::Create), "update");
    assert_eq!(verb_for(FileEventKind::Modify), "update");
    assert_eq!(verb_for(FileEventKind::Delete), "delete");
    assert_eq!(verb_for(FileEventKind::Restore), "restore");
}

#[test]
fn single_change_reads_verb_path_timestamp() {
    let changes = vec![change("notes.md", FileEventKind::Modify)];
    assert_eq!(
        snapshot_message(&changes, "2026-08-05T12:00:00Z"),
        "update notes.md @ 2026-08-05T12:00:00Z"
    );
}

#[test]
fn uniform_kind_batch_keeps_verb() {
    let changes = vec![
        change("a.md", FileEventKind::Create),
        change("b.md", FileEventKind::Create),
    ];
    assert_eq!(
        snapshot_message(&changes, "2026-08-05T12:00:00Z"),
        "update 2 files @ 2026-08-05T12:00:00Z"
    );
}

#[test]
fn mixed_kind_batch_falls_back_to_change() {
    let changes = vec![
        change("a.md", FileEventKind::Modify),
        change("b.md", FileEventKind::Delete),
    ];
    assert_eq!(
        snapshot_message(&changes, "2026-08-05T12:00:00Z"),
        "change 2 files @ 2026-08-05T12:00:00Z"
    );
}

#[test]
fn parse_created_at_round_trips_through_snapshot_message() {
    let single = vec![change("notes.md", FileEventKind::Modify)];
    let uniform_batch = vec![
        change("a.md", FileEventKind::Create),
        change("b.md", FileEventKind::Create),
    ];
    let mixed_batch = vec![
        change("a.md", FileEventKind::Modify),
        change("b.md", FileEventKind::Delete),
    ];
    for changes in [single, uniform_batch, mixed_batch] {
        let message = snapshot_message(&changes, "2026-08-05T12:00:00Z");
        assert_eq!(parse_created_at(&message), Some("2026-08-05T12:00:00Z"));
    }
}

#[test]
fn parse_created_at_tolerates_the_vault_commit_prefix() {
    let changes = vec![change("notes.md", FileEventKind::Create)];
    let message = format!(
        "vault: {}",
        snapshot_message(&changes, "2026-08-05T12:00:00Z")
    );
    assert_eq!(parse_created_at(&message), Some("2026-08-05T12:00:00Z"));
}

#[test]
fn parse_created_at_returns_none_without_separator() {
    assert_eq!(parse_created_at("not a vault message"), None);
}

#[test]
fn parse_single_verb_recovers_verb_for_every_kind() {
    for kind in [
        FileEventKind::Create,
        FileEventKind::Modify,
        FileEventKind::Delete,
        FileEventKind::Restore,
    ] {
        let changes = vec![change("a.md", kind)];
        let message = format!(
            "vault: {}",
            snapshot_message(&changes, "2026-08-05T12:00:00Z")
        );
        assert_eq!(parse_single_verb(&message), Some(verb_for(kind)));
    }
}

#[test]
fn parse_single_verb_without_vault_prefix() {
    let changes = vec![change("a.md", FileEventKind::Restore)];
    let message = snapshot_message(&changes, "2026-08-05T12:00:00Z");
    assert_eq!(parse_single_verb(&message), Some("restore"));
}

#[test]
fn parse_single_verb_returns_none_for_empty_message() {
    assert_eq!(parse_single_verb(""), None);
}

#[test]
fn parse_created_at_takes_the_last_separator() {
    assert_eq!(parse_created_at("update a @ b.md @ 2026"), Some("2026"));
}

#[test]
fn parse_single_verb_skips_leading_whitespace() {
    assert_eq!(parse_single_verb("  \tupdate x"), Some("update"));
    assert_eq!(parse_single_verb("vault:   "), None);
    assert_eq!(parse_single_verb("vault:x y"), Some("vault:x"));
    assert_eq!(parse_single_verb("vault: \u{3000}"), None);
}

#[test]
fn batch_message_counts_many_files() {
    let changes: Vec<FileChange> = (0..12)
        .map(|i| change(&format!("f{i}.md"), FileEventKind::Delete))
        .collect();
    assert_eq!(
        snapshot_message(&changes, "t"),
        "delete 12 files @ t"
    );
}

#[test]
fn event_kind_strings() {
    assert_eq!(FileEventKind::Create.as_str(), "create");
    assert_eq!(FileEventKind::Modify.as_str(), "modify");
    assert_eq!(FileEventKind::Delete.as_str(), "delete");
    assert_eq!(FileEventKind::Restore.as_str(), "restore");
}

#[test]
fn reconcile_walk_has_default_interval() {
    let kind = TaskKind::reconcile_walk("/tmp/vault".to_string());
    assert_eq!(kind.interval(), Some(600 * 1000));
    assert_eq!(kind.name(), "reconcile_walk");
}

#[test]
fn reconcile_walk_once_has_no_interval() {
    let kind = TaskKind::reconcile_walk_once("/tmp/vault".to_string());
    assert_eq!(kind.interval(), None);
}

#[test]
fn custom_interval_and_root_are_kept() {
    let kind = TaskKind::reconcile_walk_with_interval("/vault".to_string(), 50);
    assert_eq!(kind.interval(), Some(50));
    assert_eq!(kind.vault_root(), Some(&"/vault".to_string()));
}

#[test]
fn normalizes_separators_to_forward_slash() {
    let rel = RelPath::from_rel("sub/b.md").expect("rel");
    assert_eq!(rel.as_str(), "sub/b.md");
}

#[test]
fn from_rel_drops_repeated_separators_and_dot_components() {
    let rel = RelPath::from_rel("sub//./b.md").expect("rel");
    assert_eq!(rel.as_str(), "sub/b.md");
}

#[test]
fn rejects_path_outside_worktree() {
    let worktree = "/tmp/vault";
    let abs = "/other/file.md";
    let err = RelPath::from_worktree(worktree, abs).expect_err("outside");
    assert!(matches!(err, VaultError::PathOutsideWorktree { .. }));
}

#[test]
fn from_worktree_strips_prefix() {
    let rel = RelPath::from_worktree("/tmp/vault-rel-test", "/tmp/vault-rel-test/docs/notes.md")
        .expect("rel");
    assert_eq!(rel.as_str(), "docs/notes.md");
}

#[test]
fn from_worktree_compares_whole_components() {
    let err = RelPath::from_worktree("/tmp/vault", "/tmp/vaulted/notes.md").expect_err("outside");
    assert!(matches!(err, VaultError::PathOutsideWorktree { .. }));
}

#[test]
fn to_path_rebuilds_the_platform_path() {
    assert_eq!(RelPath::parse("sub/b.md").to_path(), "sub/b.md");
    assert_eq!(RelPath::parse("a//b").to_path(), "a/b");
}
