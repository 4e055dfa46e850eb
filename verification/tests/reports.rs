use vault::cli::commands::diff as diff_cmd;
use vault::cli::commands::init as init_cmd;
use vault::cli::commands::init::{DaemonAction, InitOutcome};
use vault::cli::commands::show as show_cmd;
use vault::cli::render::{
    diff_report, list_report, log_report, restore_report, DiffOutcome, RestoreOutcome,
};
use vault::domain::change::FileEventKind;
use vault::domain::history::{CommitReport, SnapshotEntry, TrackedFile};
use vault::domain::rel_path::RelPath;
use vault::domain::snapshot::CommitSha;

fn entry(sha: &str, at: &str, event: Option<FileEventKind>) -> SnapshotEntry {
    SnapshotEntry {
        commit_sha: CommitSha(sha.to_string()),
        created_at: at.to_string(),
        event,
    }
}

#[test]
fn log_report_lists_entries() {
    assert_eq!(log_report(&[]), "No snapshots yet.\n");
    let entries = vec![
        entry("abc", "2026-01-01T00:00:00Z", Some(FileEventKind::Modify)),
        entry("def", "2026-01-02T00:00:00Z", None),
    ];
    assert_eq!(
        log_report(&entries),
        "abc 2026-01-01T00:00:00Z modify\ndef 2026-01-02T00:00:00Z\n"
    );
}

#[test]
fn list_report_lists_files() {
    assert_eq!(list_report(&[]), "No tracked files.\n");
    let files = vec![
        TrackedFile { path: RelPath::parse("a.md"), last_modified: "T1".to_string() },
        TrackedFile { path: RelPath::parse("d/b.md"), last_modified: "T2".to_string() },
    ];
    assert_eq!(list_report(&files), "a.md  T1\nd/b.md  T2\n");
}

#[test]
fn restore_report_variants() {
    let written = RestoreOutcome { commit_sha: Some(CommitSha("c0ffee".to_string())), bytes_written: 42 };
    assert_eq!(restore_report("notes.md", true, &written), "Would restore notes.md (dry run)");
    assert_eq!(
        restore_report("notes.md", false, &written),
        "Restored notes.md (42 bytes, commit c0ffee)"
    );
    let same = RestoreOutcome { commit_sha: None, bytes_written: 0 };
    assert_eq!(restore_report("notes.md", false, &same), "notes.md already matches that version");
}

fn outcome(left: Option<&[u8]>, right: Option<&[u8]>) -> DiffOutcome {
    DiffOutcome {
        left: left.map(|b| b.to_vec()),
        right: right.map(|b| b.to_vec()),
        left_label: "a.md@T1".to_string(),
        right_label: "a.md@T2".to_string(),
    }
}

#[test]
fn diff_report_variants() {
    assert_eq!(diff_report(&outcome(Some(b"x\n"), Some(b"x\n"))), "No differences.\n");
    assert_eq!(diff_report(&outcome(None, None)), "No differences.\n");
    assert_eq!(diff_report(&outcome(Some(&[0xff]), Some(b"x"))), "Binary files differ.\n");
    let text = diff_report(&outcome(Some(b"one\n"), Some(b"two\n")));
    assert!(text.starts_with("--- a.md@T1\n+++ b.md@T2\n") || text.starts_with("--- a.md@T1\n+++ a.md@T2\n"));
    assert!(text.contains("-one\n"));
    assert!(text.contains("+two\n"));
}

#[test]
fn diff_command_uses_git_binary_wording() {
    assert_eq!(diff_cmd::render_report("a.md", &outcome(Some(b"x"), Some(b"x"))), "No differences.\n");
    assert_eq!(
        diff_cmd::render_report("a.md", &outcome(Some(&[0xff, 0xfe]), None)),
        "Binary files a/a.md and b/a.md differ\n"
    );
    let text = diff_cmd::render_report("a.md", &outcome(None, Some(b"new\n")));
    assert!(text.contains("+new\n"));
}

#[test]
fn show_report_puts_message_first() {
    let report = CommitReport { message: "update a.md @ T".to_string(), files: vec![] };
    assert_eq!(show_cmd::render_report(&report), "update a.md @ T\n");
}

#[test]
fn init_report_lines() {
    assert_eq!(init_cmd::daemon_line(DaemonAction::AlreadyRunning, Some(9)), "Daemon already running (pid 9)");
    assert_eq!(init_cmd::daemon_line(DaemonAction::AlreadyRunning, None), "Daemon already running");
    assert_eq!(init_cmd::daemon_line(DaemonAction::Started, Some(1)), "Daemon was stopped \u{2014} restarted it");
    assert_eq!(init_cmd::render_report(&InitOutcome::Created, "/v/.vault", None), "Vault initialized at /v/.vault\n");
    assert_eq!(
        init_cmd::render_report(&InitOutcome::AlreadyReady(DaemonAction::SkippedNoService), "/v/.vault", None),
        "Vault already initialized at /v/.vault\nDaemon start skipped (--no-service)\n"
    );
    assert_eq!(
        init_cmd::render_report(
            &InitOutcome::Repaired { filled: vec!["config.toml", "README"], daemon: DaemonAction::Started },
            "/v/.vault",
            None
        ),
        "Vault repaired at /v/.vault (restored: config.toml, README)\nrestored config.toml with defaults \u{2014} re-apply any custom watch_roots/ignore\nDaemon was stopped \u{2014} restarted it\n"
    );
    assert_eq!(
        init_cmd::render_report(
            &InitOutcome::Repaired { filled: vec!["README"], daemon: DaemonAction::AlreadyRunning },
            "/v/.vault",
            Some(3)
        ),
        "Vault repaired at /v/.vault (restored: README)\nDaemon already running (pid 3)\n"
    );
}
