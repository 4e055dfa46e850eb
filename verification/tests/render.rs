use vault::cli::commands::log;
use vault::cli::commands::prune;
use vault::cli::commands::reindex::{self, ReindexOutcome};
use vault::cli::render::diff::{render_content_diff, DiffInput};
use vault::cli::render::diffstat::{render_diffstat, DiffStatInput};
use vault::cli::render::render_full_diffs;
use vault::domain::history::{CommitReport, FileVersionDiff};
use vault::domain::rel_path::RelPath;

#[test]
fn single_insertion_and_deletion() {
    let files = [DiffStatInput {
        path: "notes.md",
        previous: Some(&b"line1\n"[..]),
        current: Some(&b"line2\n"[..]),
    }];
    let out = render_diffstat(&files);
    assert_eq!(
        out,
        " notes.md | 2 +-\n1 file changed, 1 insertion(+), 1 deletion(-)\n"
    );
}

#[test]
fn insertion_only_omits_deletion_clause() {
    let files = [DiffStatInput {
        path: "notes.md",
        previous: None,
        current: Some(&b"line1\n"[..]),
    }];
    let out = render_diffstat(&files);
    assert_eq!(out, " notes.md | 1 +\n1 file changed, 1 insertion(+)\n");
}

#[test]
fn deletion_only_omits_insertion_clause() {
    let files = [DiffStatInput {
        path: "draft.md",
        previous: Some(&b"line1\n"[..]),
        current: None,
    }];
    let out = render_diffstat(&files);
    assert_eq!(out, " draft.md | 1 -\n1 file changed, 1 deletion(-)\n");
}

#[test]
fn multi_file_pluralizes_files_and_totals() {
    let files = [
        DiffStatInput {
            path: "a.md",
            previous: Some(&b"a\nb\n"[..]),
            current: Some(&b"a\nb\nc\n"[..]),
        },
        DiffStatInput {
            path: "b.md",
            previous: Some(&b"x\n"[..]),
            current: None,
        },
    ];
    let out = render_diffstat(&files);
    assert_eq!(
        out,
        " a.md | 1 +\n b.md | 1 -\n2 files changed, 1 insertion(+), 1 deletion(-)\n"
    );
}

#[test]
fn binary_file_shown_as_bin() {
    let files = [DiffStatInput {
        path: "image.png",
        previous: Some(&[0xff, 0xfe][..]),
        current: Some(&[0xff, 0xfd][..]),
    }];
    let out = render_diffstat(&files);
    assert_eq!(out, " image.png | Bin\n1 file changed\n");
}

#[test]
fn diffstat_pluralizes_many_lines() {
    let files = [DiffStatInput {
        path: "n.md",
        previous: Some(&b"a\nb\n"[..]),
        current: Some(&b"c\nd\ne\n"[..]),
    }];
    let out = render_diffstat(&files);
    assert_eq!(
        out,
        " n.md | 5 +++--\n1 file changed, 3 insertions(+), 2 deletions(-)\n"
    );
}

#[test]
fn renders_unified_diff_for_text() {
    let out = render_content_diff(&DiffInput {
        path: "notes.md",
        left_label: "left",
        right_label: "right",
        left: Some(&b"line1\n"[..]),
        right: Some(&b"line2\n"[..]),
    });
    assert!(out.contains("-line1"));
    assert!(out.contains("+line2"));
}

#[test]
fn binary_content_uses_git_literal_wording() {
    let out = render_content_diff(&DiffInput {
        path: "image.png",
        left_label: "left",
        right_label: "right",
        left: Some(&[0xff, 0xfe, 0x00][..]),
        right: Some(&[0xff, 0xfe, 0x01][..]),
    });
    assert_eq!(out, "Binary files a/image.png and b/image.png differ\n");
}

#[test]
fn concatenates_each_file_diff_with_no_separator() {
    let files = vec![
        FileVersionDiff {
            path: RelPath::parse("a.md"),
            previous: Some(b"x\n".to_vec()),
            current: Some(b"y\n".to_vec()),
        },
        FileVersionDiff {
            path: RelPath::parse("b.md"),
            previous: None,
            current: Some(b"z\n".to_vec()),
        },
    ];
    let out = render_full_diffs(&files);
    assert!(out.contains("a/a.md"));
    assert!(out.contains("a/b.md"));
    assert!(out.contains("-x"));
    assert!(out.contains("+z"));
}

fn report(message: &str, path: &str, previous: Option<&[u8]>, current: Option<&[u8]>) -> CommitReport {
    CommitReport {
        message: message.to_string(),
        files: vec![FileVersionDiff {
            path: RelPath::parse(path),
            previous: previous.map(<[u8]>::to_vec),
            current: current.map(<[u8]>::to_vec),
        }],
    }
}

#[test]
fn empty_reports_say_no_snapshots() {
    assert_eq!(log::render_report(&[], false), "No snapshots yet.\n");
}

#[test]
fn default_view_has_no_commit_sha_and_shows_diffstat() {
    let reports = vec![report(
        "update notes.md @ 2026-08-05T12:58:27+00:00",
        "notes.md",
        Some(b"line1\n"),
        Some(b"line2\n"),
    )];
    let out = log::render_report(&reports, false);
    assert!(out.starts_with("update notes.md @ 2026-08-05T12:58:27+00:00\n"));
    assert!(out.contains(" notes.md | 2 +-\n"));
    assert!(!out.contains("-line1"));
}

#[test]
fn verbose_view_shows_full_diff_hunks() {
    let reports = vec![report(
        "update notes.md @ 2026-08-05T12:58:27+00:00",
        "notes.md",
        Some(b"line1\n"),
        Some(b"line2\n"),
    )];
    let out = log::render_report(&reports, true);
    assert!(out.contains("-line1"));
    assert!(out.contains("+line2"));
}

#[test]
fn blank_line_separates_commits() {
    let reports = vec![
        report("update a.md @ t2", "a.md", Some(b"x\n"), Some(b"y\n")),
        report("update b.md @ t1", "b.md", None, Some(b"z\n")),
    ];
    let out = log::render_report(&reports, false);
    assert!(out.contains("insertion(+), 1 deletion(-)\n\nupdate b.md"));
}

#[test]
fn render_report_reports_no_missing_vaults() {
    assert_eq!(prune::render_report(&[]), "No missing vaults to prune.\n");
}

#[test]
fn render_report_lists_removed_roots() {
    let removed = vec!["/tmp/a".to_string(), "/tmp/b".to_string()];
    assert_eq!(
        prune::render_report(&removed),
        "Removed 2 missing vault(s):\n  /tmp/a\n  /tmp/b\n"
    );
}

fn outcome(
    commits: usize,
    span: Option<(&str, &str)>,
    lossy_timestamps: usize,
    existing_snapshot_count: i64,
    dry_run: bool,
) -> ReindexOutcome {
    ReindexOutcome {
        commits,
        span: span.map(|(o, n)| (o.to_string(), n.to_string())),
        lossy_timestamps,
        existing_snapshot_count,
        dry_run,
    }
}

#[test]
fn reports_a_real_rebuild() {
    let report = reindex::render_report(
        "/vault/.vault",
        &outcome(
            2,
            Some(("2026-01-01T00:00:00+00:00", "2026-01-02T00:00:00+00:00")),
            0,
            0,
            false,
        ),
    );
    assert_eq!(
        report,
        "Reindexed meta.db at /vault/.vault (2 commits, 2026-01-01T00:00:00+00:00 to 2026-01-02T00:00:00+00:00)\n"
    );
}

#[test]
fn reports_singular_commit() {
    let report = reindex::render_report(
        "/vault/.vault",
        &outcome(
            1,
            Some(("2026-01-01T00:00:00+00:00", "2026-01-01T00:00:00+00:00")),
            0,
            0,
            false,
        ),
    );
    assert!(report.starts_with("Reindexed meta.db at /vault/.vault (1 commit, "));
}

#[test]
fn reports_empty_history() {
    let report = reindex::render_report("/vault/.vault", &outcome(0, None, 0, 0, false));
    assert_eq!(
        report,
        "Reindexed meta.db at /vault/.vault (no commits \u{2014} empty history)\n"
    );
}

#[test]
fn dry_run_notes_force_is_needed() {
    let report = reindex::render_report("/vault/.vault", &outcome(3, Some(("a", "b")), 0, 3, true));
    assert!(report.starts_with("Would reindex meta.db at /vault/.vault (3 commits, a to b)\n"));
    assert!(report.contains("meta.db already has 3 snapshot(s) \u{2014} pass --force"));
}

#[test]
fn dry_run_without_existing_rows_has_no_force_note() {
    let report = reindex::render_report("/vault/.vault", &outcome(3, Some(("a", "b")), 0, 0, true));
    assert!(!report.contains("--force"));
}

#[test]
fn reports_lossy_timestamp_count() {
    let report = reindex::render_report("/vault/.vault", &outcome(2, Some(("a", "b")), 1, 0, false));
    assert!(report.contains("1 commit(s) had no vault-formatted timestamp"));
}

#[test]
fn force_flag_selects_overwrite() {
    assert_eq!(reindex::overwrite_from(true), reindex::Overwrite::Force);
    assert_eq!(reindex::overwrite_from(false), reindex::Overwrite::Refuse);
}

