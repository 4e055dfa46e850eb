//! Rendering shared across the history commands: unified diffs, diffstats, and the one-line
//! reports of `log`, `list`, `restore`, and `diff`.

pub mod diff;
pub mod diffstat;

use vstd::prelude::*;

use vstd::utf8::{decode_utf8, valid_utf8};

use crate::cli::render::diff::{
    content_diff_spec, render_content_diff, text_pair, unified_diff, unified_diff_of, DiffInput,
};
use crate::domain::change::event_kind_str;
use crate::domain::history::{FileVersionDiff, SnapshotEntry, TrackedFile};
use crate::domain::snapshot::CommitSha;
use crate::text::{concat_spec, decimal, push_str, push_u64, same_content};

verus! {

/// The bytes of an optional content, empty when absent.
pub open spec fn content_bytes(o: Option<Vec<u8>>) -> Seq<u8> {
    match o {
        Some(v) => v@,
        None => seq![],
    }
}

/// The unified diff of one file version, labelled `a/<path>` and `b/<path>`.
pub open spec fn one_diff_spec(file: FileVersionDiff) -> Seq<char> {
    content_diff_spec(
        file.path@,
        "a/"@ + file.path@,
        "b/"@ + file.path@,
        content_bytes(file.previous),
        content_bytes(file.current),
    )
}

/// The unified diffs of `files`, back to back.
pub open spec fn full_diffs_spec(files: Seq<FileVersionDiff>) -> Seq<char>
    decreases files.len(),
{
    if files.len() == 0 {
        seq![]
    } else {
        full_diffs_spec(files.drop_last()) + one_diff_spec(files.last())
    }
}

fn render_one_diff(file: &FileVersionDiff) -> (res: String)
    ensures
        res@ == one_diff_spec(*file),
{
    let path = file.path.as_str();
    let mut left_label = String::from_str("a/");
    push_str(&mut left_label, path);
    let mut right_label = String::from_str("b/");
    push_str(&mut right_label, path);
    let left: Option<&[u8]> = match &file.previous {
        Some(v) => Some(v.as_slice()),
        None => None,
    };
    let right: Option<&[u8]> = match &file.current {
        Some(v) => Some(v.as_slice()),
        None => None,
    };
    render_content_diff(
        &DiffInput {
            path,
            left_label: left_label.as_str(),
            right_label: right_label.as_str(),
            left,
            right,
        },
    )
}

/// Render every file's full unified diff back-to-back: `log --verbose`'s and `show`'s body.
pub fn render_full_diffs(files: &[FileVersionDiff]) -> (res: String)
    ensures
        res@ == full_diffs_spec(files@),
{
    let mut out = String::new();
    let mut i: usize = 0;
    while i < files.len()
        invariant
            i <= files@.len(),
            out@ == full_diffs_spec(files@.take(i as int)),
        decreases files@.len() - i,
    {
        let one = render_one_diff(&files[i]);
        push_str(&mut out, one.as_str());
        assert(files@.take(i + 1).drop_last() =~= files@.take(i as int));
        i = i + 1;
    }
    assert(files@.take(files@.len() as int) =~= files@);
    out
}

/// The outcome of comparing one file between two points in time.
#[derive(Debug, Clone, PartialEq, Eq)]
pub struct DiffOutcome {
    /// Content at the start point, or `None` when the file did not exist there.
    pub left: Option<Vec<u8>>,
    /// Content at the end point, or `None` when the file did not exist there.
    pub right: Option<Vec<u8>>,
    /// Label of the start side in the unified-diff header.
    pub left_label: String,
    /// Label of the end side in the unified-diff header.
    pub right_label: String,
}

/// The outcome of restoring one file.
#[derive(Debug, Clone, PartialEq, Eq)]
pub struct RestoreOutcome {
    /// The snapshot commit recording the restore, or `None` when the file already matched.
    pub commit_sha: Option<CommitSha>,
    /// Bytes written to the worktree.
    pub bytes_written: u64,
}

/// One `log` line: the commit, its timestamp, and the event on the queried path when there is
/// one.
pub open spec fn log_line_spec(entry: SnapshotEntry) -> Seq<char> {
    match entry.event {
        Some(kind) => entry.commit_sha.0@ + " "@ + entry.created_at@ + " "@ + event_kind_str(kind)
            + "\n"@,
        None => entry.commit_sha.0@ + " "@ + entry.created_at@ + "\n"@,
    }
}

/// The `log` report of `entries`: one line each, or a notice when there are none.
pub open spec fn log_report_spec(entries: Seq<SnapshotEntry>) -> Seq<char> {
    if entries.len() == 0 {
        "No snapshots yet.\n"@
    } else {
        concat_spec(entries.map_values(|e: SnapshotEntry| log_line_spec(e)))
    }
}

/// One `list` line: the path and its latest version timestamp.
pub open spec fn list_line_spec(file: TrackedFile) -> Seq<char> {
    file.path@ + "  "@ + file.last_modified@ + "\n"@
}

/// The `list` report of `files`: one line each, or a notice when there are none.
pub open spec fn list_report_spec(files: Seq<TrackedFile>) -> Seq<char> {
    if files.len() == 0 {
        "No tracked files.\n"@
    } else {
        concat_spec(files.map_values(|f: TrackedFile| list_line_spec(f)))
    }
}

/// The `restore` report for `path`.
pub open spec fn restore_report_spec(path: Seq<char>, dry_run: bool, outcome: RestoreOutcome) -> Seq<
    char,
> {
    if dry_run {
        "Would restore "@ + path + " (dry run)"@
    } else {
        match outcome.commit_sha {
            Some(sha) => "Restored "@ + path + " ("@ + decimal(outcome.bytes_written as nat)
                + " bytes, commit "@ + sha.0@ + ")"@,
            None => path + " already matches that version"@,
        }
    }
}

/// Whether two optional contents are the same (both absent, or equal bytes).
pub open spec fn same_content_spec(a: Option<Vec<u8>>, b: Option<Vec<u8>>) -> bool {
    match (a, b) {
        (Some(x), Some(y)) => x@ == y@,
        (None, None) => true,
        _ => false,
    }
}

/// The `diff` report of an outcome: a notice when both sides hold the same content, the
/// unified diff when both sides are text, and a binary notice otherwise.
pub open spec fn diff_report_spec(outcome: DiffOutcome) -> Seq<char> {
    let left = content_bytes(outcome.left);
    let right = content_bytes(outcome.right);
    if same_content_spec(outcome.left, outcome.right) {
        "No differences.\n"@
    } else if valid_utf8(left) && valid_utf8(right) {
        unified_diff_of(decode_utf8(left), decode_utf8(right), outcome.left_label@, outcome.right_label@)
    } else {
        "Binary files differ.\n"@
    }
}

fn log_line(entry: &SnapshotEntry) -> (res: String)
    ensures
        res@ == log_line_spec(*entry),
{
    let mut s = String::from_str(entry.commit_sha.as_str());
    push_str(&mut s, " ");
    push_str(&mut s, entry.created_at.as_str());
    match entry.event {
        Some(kind) => {
            push_str(&mut s, " ");
            push_str(&mut s, kind.as_str());
            push_str(&mut s, "\n");
        },
        None => {
            push_str(&mut s, "\n");
        },
    }
    s
}

/// Render `vault log`'s flat listing: one line per snapshot entry.
pub fn log_report(entries: &[SnapshotEntry]) -> (res: String)
    ensures
        res@ == log_report_spec(entries@),
{
    if entries.len() == 0 {
        return String::from_str("No snapshots yet.\n");
    }
    let ghost lines = entries@.map_values(|e: SnapshotEntry| log_line_spec(e));
    let mut out = String::new();
    let mut i: usize = 0;
    while i < entries.len()
        invariant
            i <= entries@.len(),
            lines == entries@.map_values(|e: SnapshotEntry| log_line_spec(e)),
            out@ == concat_spec(lines.take(i as int)),
        decreases entries@.len() - i,
    {
        let line = log_line(&entries[i]);
        push_str(&mut out, line.as_str());
        assert(lines.take(i + 1).drop_last() =~= lines.take(i as int));
        i = i + 1;
    }
    assert(lines.take(entries@.len() as int) =~= lines);
    out
}

fn list_line(file: &TrackedFile) -> (res: String)
    ensures
        res@ == list_line_spec(*file),
{
    let mut s = String::from_str(file.path.as_str());
    push_str(&mut s, "  ");
    push_str(&mut s, file.last_modified.as_str());
    push_str(&mut s, "\n");
    s
}

/// Render `vault list`'s report: one line per tracked file.
pub fn list_report(files: &[TrackedFile]) -> (res: String)
    ensures
        res@ == list_report_spec(files@),
{
    if files.len() == 0 {
        return String::from_str("No tracked files.\n");
    }
    let ghost lines = files@.map_values(|f: TrackedFile| list_line_spec(f));
    let mut out = String::new();
    let mut i: usize = 0;
    while i < files.len()
        invariant
            i <= files@.len(),
            lines == files@.map_values(|f: TrackedFile| list_line_spec(f)),
            out@ == concat_spec(lines.take(i as int)),
        decreases files@.len() - i,
    {
        let line = list_line(&files[i]);
        push_str(&mut out, line.as_str());
        assert(lines.take(i + 1).drop_last() =~= lines.take(i as int));
        i = i + 1;
    }
    assert(lines.take(files@.len() as int) =~= lines);
    out
}

/// Render `vault restore`'s one-line report for `path`.
pub fn restore_report(path: &str, dry_run: bool, outcome: &RestoreOutcome) -> (res: String)
    ensures
        res@ == restore_report_spec(path@, dry_run, *outcome),
{
    if dry_run {
        let mut s = String::from_str("Would restore ");
        push_str(&mut s, path);
        push_str(&mut s, " (dry run)");
        return s;
    }
    match &outcome.commit_sha {
        Some(sha) => {
            let mut s = String::from_str("Restored ");
            push_str(&mut s, path);
            push_str(&mut s, " (");
            push_u64(&mut s, outcome.bytes_written);
            push_str(&mut s, " bytes, commit ");
            push_str(&mut s, sha.as_str());
            push_str(&mut s, ")");
            s
        },
        None => {
            let mut s = String::from_str(path);
            push_str(&mut s, " already matches that version");
            s
        },
    }
}

/// Render `vault diff`'s report for an outcome.
pub fn diff_report(outcome: &DiffOutcome) -> (res: String)
    ensures
        res@ == diff_report_spec(*outcome),
{
    if same_content(&outcome.left, &outcome.right) {
        return String::from_str("No differences.\n");
    }
    let left: Option<&[u8]> = match &outcome.left {
        Some(v) => Some(v.as_slice()),
        None => None,
    };
    let right: Option<&[u8]> = match &outcome.right {
        Some(v) => Some(v.as_slice()),
        None => None,
    };
    match text_pair(left, right) {
        Some((left_text, right_text)) => unified_diff(
            left_text,
            right_text,
            outcome.left_label.as_str(),
            outcome.right_label.as_str(),
        ),
        None => String::from_str("Binary files differ.\n"),
    }
}

} // verus!
