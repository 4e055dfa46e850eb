//! `vault log` rendering: `git log --stat` shape by default, `git log -p` under `--verbose`.

use vstd::prelude::*;

use crate::cli::render::diffstat::{diffstat_spec, input_entries, input_entry, render_diffstat, DiffStatInput, StatEntry};
use crate::cli::render::{content_bytes, full_diffs_spec, render_full_diffs};
use crate::domain::history::{CommitReport, FileVersionDiff};
use crate::text::{join_spec, push_str};

verus! {

/// A file version as the plain values of a diffstat entry.
pub open spec fn file_entry(f: FileVersionDiff) -> StatEntry {
    (f.path@, content_bytes(f.previous), content_bytes(f.current))
}

/// The diffstat of `files`.
pub open spec fn diffstat_block_spec(files: Seq<FileVersionDiff>) -> Seq<char> {
    diffstat_spec(files.map_values(|f: FileVersionDiff| file_entry(f)))
}

/// One commit: its message line, then its full diffs (verbose) or its diffstat.
pub open spec fn commit_spec(report: CommitReport, verbose: bool) -> Seq<char> {
    report.message@ + "\n"@ + if verbose {
        full_diffs_spec(report.files@)
    } else {
        diffstat_block_spec(report.files@)
    }
}

/// Every commit rendered, newest first as given, separated by a blank line; or the empty
/// notice when there are none.
pub open spec fn log_report_spec(reports: Seq<CommitReport>, verbose: bool) -> Seq<char> {
    if reports.len() == 0 {
        "No snapshots yet.\n"@
    } else {
        join_spec(reports.map_values(|r: CommitReport| commit_spec(r, verbose)), "\n"@)
    }
}

fn render_diffstat_block(files: &[FileVersionDiff]) -> (res: String)
    ensures
        res@ == diffstat_block_spec(files@),
{
    let mut inputs: Vec<DiffStatInput> = Vec::new();
    let mut i: usize = 0;
    while i < files.len()
        invariant
            i <= files@.len(),
            input_entries(inputs@) == files@.take(i as int).map_values(
                |f: FileVersionDiff| file_entry(f),
            ),
        decreases files@.len() - i,
    {
        let f = &files[i];
        let previous: Option<&[u8]> = match &f.previous {
            Some(v) => Some(v.as_slice()),
            None => None,
        };
        let current: Option<&[u8]> = match &f.current {
            Some(v) => Some(v.as_slice()),
            None => None,
        };
        let ghost before = input_entries(inputs@);
        inputs.push(DiffStatInput { path: f.path.as_str(), previous, current });
        assert(input_entry(inputs@.last()) == file_entry(*f));
        assert(input_entries(inputs@) =~= before.push(file_entry(*f)));
        assert(input_entries(inputs@) =~= files@.take(i + 1).map_values(
            |f: FileVersionDiff| file_entry(f),
        ));
        i = i + 1;
    }
    assert(files@.take(files@.len() as int) =~= files@);
    render_diffstat(inputs.as_slice())
}

fn render_commit(report: &CommitReport, verbose: bool) -> (res: String)
    ensures
        res@ == commit_spec(*report, verbose),
{
    let body = if verbose {
        render_full_diffs(report.files.as_slice())
    } else {
        render_diffstat_block(report.files.as_slice())
    };
    let mut s = report.message.clone();
    push_str(&mut s, "\n");
    push_str(&mut s, body.as_str());
    s
}

/// Render every commit report, newest first, with a blank line between commits.
pub fn render_report(reports: &[CommitReport], verbose: bool) -> (res: String)
    ensures
        res@ == log_report_spec(reports@, verbose),
{
    if reports.len() == 0 {
        return String::from_str("No snapshots yet.\n");
    }
    let ghost parts = reports@.map_values(|r: CommitReport| commit_spec(r, verbose));
    let mut out = String::new();
    let mut i: usize = 0;
    while i < reports.len()
        invariant
            i <= reports@.len(),
            parts == reports@.map_values(|r: CommitReport| commit_spec(r, verbose)),
            out@ == join_spec(parts.take(i as int), "\n"@),
        decreases reports@.len() - i,
    {
        if i > 0 {
            push_str(&mut out, "\n");
        }
        let one = render_commit(&reports[i], verbose);
        push_str(&mut out, one.as_str());
        assert(parts.take(i + 1).drop_last() =~= parts.take(i as int));
        i = i + 1;
    }
    assert(parts.take(reports@.len() as int) =~= parts);
    out
}

} // verus!
