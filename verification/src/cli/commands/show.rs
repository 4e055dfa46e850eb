//! `vault show`'s report mode.

use vstd::prelude::*;

use crate::cli::render::{full_diffs_spec, render_full_diffs};
use crate::domain::history::CommitReport;
use crate::text::push_str;

verus! {

/// The `show` report of a resolved commit: its message line, then every file's full diff.
pub open spec fn show_report_spec(report: CommitReport) -> Seq<char> {
    report.message@ + "\n"@ + full_diffs_spec(report.files@)
}

/// Render `vault show`'s report for a resolved commit.
pub fn render_report(report: &CommitReport) -> (res: String)
    ensures
        res@ == show_report_spec(*report),
{
    let mut s = report.message.clone();
    push_str(&mut s, "\n");
    let body = render_full_diffs(report.files.as_slice());
    push_str(&mut s, body.as_str());
    s
}

} // verus!
