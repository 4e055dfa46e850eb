//! `vault diff`'s report.

use vstd::prelude::*;

use crate::cli::render::diff::{content_diff_spec, render_content_diff, DiffInput};
use crate::cli::render::{content_bytes, same_content_spec, DiffOutcome};
use crate::text::same_content;

verus! {

/// The `diff` report for `path`: a notice when both sides hold the same content, otherwise the
/// unified diff under the outcome's labels (git's binary notice when a side is not text).
pub open spec fn diff_command_report_spec(path: Seq<char>, outcome: DiffOutcome) -> Seq<char> {
    if same_content_spec(outcome.left, outcome.right) {
        "No differences.\n"@
    } else {
        content_diff_spec(
            path,
            outcome.left_label@,
            outcome.right_label@,
            content_bytes(outcome.left),
            content_bytes(outcome.right),
        )
    }
}

/// Render `vault diff`'s report for the file at `path`.
pub fn render_report(path: &str, outcome: &DiffOutcome) -> (res: String)
    ensures
        res@ == diff_command_report_spec(path@, *outcome),
{
    if same_content(&outcome.left, &outcome.right) {
        return String::from_str("No differences.\n");
    }
    let left: Option<&[u8]> = match &outcome.left {
        Some(v) => Some(v.as_slice()),
        None => None,
    };
    let right: Option<&[u8]> = match &outcome.right {
        Some(v) => Some(v.as_slice()),
        None => None,
    };
    render_content_diff(
        &DiffInput {
            path,
            left_label: outcome.left_label.as_str(),
            right_label: outcome.right_label.as_str(),
            left,
            right,
        },
    )
}

} // verus!
