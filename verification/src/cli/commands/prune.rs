//! `vault prune` report.

use vstd::prelude::*;

use crate::text::{concat_spec, decimal, push_str, push_u64};

verus! {

/// The report of a prune that removed `removed`.
pub open spec fn prune_report_spec(removed: Seq<Seq<char>>) -> Seq<char> {
    if removed.len() == 0 {
        "No missing vaults to prune.\n"@
    } else {
        "Removed "@ + decimal(removed.len()) + " missing vault(s):\n"@ + concat_spec(
            removed.map_values(|r: Seq<char>| "  "@ + r + "\n"@),
        )
    }
}

/// Render the roots a prune removed.
pub fn render_report(removed: &[String]) -> (res: String)
    ensures
        res@ == prune_report_spec(removed@.map_values(|s: String| s@)),
{
    let ghost views = removed@.map_values(|s: String| s@);
    let ghost lines = views.map_values(|r: Seq<char>| "  "@ + r + "\n"@);
    if removed.len() == 0 {
        return String::from_str("No missing vaults to prune.\n");
    }
    let mut report = String::from_str("Removed ");
    push_u64(&mut report, removed.len() as u64);
    push_str(&mut report, " missing vault(s):\n");
    let ghost head = report@;
    let mut i: usize = 0;
    while i < removed.len()
        invariant
            i <= removed@.len(),
            views == removed@.map_values(|s: String| s@),
            lines == views.map_values(|r: Seq<char>| "  "@ + r + "\n"@),
            report@ == head + concat_spec(lines.take(i as int)),
        decreases removed@.len() - i,
    {
        push_str(&mut report, "  ");
        push_str(&mut report, removed[i].as_str());
        push_str(&mut report, "\n");
        assert(lines.take(i + 1).drop_last() =~= lines.take(i as int));
        i = i + 1;
    }
    assert(lines.take(removed@.len() as int) =~= lines);
    report
}

} // verus!
