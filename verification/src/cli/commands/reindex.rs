//! `vault reindex` report.

use vstd::prelude::*;

use crate::text::{decimal, push_i64, push_str, push_u64, signed_decimal};

verus! {

/// Whether an existing, populated `meta.db` may be overwritten.
#[derive(Debug, Clone, Copy, PartialEq, Eq, Structural)]
pub enum Overwrite {
    /// Refuse to overwrite a populated index.
    Refuse,
    /// Overwrite it.
    Force,
}

/// What a reindex did (or, in a dry run, would do).
#[derive(Debug, Clone, PartialEq, Eq)]
pub struct ReindexOutcome {
    /// Commits replayed.
    pub commits: usize,
    /// Timestamps of the oldest and newest commit, when there is any.
    pub span: Option<(String, String)>,
    /// Commits whose timestamp came from the committer time rather than the message.
    pub lossy_timestamps: usize,
    /// Snapshot rows `meta.db` held before.
    pub existing_snapshot_count: i64,
    /// Whether nothing was written.
    pub dry_run: bool,
}

/// `--force` as an overwrite policy.
pub fn overwrite_from(force: bool) -> (res: Overwrite)
    ensures
        force ==> res == Overwrite::Force,
        !force ==> res == Overwrite::Refuse,
{
    if force {
        Overwrite::Force
    } else {
        Overwrite::Refuse
    }
}

/// The headline of a reindex report.
pub open spec fn headline_spec(vault_display: Seq<char>, o: ReindexOutcome) -> Seq<char> {
    (if o.dry_run {
        "Would reindex"@
    } else {
        "Reindexed"@
    }) + " meta.db at "@ + vault_display + match o.span {
        Some((oldest, newest)) => " ("@ + decimal(o.commits as nat) + " commit"@ + (if o.commits
            == 1 {
            ""@
        } else {
            "s"@
        }) + ", "@ + oldest@ + " to "@ + newest@ + ")\n"@,
        None => " (no commits \u{2014} empty history)\n"@,
    }
}

/// The full reindex report: the headline, the `--force` note of a dry run over a populated
/// index, and the count of commits whose timestamp was lossy.
pub open spec fn reindex_report_spec(vault_display: Seq<char>, o: ReindexOutcome) -> Seq<char> {
    headline_spec(vault_display, o) + (if o.dry_run && o.existing_snapshot_count > 0 {
        "meta.db already has "@ + signed_decimal(o.existing_snapshot_count as int)
            + " snapshot(s) \u{2014} pass --force to actually rebuild it\n"@
    } else {
        seq![]
    }) + (if o.lossy_timestamps > 0 {
        decimal(o.lossy_timestamps as nat)
            + " commit(s) had no vault-formatted timestamp in their message \u{2014} used .git's own committer time instead\n"@
    } else {
        seq![]
    })
}

/// Render a reindex outcome for the vault at `vault_display`.
pub fn render_report(vault_display: &str, outcome: &ReindexOutcome) -> (res: String)
    ensures
        res@ == reindex_report_spec(vault_display@, *outcome),
{
    let mut report = String::new();
    if outcome.dry_run {
        push_str(&mut report, "Would reindex");
    } else {
        push_str(&mut report, "Reindexed");
    }
    push_str(&mut report, " meta.db at ");
    push_str(&mut report, vault_display);
    match &outcome.span {
        Some((oldest, newest)) => {
            push_str(&mut report, " (");
            push_u64(&mut report, outcome.commits as u64);
            push_str(&mut report, " commit");
            if outcome.commits == 1 {
                push_str(&mut report, "");
            } else {
                push_str(&mut report, "s");
            }
            push_str(&mut report, ", ");
            push_str(&mut report, oldest.as_str());
            push_str(&mut report, " to ");
            push_str(&mut report, newest.as_str());
            push_str(&mut report, ")\n");
        },
        None => {
            push_str(&mut report, " (no commits \u{2014} empty history)\n");
        },
    }
    if outcome.dry_run && outcome.existing_snapshot_count > 0 {
        push_str(&mut report, "meta.db already has ");
        push_i64(&mut report, outcome.existing_snapshot_count);
        push_str(&mut report, " snapshot(s) \u{2014} pass --force to actually rebuild it\n");
    }
    if outcome.lossy_timestamps > 0 {
        push_u64(&mut report, outcome.lossy_timestamps as u64);
        push_str(
            &mut report,
            " commit(s) had no vault-formatted timestamp in their message \u{2014} used .git's own committer time instead\n",
        );
    }
    report
}

/// A real rebuild's report never asks for `--force`: when nothing was a dry run, the report does
/// not depend on how many snapshots `meta.db` held before, and without lossy timestamps it is
/// the headline alone.
pub proof fn lemma_rebuild_report_has_no_force_note(vault_display: Seq<char>, o: ReindexOutcome)
    requires
        !o.dry_run,
    ensures
        reindex_report_spec(vault_display, o) == reindex_report_spec(
            vault_display,
            ReindexOutcome { existing_snapshot_count: 0, ..o },
        ),
        o.lossy_timestamps == 0 ==> reindex_report_spec(vault_display, o) == headline_spec(
            vault_display,
            o,
        ),
{
    let z = ReindexOutcome { existing_snapshot_count: 0, ..o };
    assert(headline_spec(vault_display, z) == headline_spec(vault_display, o));
    assert(headline_spec(vault_display, o) + Seq::<char>::empty() =~= headline_spec(vault_display, o));
    assert(headline_spec(vault_display, o) + Seq::<char>::empty() + Seq::<char>::empty()
        =~= headline_spec(vault_display, o));
}

} // verus!
