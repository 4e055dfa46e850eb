//! Task handlers for the background work queue: the decisions they take and the log lines
//! they write, from what the walk, the index and the housekeeping report.

use vstd::prelude::*;

use crate::domain::queue::TaskKind;
use crate::text::{contains_str, decimal, push_str, push_u64, str_set};

verus! {

broadcast use vstd::seq_lib::group_seq_properties;

/// The outcome of one git repack, as recorded by housekeeping.
#[derive(Debug, Clone, PartialEq, Eq)]
pub struct RepackRecord {
    /// When the repack ran (RFC3339).
    pub ran_at: String,
    /// Objects written into the new pack.
    pub objects_packed: u64,
    /// Loose object files removed.
    pub loose_removed: u64,
    /// Object store size before the repack, in bytes.
    pub bytes_before: u64,
    /// Object store size after the repack, in bytes.
    pub bytes_after: u64,
}

/// `a - b`, or 0 when `b` exceeds `a` (`u64::saturating_sub`).
pub open spec fn saturating_sub_spec(a: u64, b: u64) -> nat {
    if a > b {
        (a - b) as nat
    } else {
        0
    }
}

/// The `(mismatch, untracked on disk, missing on disk)` counts of two path collections: paths
/// on disk but not tracked, paths tracked but not on disk, and their sum (each path counted
/// once however often it occurs).
pub open spec fn mismatch_counts_spec(disk: Seq<String>, indexed: Seq<String>) -> (nat, nat, nat) {
    let untracked = str_set(disk).difference(str_set(indexed)).len();
    let missing = str_set(indexed).difference(str_set(disk)).len();
    (untracked + missing, untracked, missing)
}

/// The number of distinct paths of `a` that `b` does not hold.
fn count_not_in(a: &Vec<String>, b: &Vec<String>) -> (res: usize)
    ensures
        res == str_set(a@).difference(str_set(b@)).len(),
{
    let ghost av = a@.map_values(|p: String| p@);
    let ghost bv = b@.map_values(|p: String| p@);
    let mut seen: Vec<String> = Vec::new();
    let mut i: usize = 0;
    while i < a.len()
        invariant
            i <= a@.len(),
            av == a@.map_values(|p: String| p@),
            bv == b@.map_values(|p: String| p@),
            seen@.map_values(|p: String| p@).no_duplicates(),
            seen@.map_values(|p: String| p@).to_set() == av.take(i as int).to_set().difference(
                bv.to_set(),
            ),
        decreases a@.len() - i,
    {
        let ghost sv = seen@.map_values(|p: String| p@);
        let x = a[i].as_str();
        assert(av.take(i + 1) =~= av.take(i as int).push(x@));
        let in_b = contains_str(b, x);
        let in_seen = contains_str(&seen, x);
        if !in_b && !in_seen {
            seen.push(String::from_str(x));
            assert(seen@.map_values(|p: String| p@) =~= sv.push(x@));
            assert(sv.push(x@).to_set() =~= sv.to_set().insert(x@));
            assert(av.take(i + 1).to_set() =~= av.take(i as int).to_set().insert(x@));
            assert(av.take(i + 1).to_set().difference(bv.to_set()) =~= av.take(
                i as int,
            ).to_set().difference(bv.to_set()).insert(x@));
        } else {
            proof {
                assert(av.take(i + 1).to_set() =~= av.take(i as int).to_set().insert(x@));
                if !in_b {
                    assert(sv.to_set().contains(x@));
                }
                assert(av.take(i + 1).to_set().difference(bv.to_set()) =~= av.take(
                    i as int,
                ).to_set().difference(bv.to_set()));
            }
        }
        i = i + 1;
    }
    assert(av.take(a@.len() as int) =~= av);
    proof {
        seen@.map_values(|p: String| p@).unique_seq_to_set();
    }
    seen.len()
}

/// Count the paths on disk that are not tracked and the tracked paths missing on disk.
fn mismatch_counts(disk_paths: &Vec<String>, tracked_paths: &Vec<String>) -> (res: (
    usize,
    usize,
    usize,
))
    requires
        disk_paths@.len() + tracked_paths@.len() <= usize::MAX,
    ensures
        (res.0 as nat, res.1 as nat, res.2 as nat) == mismatch_counts_spec(disk_paths@, tracked_paths@),
{
    let untracked_on_disk = count_not_in(disk_paths, tracked_paths);
    let missing_on_disk = count_not_in(tracked_paths, disk_paths);
    proof {
        lemma_difference_len_bound(disk_paths@, tracked_paths@);
        lemma_difference_len_bound(tracked_paths@, disk_paths@);
    }
    (untracked_on_disk + missing_on_disk, untracked_on_disk, missing_on_disk)
}

proof fn lemma_difference_len_bound(a: Seq<String>, b: Seq<String>)
    ensures
        str_set(a).difference(str_set(b)).len() <= a.len(),
{
    let av = a.map_values(|p: String| p@);
    av.lemma_cardinality_of_set();
    vstd::set_lib::lemma_len_subset(str_set(a).difference(str_set(b)), str_set(a));
}

/// The log line of a reconciliation walk that found mismatches.
pub open spec fn mismatch_line(vault_root: Seq<char>, counts: (nat, nat, nat)) -> Seq<char> {
    "reconcile_walk "@ + vault_root + ": "@ + decimal(counts.0) + " file(s) mismatch ("@
        + decimal(counts.1) + " untracked on disk, "@ + decimal(counts.2) + " missing on disk)"@
}

/// Decide what a reconciliation walk of `vault_root` logs, given the paths the walk found
/// on disk and the paths the index tracks: nothing when both hold the same set of paths,
/// otherwise one line with the mismatch counts.
pub fn reconcile_walk(vault_root: &str, disk_paths: &Vec<String>, tracked_paths: &Vec<String>) -> (res:
    Option<String>)
    requires
        disk_paths@.len() + tracked_paths@.len() <= usize::MAX,
    ensures
        res is None <==> str_set(disk_paths@) == str_set(tracked_paths@),
        res matches Some(line) ==> line@ == mismatch_line(
            vault_root@,
            mismatch_counts_spec(disk_paths@, tracked_paths@),
        ),
{
    let (mismatch_count, untracked_on_disk, missing_on_disk) = mismatch_counts(
        disk_paths,
        tracked_paths,
    );
    proof {
        lemma_same_sets_iff_no_difference(disk_paths@, tracked_paths@);
    }
    if mismatch_count == 0 {
        return None;
    }
    Some(log_mismatch(vault_root, mismatch_count, untracked_on_disk, missing_on_disk))
}

proof fn lemma_same_sets_iff_no_difference(a: Seq<String>, b: Seq<String>)
    ensures
        (str_set(a) == str_set(b)) <==> (str_set(a).difference(str_set(b)).len() == 0 && str_set(
            b,
        ).difference(str_set(a)).len() == 0),
{
    let sa = str_set(a);
    let sb = str_set(b);
    let av = a.map_values(|p: String| p@);
    let bv = b.map_values(|p: String| p@);
    vstd::seq_lib::seq_to_set_is_finite(av);
    vstd::seq_lib::seq_to_set_is_finite(bv);
    if sa.difference(sb).len() == 0 && sb.difference(sa).len() == 0 {
        sa.difference(sb).lemma_len0_is_empty();
        sb.difference(sa).lemma_len0_is_empty();
        assert forall|x: Seq<char>| sa.contains(x) implies sb.contains(x) by {
            assert(!sa.difference(sb).contains(x));
        }
        assert forall|x: Seq<char>| sb.contains(x) implies sa.contains(x) by {
            assert(!sb.difference(sa).contains(x));
        }
        assert(sa =~= sb);
    }
    if sa == sb {
        assert(sa.difference(sb) =~= Set::<Seq<char>>::empty());
    }
}

fn log_mismatch(vault_root: &str, mismatch_count: usize, untracked_on_disk: usize, missing_on_disk: usize) -> (res:
    String)
    ensures
        res@ == mismatch_line(
            vault_root@,
            (mismatch_count as nat, untracked_on_disk as nat, missing_on_disk as nat),
        ),
{
    let mut s = String::from_str("reconcile_walk ");
    push_str(&mut s, vault_root);
    push_str(&mut s, ": ");
    push_u64(&mut s, mismatch_count as u64);
    push_str(&mut s, " file(s) mismatch (");
    push_u64(&mut s, untracked_on_disk as u64);
    push_str(&mut s, " untracked on disk, ");
    push_u64(&mut s, missing_on_disk as u64);
    push_str(&mut s, " missing on disk)");
    s
}

/// The log line of a repack of `vault_root`.
pub open spec fn repack_line(vault_root: Seq<char>, record: RepackRecord) -> Seq<char> {
    "git_housekeeping "@ + vault_root + ": repacked "@ + decimal(record.objects_packed as nat)
        + " objects, removed "@ + decimal(record.loose_removed as nat) + " loose files, reclaimed "@
        + decimal(saturating_sub_spec(record.bytes_before, record.bytes_after)) + " bytes"@
}

fn log_repack(vault_root: &str, record: &RepackRecord) -> (res: String)
    ensures
        res@ == repack_line(vault_root@, *record),
{
    let reclaimed: u64 = if record.bytes_before > record.bytes_after {
        record.bytes_before - record.bytes_after
    } else {
        0
    };
    let mut s = String::from_str("git_housekeeping ");
    push_str(&mut s, vault_root);
    push_str(&mut s, ": repacked ");
    push_u64(&mut s, record.objects_packed);
    push_str(&mut s, " objects, removed ");
    push_u64(&mut s, record.loose_removed);
    push_str(&mut s, " loose files, reclaimed ");
    push_u64(&mut s, reclaimed);
    push_str(&mut s, " bytes");
    s
}

/// Decide what a housekeeping run of `vault_root` logs: one line when a repack ran and left a
/// record, nothing otherwise.
pub fn git_housekeeping(vault_root: &str, repack_ran: bool, last_repack: &Option<RepackRecord>) -> (res:
    Option<String>)
    ensures
        !repack_ran ==> res is None,
        repack_ran && last_repack is None ==> res is None,
        repack_ran ==> (last_repack matches Some(r) ==> (res matches Some(line) && line@
            == repack_line(vault_root@, *r))),
{
    if !repack_ran {
        return None;
    }
    match last_repack {
        Some(record) => Some(log_repack(vault_root, record)),
        None => None,
    }
}

/// What a reconcile walk of `vault_root` logs: nothing when the disk and the index hold the same
/// paths, the mismatch line otherwise.
pub open spec fn reconcile_line_spec(vault_root: Seq<char>, disk: Seq<String>, indexed: Seq<String>) -> Option<
    Seq<char>,
> {
    if str_set(disk) == str_set(indexed) {
        None
    } else {
        Some(mismatch_line(vault_root, mismatch_counts_spec(disk, indexed)))
    }
}

/// What a housekeeping run of `vault_root` logs: the repack line when a repack ran and left a
/// record, nothing otherwise.
pub open spec fn housekeeping_line_spec(
    vault_root: Seq<char>,
    repack_ran: bool,
    last_repack: Option<RepackRecord>,
) -> Option<Seq<char>> {
    if repack_ran {
        match last_repack {
            Some(r) => Some(repack_line(vault_root, r)),
            None => None,
        }
    } else {
        None
    }
}

/// The view of an optional log line.
pub open spec fn line_view(line: Option<String>) -> Option<Seq<char>> {
    match line {
        Some(l) => Some(l@),
        None => None,
    }
}

/// Dispatch `kind` to its handler, given what the work reported: a reconcile walk compares the
/// paths the walk found on disk with the paths the index tracks; a housekeeping run reports
/// whether a repack ran and the last repack's record. The kind's interval plays no part.
pub fn run(
    kind: &TaskKind,
    disk_paths: &Vec<String>,
    tracked_paths: &Vec<String>,
    repack_ran: bool,
    last_repack: &Option<RepackRecord>,
) -> (res: Option<String>)
    requires
        kind is ReconcileWalk ==> disk_paths@.len() + tracked_paths@.len() <= usize::MAX,
    ensures
        match *kind {
            TaskKind::ReconcileWalk { vault_root, .. } => line_view(res) == reconcile_line_spec(
                vault_root@,
                disk_paths@,
                tracked_paths@,
            ),
            TaskKind::GitHousekeeping { vault_root, .. } => line_view(res) == housekeeping_line_spec(
                vault_root@,
                repack_ran,
                *last_repack,
            ),
        },
{
    match kind {
        TaskKind::ReconcileWalk { vault_root, .. } => reconcile_walk(
            vault_root.as_str(),
            disk_paths,
            tracked_paths,
        ),
        TaskKind::GitHousekeeping { vault_root, .. } => git_housekeeping(
            vault_root.as_str(),
            repack_ran,
            last_repack,
        ),
    }
}

} // verus!
