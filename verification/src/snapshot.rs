//! Turning notified paths into snapshot changes, and the commit message of a snapshot.

use vstd::prelude::*;

use crate::config::VaultConfig;
use crate::domain::change::{FileChange, FileEventKind};
use crate::domain::message::{commit_prefix, snapshot_message, snapshot_message_spec};
use crate::domain::rel_path::{normalize_spec, RelPath};
use crate::error::VaultError;
use crate::ignore::{any_matches, exceeds_max_bytes, matcher_error, IgnoreMatcher};
use crate::paths::string_views;
use crate::text::push_str;

verus! {

/// The (path, kind) pairs of a sequence of changes.
pub open spec fn change_views(changes: Seq<FileChange>) -> Seq<(Seq<char>, FileEventKind)> {
    changes.map_values(|c: FileChange| (c.rel@, c.kind))
}

/// The changes the first `n` notified paths yield: an ignored path yields nothing; a regular
/// file (`Some(size)`) yields a modify unless it exceeds `max_file_bytes`; anything else
/// yields a delete.
pub open spec fn notified_changes(
    rels: Seq<Seq<char>>,
    sizes: Seq<Option<u64>>,
    patterns: Seq<Seq<char>>,
    max_file_bytes: u64,
    n: int,
) -> Seq<(Seq<char>, FileEventKind)>
    decreases n,
{
    if n <= 0 {
        seq![]
    } else {
        let prev = notified_changes(rels, sizes, patterns, max_file_bytes, n - 1);
        let rel = rels[n - 1];
        if any_matches(patterns, normalize_spec(rel)) {
            prev
        } else {
            match sizes[n - 1] {
                Some(size) => if size > max_file_bytes {
                    prev
                } else {
                    prev.push((rel, FileEventKind::Modify))
                },
                None => prev.push((rel, FileEventKind::Delete)),
            }
        }
    }
}

/// Classify notified relative paths into snapshot changes.
///
/// `file_sizes[i]` is the on-disk size of `rel_paths[i]` when it is a regular file, and
/// `None` otherwise. Ignored paths and files over the configured size cap are skipped.
/// Fails, as [`IgnoreMatcher::from_config`] does, when the ignore patterns do not compile.
pub fn changes_from_rel_paths(
    rel_paths: &Vec<RelPath>,
    file_sizes: &Vec<Option<u64>>,
    config: &VaultConfig,
) -> (res: Result<Vec<FileChange>, VaultError>)
    requires
        rel_paths.len() == file_sizes.len(),
    ensures
        res is Ok <==> matcher_error(string_views(config.ignore@)) is None,
        res matches Ok(changes) ==> change_views(changes@) == notified_changes(
            rel_paths@.map_values(|r: RelPath| r@),
            file_sizes@,
            string_views(config.ignore@),
            config.watcher.max_file_bytes,
            rel_paths.len() as int,
        ),
        res matches Err(e) ==> e matches VaultError::Io(f) && Some(f.message@) == matcher_error(
            string_views(config.ignore@),
        ),
{
    let matcher = match IgnoreMatcher::from_config(config) {
        Ok(m) => m,
        Err(e) => {
            return Err(e);
        },
    };
    let ghost rels = rel_paths@.map_values(|r: RelPath| r@);
    let ghost patterns = string_views(config.ignore@);
    let max = config.watcher.max_file_bytes;
    let mut changes: Vec<FileChange> = Vec::new();
    let mut i: usize = 0;
    while i < rel_paths.len()
        invariant
            i <= rel_paths.len(),
            rel_paths.len() == file_sizes.len(),
            rels == rel_paths@.map_values(|r: RelPath| r@),
            matcher@ == patterns,
            max == config.watcher.max_file_bytes,
            change_views(changes@) == notified_changes(rels, file_sizes@, patterns, max, i as int),
        decreases rel_paths.len() - i,
    {
        let rel = &rel_paths[i];
        if !matcher.is_ignored(rel.as_str()) {
            match file_sizes[i] {
                Some(size) => {
                    if !exceeds_max_bytes(Some(size), max) {
                        changes.push(FileChange { rel: rel.duplicate(), kind: FileEventKind::Modify });
                        assert(change_views(changes@) =~= notified_changes(
                            rels,
                            file_sizes@,
                            patterns,
                            max,
                            i as int,
                        ).push((rels[i as int], FileEventKind::Modify)));
                    }
                },
                None => {
                    changes.push(FileChange { rel: rel.duplicate(), kind: FileEventKind::Delete });
                    assert(change_views(changes@) =~= notified_changes(
                        rels,
                        file_sizes@,
                        patterns,
                        max,
                        i as int,
                    ).push((rels[i as int], FileEventKind::Delete)));
                },
            }
        }
        i = i + 1;
    }
    Ok(changes)
}

/// The git commit message of a snapshot of `changes` taken at `created_at`: the snapshot's
/// one-line summary behind the `vault: ` prefix, so that history rendering reads back the
/// summary the commit was written with.
pub fn commit_message(changes: &[FileChange], created_at: &str) -> (res: String)
    requires
        changes@.len() >= 1,
    ensures
        res@ == commit_prefix() + snapshot_message_spec(changes@, created_at@),
{
    let mut s = String::from_str("vault: ");
    let summary = snapshot_message(changes, created_at);
    push_str(&mut s, summary.as_str());
    proof {
        reveal_strlit("vault: ");
    }
    s
}

/// Notified paths become changes faithfully: every change names a notified path that no
/// ignore pattern matches, and is a delete exactly for a notification without a size (the
/// path is not a regular file) or a modify for a regular file within `max_file_bytes`. So an
/// ignored path yields no change whatever its state on disk, and an oversized file none.
pub proof fn lemma_notified_changes_are_faithful(
    rels: Seq<Seq<char>>,
    sizes: Seq<Option<u64>>,
    patterns: Seq<Seq<char>>,
    max_file_bytes: u64,
    n: int,
)
    requires
        0 <= n <= rels.len(),
        rels.len() == sizes.len(),
    ensures
        forall|k: int|
            0 <= k < notified_changes(rels, sizes, patterns, max_file_bytes, n).len() ==> !any_matches(
                patterns,
                normalize_spec(#[trigger] notified_changes(rels, sizes, patterns, max_file_bytes, n)[k].0),
            ),
        forall|k: int|
            0 <= k < notified_changes(rels, sizes, patterns, max_file_bytes, n).len() ==> exists|i: int|
                0 <= i < n && #[trigger] rels[i] == (#[trigger] notified_changes(
                    rels,
                    sizes,
                    patterns,
                    max_file_bytes,
                    n,
                )[k]).0 && match sizes[i] {
                    None => notified_changes(rels, sizes, patterns, max_file_bytes, n)[k].1
                        == FileEventKind::Delete,
                    Some(size) => size <= max_file_bytes && notified_changes(
                        rels,
                        sizes,
                        patterns,
                        max_file_bytes,
                        n,
                    )[k].1 == FileEventKind::Modify,
                },
    decreases n,
{
    if n > 0 {
        lemma_notified_changes_are_faithful(rels, sizes, patterns, max_file_bytes, n - 1);
        let prev = notified_changes(rels, sizes, patterns, max_file_bytes, n - 1);
        let cur = notified_changes(rels, sizes, patterns, max_file_bytes, n);
        assert forall|k: int| 0 <= k < cur.len() implies !any_matches(
            patterns,
            normalize_spec(#[trigger] cur[k].0),
        ) && exists|i: int|
            0 <= i < n && #[trigger] rels[i] == cur[k].0 && match sizes[i] {
                None => cur[k].1 == FileEventKind::Delete,
                Some(size) => size <= max_file_bytes && cur[k].1 == FileEventKind::Modify,
            } by {
            if k < prev.len() {
                assert(cur[k] == prev[k]);
                let i = choose|i: int|
                    0 <= i < n - 1 && #[trigger] rels[i] == prev[k].0 && match sizes[i] {
                        None => prev[k].1 == FileEventKind::Delete,
                        Some(size) => size <= max_file_bytes && prev[k].1 == FileEventKind::Modify,
                    };
                assert(rels[i] == cur[k].0);
            } else {
                assert(cur[k].0 == rels[n - 1]);
            }
        }
    }
}

} // verus!
