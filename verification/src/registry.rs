//! Global vault registry (`registry.toml`): the vault roots the singleton daemon watches.

use vstd::prelude::*;

use crate::error::VaultError;
use crate::paths::{path_components, path_components_of};
use crate::text::str_eq;

verus! {

/// Supported `registry.toml` format version.
pub const REGISTRY_VERSION: u32 = 1;

/// One registered vault root.
#[derive(Debug, Clone, PartialEq, Eq)]
pub struct VaultEntry {
    /// Vault worktree root (parent of `.vault/`).
    pub root: String,
    /// When the vault was registered (RFC3339).
    pub registered_at: String,
    /// Whether the daemon should watch this vault.
    pub enabled: bool,
}

/// Whether an entry read without an `enabled` field is watched: it is.
pub fn default_enabled() -> (res: bool)
    ensures
        res,
{
    true
}

/// Global registry of vault roots watched by the singleton daemon.
#[derive(Debug, Clone, PartialEq, Eq)]
pub struct VaultRegistry {
    /// Registry format version.
    pub version: u32,
    /// Registered vaults.
    pub vault: Vec<VaultEntry>,
}

impl Default for VaultRegistry {
    fn default() -> (res: Self)
        ensures
            res.version == REGISTRY_VERSION,
            res.vault@.len() == 0,
    {
        VaultRegistry { version: REGISTRY_VERSION, vault: Vec::new() }
    }
}

/// The roots of `entries`, in order.
pub open spec fn roots_of(entries: Seq<VaultEntry>) -> Seq<Seq<char>> {
    entries.map_values(|e: VaultEntry| e.root@)
}

/// The entries of `entries` whose flag in `exists` is set, in order.
pub open spec fn kept_entries(entries: Seq<VaultEntry>, exists: Seq<bool>) -> Seq<VaultEntry>
    decreases entries.len(),
{
    if entries.len() == 0 {
        seq![]
    } else {
        let k = kept_entries(entries.drop_last(), exists.take(entries.len() - 1));
        if exists[entries.len() - 1] {
            k.push(entries.last())
        } else {
            k
        }
    }
}

/// The roots of the entries of `entries` whose flag in `exists` is clear, in order.
pub open spec fn removed_roots(entries: Seq<VaultEntry>, exists: Seq<bool>) -> Seq<Seq<char>>
    decreases entries.len(),
{
    if entries.len() == 0 {
        seq![]
    } else {
        let r = removed_roots(entries.drop_last(), exists.take(entries.len() - 1));
        if exists[entries.len() - 1] {
            r
        } else {
            r.push(entries.last().root@)
        }
    }
}

/// How many path components `root` has; deeper roots sort first.
pub open spec fn depth(root: Seq<char>) -> nat {
    path_components_of(root).len()
}

/// The first index at or after `from` in `s` whose root is shallower than `k`, or `s.len()`.
pub open spec fn insert_pos(s: Seq<Seq<char>>, k: nat, from: int) -> int
    decreases s.len() - from,
{
    if from >= s.len() {
        s.len() as int
    } else if depth(s[from]) < k {
        from
    } else {
        insert_pos(s, k, from + 1)
    }
}

/// `s` stably sorted by depth, deepest first: each root in turn is inserted after every
/// root at least as deep.
pub open spec fn sort_by_depth_desc(s: Seq<Seq<char>>) -> Seq<Seq<char>>
    decreases s.len(),
{
    if s.len() == 0 {
        s
    } else {
        let t = sort_by_depth_desc(s.drop_last());
        t.insert(insert_pos(t, depth(s.last()), 0), s.last())
    }
}

/// The roots of the enabled entries of `entries`, in registration order.
pub open spec fn enabled_root_views(entries: Seq<VaultEntry>) -> Seq<Seq<char>>
    decreases entries.len(),
{
    if entries.len() == 0 {
        seq![]
    } else {
        let r = enabled_root_views(entries.drop_last());
        if entries.last().enabled {
            r.push(entries.last().root@)
        } else {
            r
        }
    }
}

impl VaultRegistry {
    /// Register `root` (already canonicalized) at `registered_at` when not already present;
    /// returns whether it was added, in which case the registry needs saving.
    pub fn register(&mut self, root: String, registered_at: String) -> (added: bool)
        ensures
            added == !roots_of(old(self).vault@).contains(root@),
            added ==> final(self).vault@ == old(self).vault@.push(
                VaultEntry { root, registered_at, enabled: true },
            ),
            !added ==> final(self).vault@ == old(self).vault@,
            final(self).version == old(self).version,
    {
        let ghost roots = roots_of(self.vault@);
        let mut i: usize = 0;
        while i < self.vault.len()
            invariant
                i <= self.vault@.len(),
                roots == roots_of(self.vault@),
                forall|j: int| 0 <= j < i ==> roots[j] != root@,
            decreases self.vault@.len() - i,
        {
            if str_eq(self.vault[i].root.as_str(), root.as_str()) {
                assert(roots[i as int] == root@);
                return false;
            }
            i = i + 1;
        }
        self.vault.push(VaultEntry { root, registered_at, enabled: true });
        true
    }

    /// Remove vault entries whose roots no longer exist on disk, where `root_exists[i]` tells
    /// whether the root of entry `i` is a directory; returns the removed roots in order. The
    /// registry needs saving when any was removed.
    pub fn prune_stale(&mut self, root_exists: &Vec<bool>) -> (removed: Vec<String>)
        requires
            old(self).vault@.len() == root_exists@.len(),
        ensures
            final(self).vault@ == kept_entries(old(self).vault@, root_exists@),
            removed@.map_values(|s: String| s@) == removed_roots(old(self).vault@, root_exists@),
            final(self).version == old(self).version,
    {
        let ghost entries = self.vault@;
        let mut kept: Vec<VaultEntry> = Vec::new();
        let mut removed: Vec<String> = Vec::new();
        let mut i: usize = 0;
        while i < self.vault.len()
            invariant
                i <= self.vault@.len() == root_exists@.len(),
                self.vault@ == entries,
                kept@ == kept_entries(entries.take(i as int), root_exists@.take(i as int)),
                removed@.map_values(|s: String| s@) == removed_roots(
                    entries.take(i as int),
                    root_exists@.take(i as int),
                ),
            decreases self.vault@.len() - i,
        {
            let ghost prefix = entries.take(i + 1);
            let ghost flags = root_exists@.take(i + 1);
            assert(prefix.drop_last() =~= entries.take(i as int));
            assert(flags.take(i as int) =~= root_exists@.take(i as int));
            let e = &self.vault[i];
            if root_exists[i] {
                kept.push(VaultEntry {
                    root: e.root.clone(),
                    registered_at: e.registered_at.clone(),
                    enabled: e.enabled,
                });
            } else {
                let ghost before = removed@.map_values(|s: String| s@);
                removed.push(e.root.clone());
                assert(removed@.map_values(|s: String| s@) =~= before.push(e.root@));
            }
            i = i + 1;
        }
        assert(entries.take(i as int) =~= entries);
        assert(root_exists@.take(i as int) =~= root_exists@);
        self.vault = kept;
        removed
    }

    /// Return enabled vault roots, deepest path first (deepest match wins); roots of equal
    /// depth keep their registration order.
    pub fn enabled_roots(&self) -> (res: Vec<String>)
        ensures
            res@.map_values(|s: String| s@) == sort_by_depth_desc(enabled_root_views(self.vault@)),
    {
        let mut roots: Vec<String> = Vec::new();
        let mut depths: Vec<usize> = Vec::new();
        let mut i: usize = 0;
        while i < self.vault.len()
            invariant
                i <= self.vault@.len(),
                roots@.len() == depths@.len(),
                roots@.map_values(|s: String| s@) == sort_by_depth_desc(
                    enabled_root_views(self.vault@.take(i as int)),
                ),
                forall|j: int| 0 <= j < depths@.len() ==> #[trigger] depths@[j] == depth(roots@[j]@),
            decreases self.vault@.len() - i,
        {
            let ghost prefix = self.vault@.take(i + 1);
            assert(prefix.drop_last() =~= self.vault@.take(i as int));
            let e = &self.vault[i];
            if e.enabled {
                let k = path_components(e.root.as_str()).len();
                let ghost sorted = roots@.map_values(|s: String| s@);
                let mut pos: usize = 0;
                while pos < roots.len() && depths[pos] >= k
                    invariant
                        pos <= roots@.len() == depths@.len(),
                        sorted == roots@.map_values(|s: String| s@),
                        k == depth(e.root@),
                        forall|j: int| 0 <= j < depths@.len() ==> #[trigger] depths@[j] == depth(
                            roots@[j]@,
                        ),
                        insert_pos(sorted, k as nat, 0) == insert_pos(sorted, k as nat, pos as int),
                    decreases roots@.len() - pos,
                {
                    pos = pos + 1;
                }
                assert(sorted.len() == roots@.len());
                if pos < roots.len() {
                    assert(depth(sorted[pos as int]) < k);
                }
                assert(insert_pos(sorted, k as nat, pos as int) == pos);
                let ghost s = enabled_root_views(prefix);
                assert(s == enabled_root_views(self.vault@.take(i as int)).push(e.root@));
                assert(s.drop_last() =~= enabled_root_views(self.vault@.take(i as int)));
                assert(s.last() == e.root@);
                roots.insert(pos, e.root.clone());
                depths.insert(pos, k);
                assert(roots@.map_values(|s: String| s@) =~= sorted.insert(pos as int, e.root@));
            } else {
                assert(enabled_root_views(prefix) == enabled_root_views(self.vault@.take(i as int)));
            }
            i = i + 1;
        }
        assert(self.vault@.take(self.vault@.len() as int) =~= self.vault@);
        roots
    }

    /// Check this registry's format version.
    ///
    /// Returns [`VaultError::UnsupportedRegistryVersion`] when it is not [`REGISTRY_VERSION`].
    pub fn validate_version(&self) -> (res: Result<(), VaultError>)
        ensures
            self.version == REGISTRY_VERSION ==> res is Ok,
            self.version != REGISTRY_VERSION ==> res == Err::<(), VaultError>(
                VaultError::UnsupportedRegistryVersion {
                    found: self.version,
                    expected: REGISTRY_VERSION,
                },
            ),
    {
        if self.version != REGISTRY_VERSION {
            return Err(
                VaultError::UnsupportedRegistryVersion {
                    found: self.version,
                    expected: REGISTRY_VERSION,
                },
            );
        }
        Ok(())
    }
}

/// Registering is idempotent: once a root is registered, registering it again finds it
/// present (and so adds nothing).
pub proof fn lemma_register_dedupes(entries: Seq<VaultEntry>, entry: VaultEntry)
    ensures
        roots_of(entries.push(entry)).contains(entry.root@),
{
    assert(roots_of(entries.push(entry))[entries.len() as int] == entry.root@);
}

/// Pruning partitions the registry: every entry is either kept or has its root reported as
/// removed, and exactly as many entries are kept as there are existing roots.
pub proof fn lemma_prune_partitions(entries: Seq<VaultEntry>, exists: Seq<bool>)
    requires
        entries.len() == exists.len(),
    ensures
        kept_entries(entries, exists).len() + removed_roots(entries, exists).len() == entries.len(),
        kept_entries(entries, exists).len() == exists.filter(|b: bool| b).len(),
    decreases entries.len(),
{
    reveal(Seq::filter);
    if entries.len() > 0 {
        let n = entries.len() - 1;
        lemma_prune_partitions(entries.drop_last(), exists.take(n));
        assert(exists.drop_last() =~= exists.take(n));
    }
}

/// Inserting at `insert_pos` keeps a deepest-first sequence deepest-first.
proof fn lemma_insert_keeps_sorted(t: Seq<Seq<char>>, x: Seq<char>, from: int)
    requires
        0 <= from <= t.len(),
        forall|a: int, b: int| 0 <= a < b < t.len() ==> depth(#[trigger] t[a]) >= depth(#[trigger] t[b]),
        forall|a: int| 0 <= a < from ==> depth(#[trigger] t[a]) >= depth(x),
    ensures
        ({
            let p = insert_pos(t, depth(x), from);
            let u = t.insert(p, x);
            &&& from <= p <= t.len()
            &&& forall|a: int, b: int| 0 <= a < b < u.len() ==> depth(#[trigger] u[a]) >= depth(#[trigger] u[b])
        }),
    decreases t.len() - from,
{
    if from < t.len() && depth(t[from]) >= depth(x) {
        lemma_insert_keeps_sorted(t, x, from + 1);
    } else {
        let u = t.insert(from, x);
        assert forall|a: int, b: int| 0 <= a < b < u.len() implies depth(#[trigger] u[a]) >= depth(
            #[trigger] u[b],
        ) by {
            if b < from {
                assert(u[a] == t[a]);
                assert(u[b] == t[b]);
            } else if a < from && b == from {
            } else if a < from && b > from {
                assert(u[b] == t[b - 1]);
            } else if a == from {
                assert(u[b] == t[b - 1]);
                assert(depth(t[from]) < depth(x));
                if b - 1 > from {
                    assert(depth(t[from]) >= depth(t[b - 1]));
                }
            } else {
                assert(u[a] == t[a - 1]);
                assert(u[b] == t[b - 1]);
            }
        }
    }
}

/// `enabled_roots` lists the enabled roots deepest first, each exactly as often as it is
/// registered and enabled.
pub proof fn lemma_enabled_roots_sorted(s: Seq<Seq<char>>)
    ensures
        forall|a: int, b: int|
            0 <= a < b < sort_by_depth_desc(s).len() ==> depth(#[trigger] sort_by_depth_desc(s)[a])
                >= depth(#[trigger] sort_by_depth_desc(s)[b]),
        sort_by_depth_desc(s).to_multiset() == s.to_multiset(),
    decreases s.len(),
{
    broadcast use vstd::seq_lib::group_to_multiset_ensures;

    if s.len() > 0 {
        let t = sort_by_depth_desc(s.drop_last());
        lemma_enabled_roots_sorted(s.drop_last());
        lemma_insert_keeps_sorted(t, s.last(), 0);
        let p = insert_pos(t, depth(s.last()), 0);
        vstd::seq_lib::to_multiset_insert(t, p, s.last());
        assert(s =~= s.drop_last().push(s.last()));
    }
}

} // verus!
