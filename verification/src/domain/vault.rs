//! Vault layout and initialization state.

use vstd::prelude::*;

use crate::paths::{join_spec, path_join, CONFIG_FILE, GIT_DIR, META_DB, README_FILE, VAULT_DIR};

verus! {

/// Resolved paths for a vault worktree.
#[derive(Debug, Clone, PartialEq, Eq)]
pub struct VaultLayout {
    /// Vault root (parent of `.vault/`).
    pub worktree: String,
    /// `.vault/` directory path.
    pub vault_dir: String,
}

impl VaultLayout {
    /// Path to `.vault/config.toml`.
    pub fn config_path(&self) -> (res: String)
        ensures
            res@ == join_spec(self.vault_dir@, CONFIG_FILE@),
    {
        path_join(self.vault_dir.as_str(), CONFIG_FILE)
    }

    /// Path to `.vault/meta.db`.
    pub fn meta_db_path(&self) -> (res: String)
        ensures
            res@ == join_spec(self.vault_dir@, META_DB@),
    {
        path_join(self.vault_dir.as_str(), META_DB)
    }

    /// Path to `.vault/.git/`.
    pub fn git_dir_path(&self) -> (res: String)
        ensures
            res@ == join_spec(self.vault_dir@, GIT_DIR@),
    {
        path_join(self.vault_dir.as_str(), GIT_DIR)
    }

    /// Path to `.vault/README`.
    pub fn readme_path(&self) -> (res: String)
        ensures
            res@ == join_spec(self.vault_dir@, README_FILE@),
    {
        path_join(self.vault_dir.as_str(), README_FILE)
    }

    /// Build layout from worktree (`.vault/` is `worktree/.vault`).
    pub fn from_worktree(worktree: String) -> (res: Self)
        ensures
            res.worktree == worktree,
            res.vault_dir@ == join_spec(worktree@, VAULT_DIR@),
    {
        let vault_dir = path_join(worktree.as_str(), VAULT_DIR);
        VaultLayout { worktree, vault_dir }
    }

    /// Build layout when `.vault/` path is known.
    pub fn from_vault_dir(vault_dir: String, worktree: String) -> (res: Self)
        ensures
            res.worktree == worktree,
            res.vault_dir == vault_dir,
    {
        VaultLayout { worktree, vault_dir }
    }
}

/// Which of the four init markers exist inside a `.vault/` directory.
#[derive(Debug, Clone, Copy, PartialEq, Eq, Structural)]
pub struct MarkerPresence {
    /// `config.toml` exists.
    pub config_file: bool,
    /// `meta.db` exists.
    pub meta_db: bool,
    /// `.git` exists.
    pub git_dir: bool,
    /// `README` exists.
    pub readme: bool,
}

/// The names of the present markers, in the order config, meta.db, .git, README.
pub open spec fn present_markers(p: MarkerPresence) -> Seq<Seq<char>> {
    let a: Seq<Seq<char>> = if p.config_file { seq![CONFIG_FILE@] } else { seq![] };
    let b = if p.meta_db { a.push(META_DB@) } else { a };
    let c = if p.git_dir { b.push(GIT_DIR@) } else { b };
    if p.readme { c.push(README_FILE@) } else { c }
}

/// Initialization state of a `.vault/` directory.
#[derive(Debug, Clone, PartialEq, Eq)]
pub enum VaultState {
    /// No vault artifacts present.
    Absent,
    /// Some but not all init markers exist; the present ones are listed.
    Partial(Vec<&'static str>),
    /// All init markers present.
    Ready,
}

/// The views of a sequence of string slices.
pub open spec fn str_views(v: Seq<&'static str>) -> Seq<Seq<char>> {
    v.map_values(|s: &'static str| s@)
}

/// Return the initialization state of a `.vault/` directory whose markers are `presence`.
pub fn vault_state(presence: &MarkerPresence) -> (res: VaultState)
    ensures
        res is Absent <==> present_markers(*presence).len() == 0,
        res is Ready <==> present_markers(*presence).len() == 4,
        res matches VaultState::Partial(v) ==> str_views(v@) == present_markers(*presence),
{
    let mut present: Vec<&'static str> = Vec::new();
    if presence.config_file {
        present.push(CONFIG_FILE);
    }
    if presence.meta_db {
        present.push(META_DB);
    }
    if presence.git_dir {
        present.push(GIT_DIR);
    }
    if presence.readme {
        present.push(README_FILE);
    }
    assert(str_views(present@) =~= present_markers(*presence));
    if present.len() == 0 {
        VaultState::Absent
    } else if present.len() == 4 {
        VaultState::Ready
    } else {
        VaultState::Partial(present)
    }
}

} // verus!
