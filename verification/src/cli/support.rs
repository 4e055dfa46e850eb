//! Shared CLI marshalling: global flags and turning a path argument into a vault path.

use vstd::prelude::*;

use crate::domain::rel_path::{normalize_spec, relative_to_spec, RelPath};
use crate::domain::vault::VaultLayout;
use crate::error::VaultError;
use crate::paths::{is_absolute, is_absolute_spec};

verus! {

/// Global flags shared by every subcommand.
#[derive(Debug, Clone, PartialEq, Eq)]
pub struct Global {
    /// Path to the `.vault/` directory (default: `./.vault` under the current directory).
    pub vault_path: Option<String>,
    /// Enable verbose output.
    pub verbose: bool,
}

/// Convert a raw CLI path argument into a validated [`RelPath`]: an absolute path is taken
/// relative to the vault's worktree, a relative one is normalized as it stands.
///
/// Returns [`VaultError::PathOutsideWorktree`] when an absolute path falls outside the
/// worktree.
pub fn rel_path_from_cli(layout: &VaultLayout, path: &str) -> (res: Result<RelPath, VaultError>)
    ensures
        is_absolute_spec(path@) ==> match relative_to_spec(layout.worktree@, path@) {
            Some(r) => res matches Ok(p) && p@ == r,
            None => res matches Err(VaultError::PathOutsideWorktree { path: bad }) && bad@ == path@,
        },
        !is_absolute_spec(path@) ==> (res matches Ok(p) && p@ == normalize_spec(path@)),
{
    if is_absolute(path) {
        RelPath::from_worktree(layout.worktree.as_str(), path)
    } else {
        RelPath::from_rel(path)
    }
}

} // verus!
