//! `vault init`: what it resolves and decides before touching the disk.

use vstd::prelude::*;

use crate::domain::vault::{present_markers, MarkerPresence};
use crate::error::VaultError;
use crate::paths::{opt_str_view, opt_view, resolve_init, resolved_dirs, skip_service, skip_service_spec, InitPaths};

verus! {

/// The recovery guide written to `.vault/README` by `vault init`.
pub const README: &'static str = "Vault storage (recovery guide)
=============================

This directory is managed by the vault CLI. You normally do not edit it.

Layout
------

  config.toml   Watch roots and ignore patterns
  .git/         Git object store (file content history)
  meta.db       SQLite index (paths, timestamps, commit SHAs)

Global registry
---------------

  vault init registers this directory in the user-wide registry.toml
  (see docs). A singleton background daemon watches all registered vaults.

Inspect without vault (optional)
--------------------------------

  git --git-dir=.vault/.git log --oneline
  sqlite3 .vault/meta.db \".schema\"

Vault does not invoke git or sqlite3 internally; the on-disk layout is standard.

Daily use
---------

  vault show PATH --at DATE
  vault restore PATH --at DATE
";

/// Options controlling post-init daemon startup.
#[derive(Debug, Clone, Copy, PartialEq, Eq, Structural)]
pub struct InitOptions {
    /// Skip service install and daemon start.
    pub no_service: bool,
}

impl Default for InitOptions {
    fn default() -> (res: Self)
        ensures
            !res.no_service,
    {
        InitOptions { no_service: false }
    }
}

/// Prepare `vault init` from CLI-style arguments: resolve the paths to initialize (refusing a
/// `.vault/` whose init markers, `presence`, are already there) and fold the
/// `VAULT_NO_SERVICE` value `no_service_env` into the `--no-service` flag.
pub fn initialize(
    vault_path: Option<String>,
    cwd: String,
    presence: &MarkerPresence,
    no_service: bool,
    no_service_env: Option<&str>,
) -> (res: Result<(InitPaths, InitOptions), VaultError>)
    ensures
        match resolved_dirs(opt_view(vault_path), cwd@) {
            None => res matches Err(VaultError::InvalidVaultPath { path }) && opt_view(vault_path)
                == Some(path@),
            Some((w, d)) => if present_markers(*presence).len() > 0 {
                res matches Err(VaultError::AlreadyInitialized { path }) && path@ == d
            } else {
                res matches Ok((p, o)) && p.worktree@ == w && p.vault_dir@ == d && o.no_service == (
                no_service || skip_service_spec(opt_str_view(no_service_env)))
            },
        },
{
    let paths = resolve_init(vault_path, cwd, presence)?;
    let options = InitOptions { no_service: no_service || skip_service(no_service_env) };
    Ok((paths, options))
}

/// Whether `vault init` ends by making sure the daemon runs: neither the options nor the
/// `VAULT_NO_SERVICE` value `no_service_env` skip the service.
pub fn starts_daemon(options: InitOptions, no_service_env: Option<&str>) -> (res: bool)
    ensures
        res == (!options.no_service && !skip_service_spec(opt_str_view(no_service_env))),
{
    !options.no_service && !skip_service(no_service_env)
}

} // verus!
