//! Path resolution for vault initialization and discovery.
//!
//! Paths are held as UTF-8 strings with `/` separators.

use vstd::prelude::*;

use crate::domain::vault::{present_markers, MarkerPresence};
use crate::error::{IoErrorKind, IoFailure, VaultError};
use crate::text::{chars_of, push_str, split_spec};

verus! {

/// Default `.vault/` directory name relative to the worktree.
pub const VAULT_DIR: &'static str = ".vault";

/// Config filename inside `.vault/`.
pub const CONFIG_FILE: &'static str = "config.toml";

/// `SQLite` metadata database filename inside `.vault/`.
pub const META_DB: &'static str = "meta.db";

/// Bare git object store directory inside `.vault/`.
pub const GIT_DIR: &'static str = ".git";

/// Recovery guide filename inside `.vault/`.
pub const README_FILE: &'static str = "README";

/// Environment variable overriding the global state directory.
pub const STATE_DIR_ENV: &'static str = "VAULT_STATE_DIR";

/// Environment variable to skip service install/start during init.
pub const NO_SERVICE_ENV: &'static str = "VAULT_NO_SERVICE";

/// Global registry filename.
pub const REGISTRY_FILE: &'static str = "registry.toml";

/// Lock file for atomic registry writes.
pub const REGISTRY_LOCK: &'static str = "registry.lock";

/// Advisory lock file for the singleton daemon.
pub const DAEMON_LOCK: &'static str = "daemon.lock";

/// Daemon heartbeat JSON file.
pub const DAEMON_HEARTBEAT: &'static str = "daemon.json";

/// Daemon log file.
pub const DAEMON_LOG: &'static str = "daemon.log";

/// Daemon work-queue snapshot JSON file.
pub const DAEMON_QUEUE: &'static str = "queue.json";

/// Whether `p` is absolute: on Unix, whether it starts with `/`.
pub open spec fn is_absolute_spec(p: Seq<char>) -> bool {
    p.len() > 0 && p[0] == '/'
}

/// `base` joined with `tail` as `PathBuf::push` does on Unix: an absolute `tail` replaces
/// `base`; otherwise a `/` is inserted unless `base` is empty or already ends with one.
pub open spec fn join_spec(base: Seq<char>, tail: Seq<char>) -> Seq<char> {
    if is_absolute_spec(tail) {
        tail
    } else if base.len() == 0 || base[base.len() - 1] == '/' {
        base + tail
    } else {
        base + seq!['/'] + tail
    }
}

/// Whether `p` is absolute (Unix rules: it starts with `/`).
pub fn is_absolute(p: &str) -> (res: bool)
    ensures
        res == is_absolute_spec(p@),
{
    let chars = crate::text::chars_of(p);
    chars.len() > 0 && chars[0] == '/'
}

/// `base` joined with `tail`, as `Path::join` does on Unix.
pub fn path_join(base: &str, tail: &str) -> (res: String)
    ensures
        res@ == join_spec(base@, tail@),
{
    let b = crate::text::chars_of(base);
    if is_absolute(tail) {
        return String::from_str(tail);
    }
    let mut s = String::from_str(base);
    if !(b.len() == 0 || b[b.len() - 1] == '/') {
        crate::text::push_char(&mut s, '/');
    }
    push_str(&mut s, tail);
    s
}

/// Whether a piece between separators survives as a component: it is not empty (a repeated
/// or trailing separator) and not `.` (normalized away).
pub open spec fn kept_piece() -> spec_fn(Seq<char>) -> bool {
    |piece: Seq<char>| piece.len() > 0 && piece != "."@
}

/// The components `std::path::Path::components` yields for `path` on Unix, each as a string:
/// a root `/` when the path starts with one, or a `.` when the path starts with a `.` piece;
/// then the pieces between `/` separators that are neither empty nor `.`.
pub open spec fn path_components_of(path: Seq<char>) -> Seq<Seq<char>> {
    let pieces = split_spec(path, '/');
    if path.len() > 0 && path[0] == '/' {
        seq!["/"@] + pieces.drop_first().filter(kept_piece())
    } else if pieces[0] == "."@ {
        seq!["."@] + pieces.drop_first().filter(kept_piece())
    } else {
        pieces.filter(kept_piece())
    }
}

/// The parent `std::path::Path::parent` returns for `path`.
pub uninterp spec fn path_parent_of(path: Seq<char>) -> Option<Seq<char>>;

/// The views of a sequence of strings.
pub open spec fn string_views(v: Seq<String>) -> Seq<Seq<char>> {
    v.map_values(|s: String| s@)
}

/// The components of `path`, as `std::path::Path::components` yields them. Its documentation
/// gives the rule that `path_components_of` states for Unix targets, whose `/`-separated paths
/// this library assumes throughout (as `join_spec` and `is_absolute_spec` do): repeated and
/// trailing separators and `.` pieces are dropped except a leading `.`, a root is `/`, and
/// `..` stays.
#[verifier::external_body]
pub(crate) fn path_components(path: &str) -> (res: Vec<String>)
    ensures
        string_views(res@) == path_components_of(path@),
{
    std::path::Path::new(path).components().map(|c| c.as_os_str().to_string_lossy().into_owned()).collect()
}

/// The parent of `path` as `std::path::Path::parent` returns it: `path` without its final
/// component, or `None` when `path` has no final component (it is empty or only a root).
/// The parent is always shorter than `path`.
#[verifier::external_body]
pub(crate) fn path_parent(path: &str) -> (res: Option<String>)
    ensures
        res matches Some(p) ==> path_parent_of(path@) == Some(p@) && p@.len() < path@.len(),
        res is None ==> path_parent_of(path@) is None,
{
    std::path::Path::new(path).parent().map(|p| p.to_string_lossy().into_owned())
}

/// Resolved paths for `vault init`.
#[derive(Debug, Clone, PartialEq, Eq)]
pub struct InitPaths {
    /// Vault root (parent of `.vault/`).
    pub worktree: String,
    /// `.vault/` directory path.
    pub vault_dir: String,
}

impl InitPaths {
    /// Path to `.vault/config.toml`.
    pub fn config_path(&self) -> (res: String)
        ensures
            res@ == join_spec(self.vault_dir@, CONFIG_FILE@),
    {
        path_join(self.vault_dir.as_str(), CONFIG_FILE)
    }

    /// Path to `.vault/meta.db`.
    pub fn meta_db_path(&self) -> (res: String)
        ensures
            res@ == join_spec(self.vault_dir@, META_DB@),
    {
        path_join(self.vault_dir.as_str(), META_DB)
    }

    /// Path to `.vault/.git/`.
    pub fn git_dir_path(&self) -> (res: String)
        ensures
            res@ == join_spec(self.vault_dir@, GIT_DIR@),
    {
        path_join(self.vault_dir.as_str(), GIT_DIR)
    }

    /// Path to `.vault/README`.
    pub fn readme_path(&self) -> (res: String)
        ensures
            res@ == join_spec(self.vault_dir@, README_FILE@),
    {
        path_join(self.vault_dir.as_str(), README_FILE)
    }
}

/// Resolved paths for an existing vault.
#[derive(Debug, Clone, PartialEq, Eq)]
pub struct VaultPaths {
    /// Vault root (parent of `.vault/`).
    pub worktree: String,
    /// `.vault/` directory path.
    pub vault_dir: String,
}

impl VaultPaths {
    /// Path to `.vault/config.toml`.
    pub fn config_path(&self) -> (res: String)
        ensures
            res@ == join_spec(self.vault_dir@, CONFIG_FILE@),
    {
        path_join(self.vault_dir.as_str(), CONFIG_FILE)
    }

    /// Path to `.vault/meta.db`.
    pub fn meta_db_path(&self) -> (res: String)
        ensures
            res@ == join_spec(self.vault_dir@, META_DB@),
    {
        path_join(self.vault_dir.as_str(), META_DB)
    }

    /// Path to `.vault/.git/`.
    pub fn git_dir_path(&self) -> (res: String)
        ensures
            res@ == join_spec(self.vault_dir@, GIT_DIR@),
    {
        path_join(self.vault_dir.as_str(), GIT_DIR)
    }

    /// The paths of an existing vault at the location `vault init` resolved.
    pub fn from_init(paths: InitPaths) -> (res: Self)
        ensures
            res.worktree == paths.worktree,
            res.vault_dir == paths.vault_dir,
    {
        VaultPaths { worktree: paths.worktree, vault_dir: paths.vault_dir }
    }
}

/// Return whether a vault directory with markers `presence` already contains init artifacts.
pub fn is_initialized(presence: &MarkerPresence) -> (res: bool)
    ensures
        res == (present_markers(*presence).len() > 0),
        res == (presence.config_file || presence.meta_db || presence.git_dir || presence.readme),
{
    presence.config_file || presence.meta_db || presence.git_dir || presence.readme
}

/// The per-user data directory `directories::ProjectDirs::from("", "", "vault")` resolves on
/// this machine, or `None` when no home directory is known. It depends on the environment, so
/// of the value only this is stated: `directories` always joins the project path (`vault`)
/// onto the platform's data directory, so the path is not empty.
#[verifier::external_body]
fn user_data_dir() -> (res: Option<String>)
    ensures
        res matches Some(d) ==> d@.len() > 0,
{
    directories::ProjectDirs::from("", "", "vault").map(|dirs| dirs.data_dir().to_string_lossy().into_owned())
}

/// The error returned when no per-user data directory can be resolved.
pub open spec fn data_dir_unresolved(e: VaultError) -> bool {
    e matches VaultError::Io(f) && f.kind == IoErrorKind::NotFound && f.message@
        == "could not resolve user data directory"@
}

/// The view of an optional borrowed string.
pub open spec fn opt_str_view(o: Option<&str>) -> Option<Seq<char>> {
    match o {
        Some(v) => Some(v@),
        None => None,
    }
}

/// The state directory chosen by the value of `VAULT_STATE_DIR` and the per-user data
/// directory: a non-empty override, otherwise the data directory; `None` when neither exists.
pub open spec fn state_dir_spec(env_override: Option<Seq<char>>, data_dir: Option<Seq<char>>) -> Option<
    Seq<char>,
> {
    if env_override matches Some(v) && v.len() > 0 {
        env_override
    } else {
        data_dir
    }
}

/// Choose the global state directory from the value of `VAULT_STATE_DIR` and the per-user data
/// directory `data_dir` (`None` when the platform resolves none): a non-empty override wins,
/// otherwise the data directory; with neither, an [`VaultError::Io`] (`NotFound`).
pub fn state_dir_from(env_override: Option<&str>, data_dir: Option<String>) -> (res: Result<
    String,
    VaultError,
>)
    ensures
        match state_dir_spec(opt_str_view(env_override), opt_view(data_dir)) {
            Some(d) => res matches Ok(s) && s@ == d,
            None => res matches Err(e) && data_dir_unresolved(e),
        },
{
    if let Some(v) = env_override {
        if !v.is_empty() {
            return Ok(String::from_str(v));
        }
    }
    match data_dir {
        Some(dir) => Ok(dir),
        None => Err(
            VaultError::Io(
                IoFailure {
                    kind: IoErrorKind::NotFound,
                    message: String::from_str("could not resolve user data directory"),
                },
            ),
        ),
    }
}

/// The file `name` inside the state directory chosen from `env_override` and `data_dir`, as
/// [`state_dir_from`] chooses it.
pub fn state_file_from(env_override: Option<&str>, data_dir: Option<String>, name: &str) -> (res:
    Result<String, VaultError>)
    ensures
        match state_dir_spec(opt_str_view(env_override), opt_view(data_dir)) {
            Some(d) => res matches Ok(p) && p@ == join_spec(d, name@),
            None => res matches Err(e) && data_dir_unresolved(e),
        },
{
    let dir = state_dir_from(env_override, data_dir)?;
    Ok(path_join(dir.as_str(), name))
}

/// Return the default per-user state directory for this platform: the per-user data
/// directory, a non-empty path, or a `NotFound` I/O error when none can be resolved.
fn default_state_dir() -> (res: Result<String, VaultError>)
    ensures
        res matches Ok(d) ==> d@.len() > 0,
        res matches Err(e) ==> data_dir_unresolved(e),
{
    state_dir_from(None, user_data_dir())
}

/// Return the global vault state directory path, given the value of `VAULT_STATE_DIR`.
///
/// A non-empty override is the directory; otherwise the per-user data directory is, and its
/// absence is an [`VaultError::Io`] (`NotFound`). The path may not exist yet.
pub fn state_dir(env_override: Option<&str>) -> (res: Result<String, VaultError>)
    ensures
        env_override matches Some(v) ==> v@.len() > 0 ==> (res matches Ok(d) && d@ == v@),
        res matches Ok(d) ==> d@.len() > 0,
        res matches Err(e) ==> data_dir_unresolved(e),
{
    match env_override {
        Some(v) => {
            if v.is_empty() {
                default_state_dir()
            } else {
                Ok(String::from_str(v))
            }
        },
        None => default_state_dir(),
    }
}

/// `name` inside the state directory chosen by `env_override`: a non-empty directory joined
/// with `name`.
fn state_file(env_override: Option<&str>, name: &str) -> (res: Result<String, VaultError>)
    ensures
        env_override matches Some(v) ==> v@.len() > 0 ==> (res matches Ok(p) && p@ == join_spec(
            v@,
            name@,
        )),
        res matches Ok(p) ==> exists|d: Seq<char>| d.len() > 0 && p@ == join_spec(d, name@),
        res matches Err(e) ==> data_dir_unresolved(e),
{
    let dir = state_dir(env_override)?;
    let p = path_join(dir.as_str(), name);
    assert(dir@.len() > 0 && p@ == join_spec(dir@, name@));
    Ok(p)
}

/// Return the path to `registry.toml`.
pub fn registry_path(env_override: Option<&str>) -> (res: Result<String, VaultError>)
    ensures
        env_override matches Some(v) ==> v@.len() > 0 ==> (res matches Ok(p) && p@ == join_spec(
            v@,
            REGISTRY_FILE@,
        )),
        res matches Ok(p) ==> exists|d: Seq<char>| d.len() > 0 && p@ == join_spec(d, REGISTRY_FILE@),
        res matches Err(e) ==> data_dir_unresolved(e),
{
    state_file(env_override, REGISTRY_FILE)
}

/// Return the path to `registry.lock`.
pub fn registry_lock_path(env_override: Option<&str>) -> (res: Result<String, VaultError>)
    ensures
        env_override matches Some(v) ==> v@.len() > 0 ==> (res matches Ok(p) && p@ == join_spec(
            v@,
            REGISTRY_LOCK@,
        )),
        res matches Ok(p) ==> exists|d: Seq<char>| d.len() > 0 && p@ == join_spec(d, REGISTRY_LOCK@),
        res matches Err(e) ==> data_dir_unresolved(e),
{
    state_file(env_override, REGISTRY_LOCK)
}

/// Return the path to `daemon.lock`.
pub fn daemon_lock_path(env_override: Option<&str>) -> (res: Result<String, VaultError>)
    ensures
        env_override matches Some(v) ==> v@.len() > 0 ==> (res matches Ok(p) && p@ == join_spec(
            v@,
            DAEMON_LOCK@,
        )),
        res matches Ok(p) ==> exists|d: Seq<char>| d.len() > 0 && p@ == join_spec(d, DAEMON_LOCK@),
        res matches Err(e) ==> data_dir_unresolved(e),
{
    state_file(env_override, DAEMON_LOCK)
}

/// Return the path to `daemon.json`.
pub fn daemon_heartbeat_path(env_override: Option<&str>) -> (res: Result<String, VaultError>)
    ensures
        env_override matches Some(v) ==> v@.len() > 0 ==> (res matches Ok(p) && p@ == join_spec(
            v@,
            DAEMON_HEARTBEAT@,
        )),
        res matches Ok(p) ==> exists|d: Seq<char>| d.len() > 0 && p@ == join_spec(d, DAEMON_HEARTBEAT@),
        res matches Err(e) ==> data_dir_unresolved(e),
{
    state_file(env_override, DAEMON_HEARTBEAT)
}

/// Return the path to `daemon.log`.
pub fn daemon_log_path(env_override: Option<&str>) -> (res: Result<String, VaultError>)
    ensures
        env_override matches Some(v) ==> v@.len() > 0 ==> (res matches Ok(p) && p@ == join_spec(
            v@,
            DAEMON_LOG@,
        )),
        res matches Ok(p) ==> exists|d: Seq<char>| d.len() > 0 && p@ == join_spec(d, DAEMON_LOG@),
        res matches Err(e) ==> data_dir_unresolved(e),
{
    state_file(env_override, DAEMON_LOG)
}

/// Return the path to `queue.json`, the daemon's work-queue snapshot.
pub fn daemon_queue_path(env_override: Option<&str>) -> (res: Result<String, VaultError>)
    ensures
        env_override matches Some(v) ==> v@.len() > 0 ==> (res matches Ok(p) && p@ == join_spec(
            v@,
            DAEMON_QUEUE@,
        )),
        res matches Ok(p) ==> exists|d: Seq<char>| d.len() > 0 && p@ == join_spec(d, DAEMON_QUEUE@),
        res matches Err(e) ==> data_dir_unresolved(e),
{
    state_file(env_override, DAEMON_QUEUE)
}

/// ASCII lowercase of one character.
pub open spec fn ascii_lower(c: char) -> char {
    if 'A' <= c && c <= 'Z' {
        ((c as u8) + 32) as char
    } else {
        c
    }
}

/// `str::eq_ignore_ascii_case`: equal lengths and equal characters up to ASCII case.
pub open spec fn eq_ignore_ascii_case_spec(a: Seq<char>, b: Seq<char>) -> bool {
    a.len() == b.len() && forall|i: int| 0 <= i < a.len() ==> ascii_lower(#[trigger] a[i])
        == ascii_lower(b[i])
}

/// Whether the `VAULT_NO_SERVICE` value asks to skip the service: set, non-empty, not `"0"`
/// and not `false` in any ASCII case.
pub open spec fn skip_service_spec(value: Option<Seq<char>>) -> bool {
    match value {
        Some(v) => v.len() > 0 && v != "0"@ && !eq_ignore_ascii_case_spec(v, "false"@),
        None => false,
    }
}

fn lower(c: char) -> (res: char)
    ensures
        res == ascii_lower(c),
{
    if 'A' <= c && c <= 'Z' {
        ((c as u8) + 32) as char
    } else {
        c
    }
}

/// Return whether service install/start is skipped, given the value of `VAULT_NO_SERVICE`.
pub fn skip_service(value: Option<&str>) -> (res: bool)
    ensures
        res == skip_service_spec(
            match value {
                Some(v) => Some(v@),
                None => None,
            },
        ),
{
    proof {
        reveal_strlit("0");
        reveal_strlit("false");
    }
    match value {
        None => false,
        Some(v) => {
            let chars = chars_of(v);
            if chars.len() == 0 {
                return false;
            }
            if chars.len() == 1 && chars[0] == '0' {
                assert(v@ =~= "0"@);
                return false;
            }
            assert(chars.len() != 1 || chars[0] != '0' ==> v@ != "0"@) by {
                if v@ == "0"@ {
                    assert(v@[0] == '0');
                }
            }
            let target = ['f', 'a', 'l', 's', 'e'];
            assert(v@ != "0"@);
            if chars.len() != 5 {
                return true;
            }
            let mut i: usize = 0;
            while i < 5
                invariant
                    i <= 5,
                    chars.len() == 5,
                    chars@ == v@,
                    target@ == "false"@,
                    v@ != "0"@,
                    v@.len() > 0,
                    value == Some(v),
                    forall|j: int| 0 <= j < i ==> ascii_lower(#[trigger] v@[j]) == ascii_lower(
                        "false"@[j],
                    ),
                decreases 5 - i,
            {
                if lower(chars[i]) != lower(target[i]) {
                    assert(ascii_lower(v@[i as int]) != ascii_lower("false"@[i as int]));
                    assert(!eq_ignore_ascii_case_spec(v@, "false"@));
                    return true;
                }
                i = i + 1;
            }
            false
        },
    }
}

/// The view of an optional string.
pub open spec fn opt_view(o: Option<String>) -> Option<Seq<char>> {
    match o {
        Some(s) => Some(s@),
        None => None,
    }
}

/// The `(worktree, vault_dir)` pair resolved from `--vault-path` and the current directory,
/// or `None` when the given vault path has no parent.
pub open spec fn resolved_dirs(vault_path: Option<Seq<char>>, cwd: Seq<char>) -> Option<
    (Seq<char>, Seq<char>),
> {
    match vault_path {
        None => Some((cwd, join_spec(cwd, VAULT_DIR@))),
        Some(v) => match path_parent_of(v) {
            Some(parent) => Some((parent, v)),
            None => None,
        },
    }
}

/// Resolve worktree and `.vault/` paths: `cwd/.vault` when no `--vault-path` is given,
/// otherwise `vault_path` itself under its parent directory.
///
/// Returns [`VaultError::InvalidVaultPath`] when `vault_path` has no parent.
pub fn resolve_vault_paths(vault_path: Option<String>, cwd: String) -> (res: Result<
    InitPaths,
    VaultError,
>)
    ensures
        match resolved_dirs(opt_view(vault_path), cwd@) {
            Some((w, d)) => res matches Ok(p) && p.worktree@ == w && p.vault_dir@ == d,
            None => res matches Err(VaultError::InvalidVaultPath { path }) && opt_view(vault_path)
                == Some(path@),
        },
{
    match vault_path {
        None => {
            let vault_dir = path_join(cwd.as_str(), VAULT_DIR);
            Ok(InitPaths { worktree: cwd, vault_dir })
        },
        Some(vault_dir) => match path_parent(vault_dir.as_str()) {
            Some(worktree) => Ok(InitPaths { worktree, vault_dir }),
            None => Err(VaultError::InvalidVaultPath { path: vault_dir }),
        },
    }
}

/// Resolve worktree and `.vault/` paths for initialization; `presence` holds which init
/// markers exist in the resolved `.vault/` directory.
///
/// Returns [`VaultError::InvalidVaultPath`] when `vault_path` has no parent, or
/// [`VaultError::AlreadyInitialized`] when init markers are present.
pub fn resolve_init(vault_path: Option<String>, cwd: String, presence: &MarkerPresence) -> (res:
    Result<InitPaths, VaultError>)
    ensures
        match resolved_dirs(opt_view(vault_path), cwd@) {
            None => res matches Err(VaultError::InvalidVaultPath { path }) && opt_view(vault_path)
                == Some(path@),
            Some((w, d)) => if present_markers(*presence).len() > 0 {
                res matches Err(VaultError::AlreadyInitialized { path }) && path@ == d
            } else {
                res matches Ok(p) && p.worktree@ == w && p.vault_dir@ == d
            },
        },
{
    let paths = resolve_vault_paths(vault_path, cwd)?;
    if is_initialized(presence) {
        return Err(VaultError::AlreadyInitialized { path: paths.vault_dir });
    }
    Ok(paths)
}

/// Resolve paths for an existing vault; `presence` holds which init markers exist in the
/// resolved `.vault/` directory.
///
/// Returns [`VaultError::InvalidVaultPath`] when `vault_path` has no parent, or
/// [`VaultError::VaultNotFound`] (naming the worktree) when no init marker is present.
pub fn resolve_vault(vault_path: Option<String>, cwd: String, presence: &MarkerPresence) -> (res:
    Result<VaultPaths, VaultError>)
    ensures
        match resolved_dirs(opt_view(vault_path), cwd@) {
            None => res matches Err(VaultError::InvalidVaultPath { path }) && opt_view(vault_path)
                == Some(path@),
            Some((w, d)) => if present_markers(*presence).len() == 0 {
                res matches Err(VaultError::VaultNotFound { start }) && start@ == w
            } else {
                res matches Ok(p) && p.worktree@ == w && p.vault_dir@ == d
            },
        },
{
    let paths = resolve_vault_paths(vault_path, cwd)?;
    if !is_initialized(presence) {
        return Err(VaultError::VaultNotFound { start: paths.worktree });
    }
    Ok(VaultPaths { worktree: paths.worktree, vault_dir: paths.vault_dir })
}

/// Whether `chain` is `start` followed by each successive parent, ending at a path without
/// a parent.
pub open spec fn is_ancestor_chain(start: Seq<char>, chain: Seq<Seq<char>>) -> bool {
    &&& chain.len() >= 1
    &&& chain[0] == start
    &&& forall|i: int| 0 <= i < chain.len() - 1 ==> path_parent_of(#[trigger] chain[i]) == Some(
        chain[i + 1],
    )
    &&& path_parent_of(chain.last()) is None
}

/// `start` and every ancestor of it, nearest first: the directories a vault search visits.
pub fn ancestors(start: &str) -> (res: Vec<String>)
    ensures
        is_ancestor_chain(start@, string_views(res@)),
{
    let mut chain: Vec<String> = Vec::new();
    let mut current = String::from_str(start);
    chain.push(current.clone());
    loop
        invariant
            chain@.len() >= 1,
            string_views(chain@)[0] == start@,
            string_views(chain@).last() == current@,
            forall|i: int|
                0 <= i < chain@.len() - 1 ==> path_parent_of(#[trigger] string_views(chain@)[i])
                    == Some(string_views(chain@)[i + 1]),
        decreases current@.len(),
    {
        let ghost before = string_views(chain@);
        match path_parent(current.as_str()) {
            None => {
                return chain;
            },
            Some(parent) => {
                chain.push(parent.clone());
                assert(string_views(chain@) =~= before.push(parent@));
                current = parent;
            },
        }
    }
}

/// Discover `.vault/` by walking up the ancestor chain `ancestors` of the start directory:
/// the first `a/.vault` whose `config.toml` is a regular file, where `config_found[i]` tells
/// whether that holds for `ancestors[i]`.
pub fn discover_vault(ancestors: &Vec<String>, config_found: &Vec<bool>) -> (res: Option<String>)
    requires
        ancestors@.len() == config_found@.len(),
    ensures
        res is None <==> forall|i: int| 0 <= i < config_found@.len() ==> !#[trigger] config_found@[i],
        res matches Some(d) ==> exists|i: int|
            0 <= i < config_found@.len() && #[trigger] config_found@[i] && d@ == join_spec(
                ancestors@[i]@,
                VAULT_DIR@,
            ) && forall|j: int| 0 <= j < i ==> !config_found@[j],
{
    let mut i: usize = 0;
    while i < ancestors.len()
        invariant
            i <= ancestors@.len() == config_found@.len(),
            forall|j: int| 0 <= j < i ==> !#[trigger] config_found@[j],
        decreases ancestors@.len() - i,
    {
        if config_found[i] {
            let d = path_join(ancestors[i].as_str(), VAULT_DIR);
            assert(config_found@[i as int]);
            return Some(d);
        }
        i = i + 1;
    }
    None
}

} // verus!
