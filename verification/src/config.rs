//! Vault configuration (`config.toml`).

use vstd::prelude::*;

use crate::paths::string_views;

verus! {

/// Default debounce interval in milliseconds.
pub const DEFAULT_DEBOUNCE_MS: u64 = 2000;

/// Default maximum file size in bytes to snapshot (10 MiB).
pub const DEFAULT_MAX_FILE_BYTES: u64 = 10 * 1024 * 1024;

/// Default loose-object threshold (`gc.auto`).
pub const DEFAULT_LOOSE_OBJECT_LIMIT: usize = 6700;

/// Default packfile threshold (`gc.autopacklimit`).
pub const DEFAULT_PACK_LIMIT: usize = 50;

/// Default maximum seconds between repacks (7 days).
pub const DEFAULT_MAX_AGE_SECS: u64 = 7 * 24 * 60 * 60;

/// Watcher settings in `config.toml`.
#[derive(Debug, Clone, Copy, PartialEq, Eq, Structural)]
pub struct WatcherConfig {
    /// Debounce window in milliseconds before committing a snapshot.
    pub debounce_ms: u64,
    /// Maximum file size in bytes to snapshot.
    pub max_file_bytes: u64,
}

impl Default for WatcherConfig {
    fn default() -> (res: Self)
        ensures
            res.debounce_ms == DEFAULT_DEBOUNCE_MS,
            res.max_file_bytes == DEFAULT_MAX_FILE_BYTES,
    {
        WatcherConfig {
            debounce_ms: WatcherConfig::default_debounce_ms(),
            max_file_bytes: WatcherConfig::default_max_file_bytes(),
        }
    }
}

impl WatcherConfig {
    /// The debounce window a config without one gets.
    pub fn default_debounce_ms() -> (res: u64)
        ensures
            res == DEFAULT_DEBOUNCE_MS,
    {
        DEFAULT_DEBOUNCE_MS
    }

    /// The size cap a config without one gets.
    pub fn default_max_file_bytes() -> (res: u64)
        ensures
            res == DEFAULT_MAX_FILE_BYTES,
    {
        DEFAULT_MAX_FILE_BYTES
    }
}

/// Git housekeeping thresholds in `config.toml` (`[gc]`).
#[derive(Debug, Clone, Copy, PartialEq, Eq, Structural)]
pub struct GcConfig {
    /// Loose object count above which a repack is due.
    pub loose_object_limit: usize,
    /// Packfile count above which a repack is due.
    pub pack_limit: usize,
    /// Seconds since the last repack after which a repack is due.
    pub max_age_secs: u64,
}

impl Default for GcConfig {
    fn default() -> (res: Self)
        ensures
            res.loose_object_limit == DEFAULT_LOOSE_OBJECT_LIMIT,
            res.pack_limit == DEFAULT_PACK_LIMIT,
            res.max_age_secs == DEFAULT_MAX_AGE_SECS,
    {
        GcConfig {
            loose_object_limit: GcConfig::default_loose_object_limit(),
            pack_limit: GcConfig::default_pack_limit(),
            max_age_secs: GcConfig::default_max_age_secs(),
        }
    }
}

impl GcConfig {
    /// The loose-object threshold a config without one gets.
    pub fn default_loose_object_limit() -> (res: usize)
        ensures
            res == DEFAULT_LOOSE_OBJECT_LIMIT,
    {
        DEFAULT_LOOSE_OBJECT_LIMIT
    }

    /// The packfile threshold a config without one gets.
    pub fn default_pack_limit() -> (res: usize)
        ensures
            res == DEFAULT_PACK_LIMIT,
    {
        DEFAULT_PACK_LIMIT
    }

    /// The repack age a config without one gets.
    pub fn default_max_age_secs() -> (res: u64)
        ensures
            res == DEFAULT_MAX_AGE_SECS,
    {
        DEFAULT_MAX_AGE_SECS
    }

    /// Return the configured max age, in whole seconds.
    pub fn max_age_duration(&self) -> (res: u64)
        ensures
            res == self.max_age_secs,
    {
        self.max_age_secs
    }
}

/// Glob patterns ignored by default in a freshly initialized vault.
pub open spec fn default_ignore_patterns() -> Seq<Seq<char>> {
    seq![
        ".vault/**"@,
        ".git/**"@,
        "**/*.swp"@,
        "**/*~"@,
        "**/.#*"@,
        "**/#*#"@,
        "**/*.pdf"@,
        "**/*.zip"@,
    ]
}

/// Vault configuration persisted in `.vault/config.toml`.
#[derive(Debug, Clone, PartialEq, Eq)]
pub struct VaultConfig {
    /// Directories to watch for changes, relative to the vault root.
    pub watch_roots: Vec<String>,
    /// Glob patterns to ignore when watching.
    pub ignore: Vec<String>,
    /// Watcher tuning options.
    pub watcher: WatcherConfig,
    /// Git housekeeping thresholds.
    pub gc: GcConfig,
}

impl VaultConfig {
    /// Return the default configuration for a new vault: the whole vault root watched, the
    /// default ignore patterns, and default watcher and housekeeping settings.
    pub fn defaults() -> (res: Self)
        ensures
            string_views(res.watch_roots@) == seq![ "."@ ],
            string_views(res.ignore@) == default_ignore_patterns(),
            res.watcher.debounce_ms == DEFAULT_DEBOUNCE_MS,
            res.watcher.max_file_bytes == DEFAULT_MAX_FILE_BYTES,
            res.gc.loose_object_limit == DEFAULT_LOOSE_OBJECT_LIMIT,
            res.gc.pack_limit == DEFAULT_PACK_LIMIT,
            res.gc.max_age_secs == DEFAULT_MAX_AGE_SECS,
    {
        let mut watch_roots: Vec<String> = Vec::new();
        watch_roots.push(String::from_str("."));
        let mut ignore: Vec<String> = Vec::new();
        ignore.push(String::from_str(".vault/**"));
        ignore.push(String::from_str(".git/**"));
        ignore.push(String::from_str("**/*.swp"));
        ignore.push(String::from_str("**/*~"));
        ignore.push(String::from_str("**/.#*"));
        ignore.push(String::from_str("**/#*#"));
        ignore.push(String::from_str("**/*.pdf"));
        ignore.push(String::from_str("**/*.zip"));
        assert(string_views(watch_roots@) =~= seq![ "."@ ]);
        assert(string_views(ignore@) =~= default_ignore_patterns());
        VaultConfig {
            watch_roots,
            ignore,
            watcher: WatcherConfig::default(),
            gc: GcConfig::default(),
        }
    }

    /// Append an ignore pattern when it is not already present; returns whether it was added.
    pub fn add_ignore(&mut self, pattern: &str) -> (added: bool)
        ensures
            added == !string_views(old(self).ignore@).contains(pattern@),
            added ==> string_views(final(self).ignore@) == string_views(old(self).ignore@).push(
                pattern@,
            ),
            !added ==> final(self).ignore@ == old(self).ignore@,
            final(self).watch_roots == old(self).watch_roots,
            final(self).watcher == old(self).watcher,
            final(self).gc == old(self).gc,
            string_views(final(self).ignore@).contains(pattern@),
            string_views(final(self).ignore@) == with_ignore(string_views(old(self).ignore@), pattern@),
    {
        let ghost views = string_views(self.ignore@);
        let mut i: usize = 0;
        while i < self.ignore.len()
            invariant
                i <= self.ignore@.len(),
                views == string_views(self.ignore@),
                forall|j: int| 0 <= j < i ==> views[j] != pattern@,
            decreases self.ignore@.len() - i,
        {
            if crate::text::str_eq(self.ignore[i].as_str(), pattern) {
                assert(views[i as int] == pattern@);
                return false;
            }
            i = i + 1;
        }
        assert(!views.contains(pattern@));
        self.ignore.push(String::from_str(pattern));
        assert(string_views(self.ignore@) =~= views.push(pattern@));
        assert(string_views(self.ignore@)[views.len() as int] == pattern@);
        true
    }
}

/// The ignore list after adding `pattern`: unchanged when the pattern is already present,
/// otherwise with it appended.
pub open spec fn with_ignore(ignore: Seq<Seq<char>>, pattern: Seq<char>) -> Seq<Seq<char>> {
    if ignore.contains(pattern) {
        ignore
    } else {
        ignore.push(pattern)
    }
}

/// Adding an ignore pattern is idempotent: once added, adding it again changes nothing, and
/// the pattern is in the list either way.
pub proof fn lemma_add_ignore_idempotent(ignore: Seq<Seq<char>>, pattern: Seq<char>)
    ensures
        with_ignore(ignore, pattern).contains(pattern),
        with_ignore(with_ignore(ignore, pattern), pattern) == with_ignore(ignore, pattern),
{
    if !ignore.contains(pattern) {
        assert(ignore.push(pattern)[ignore.len() as int] == pattern);
    }
}

} // verus!
