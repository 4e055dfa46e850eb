//! Ignore-glob matching for watched paths.

use vstd::prelude::*;

use globset::{Glob, GlobSet, GlobSetBuilder};

use crate::config::VaultConfig;
use crate::error::{IoErrorKind, IoFailure, VaultError};
use crate::domain::rel_path::normalize_spec;
use crate::paths::{path_components, string_views};
use crate::text::join_with_slash;

verus! {

/// A compiled glob pattern of `globset`.
#[verifier::external_type_specification]
#[verifier::external_body]
pub struct ExGlob(Glob);

/// A builder of a `globset::GlobSet`.
#[verifier::external_type_specification]
#[verifier::external_body]
pub struct ExGlobSetBuilder(GlobSetBuilder);

/// A set of compiled glob patterns of `globset`, matched together.
#[verifier::external_type_specification]
#[verifier::external_body]
pub struct ExGlobSet(GlobSet);

/// What `globset::Glob::new` reports for `pattern`: `None` when the pattern parses, else the
/// text of its error.
pub uninterp spec fn glob_parse_error(pattern: Seq<char>) -> Option<Seq<char>>;

/// The source pattern a `globset::Glob` was built from (what `Glob::glob` returns).
pub uninterp spec fn glob_pattern(glob: Glob) -> Seq<char>;

/// The patterns added to a `globset::GlobSetBuilder`, in the order they were added.
pub uninterp spec fn builder_patterns(builder: GlobSetBuilder) -> Seq<Seq<char>>;

/// The patterns a `globset::GlobSet` was built from, in order.
pub uninterp spec fn set_patterns(set: GlobSet) -> Seq<Seq<char>>;

/// What `globset::GlobSetBuilder::build` reports for a builder holding `patterns`: `None` when
/// the set compiles, else the text of its error.
pub uninterp spec fn glob_set_build_error(patterns: Seq<Seq<char>>) -> Option<Seq<char>>;

/// Whether the glob `pattern` matches the path `path`, by `globset`'s matching rules.
pub uninterp spec fn glob_matches(pattern: Seq<char>, path: Seq<char>) -> bool;

/// Parses `pattern` with `globset::Glob::new`. On success the glob holds `pattern` as its
/// source; on failure the error's text is returned. Both outcomes are fixed by `pattern`.
#[verifier::external_body]
fn parse_glob(pattern: &str) -> (res: Result<Glob, String>)
    ensures
        res is Ok <==> glob_parse_error(pattern@) is None,
        res matches Ok(g) ==> glob_pattern(g) == pattern@,
        res matches Err(m) ==> glob_parse_error(pattern@) == Some(m@),
{
    Glob::new(pattern).map_err(|e| e.to_string())
}

/// An empty builder, from `globset::GlobSetBuilder::new`.
#[verifier::external_body]
fn new_builder() -> (res: GlobSetBuilder)
    ensures
        builder_patterns(res) == Seq::<Seq<char>>::empty(),
{
    GlobSetBuilder::new()
}

/// `globset::GlobSetBuilder::add`: appends `glob` to the builder's patterns.
#[verifier::external_body]
fn add_glob(builder: &mut GlobSetBuilder, glob: Glob)
    ensures
        builder_patterns(*final(builder)) == builder_patterns(*old(builder)).push(
            glob_pattern(glob),
        ),
{
    builder.add(glob);
}

/// `globset::GlobSetBuilder::build`: compiles the builder's patterns into a set holding the
/// same patterns, or returns the error's text. The outcome is fixed by the patterns.
#[verifier::external_body]
fn build_set(builder: &GlobSetBuilder) -> (res: Result<GlobSet, String>)
    ensures
        res is Ok <==> glob_set_build_error(builder_patterns(*builder)) is None,
        res matches Ok(s) ==> set_patterns(s) == builder_patterns(*builder),
        res matches Err(m) ==> glob_set_build_error(builder_patterns(*builder)) == Some(m@),
{
    builder.build().map_err(|e| e.to_string())
}

/// `globset::GlobSet::is_match`: true exactly when some glob of the set matches `path`.
#[verifier::external_body]
fn set_is_match(set: &GlobSet, path: &str) -> (res: bool)
    ensures
        res == (exists|i: int| 0 <= i < set_patterns(*set).len() && #[trigger] glob_matches(set_patterns(*set)[i], path@)),
{
    set.is_match(path)
}

/// The first parse error among `patterns[i..]`, scanning forward.
pub open spec fn parse_error_from(patterns: Seq<Seq<char>>, i: int) -> Option<Seq<char>>
    decreases patterns.len() - i,
{
    if i < 0 || i >= patterns.len() {
        None
    } else if glob_parse_error(patterns[i]) is Some {
        glob_parse_error(patterns[i])
    } else {
        parse_error_from(patterns, i + 1)
    }
}

/// The error building a matcher from `patterns` reports: the first pattern that does not
/// parse, else the failure to compile the set; `None` when the matcher builds.
pub open spec fn matcher_error(patterns: Seq<Seq<char>>) -> Option<Seq<char>> {
    match parse_error_from(patterns, 0) {
        Some(m) => Some(m),
        None => glob_set_build_error(patterns),
    }
}

/// Whether any of `patterns` matches `path`.
pub open spec fn any_matches(patterns: Seq<Seq<char>>, path: Seq<char>) -> bool {
    exists|i: int| 0 <= i < patterns.len() && #[trigger] glob_matches(patterns[i], path)
}

/// Compiled ignore matcher for a vault configuration.
pub struct IgnoreMatcher {
    set: GlobSet,
}

impl View for IgnoreMatcher {
    /// The ignore patterns, in configuration order.
    type V = Seq<Seq<char>>;

    closed spec fn view(&self) -> Seq<Seq<char>> {
        set_patterns(self.set)
    }
}

impl IgnoreMatcher {
    /// Build a matcher from `config.ignore` patterns.
    ///
    /// Fails with an `InvalidInput` I/O error, carrying the first pattern's parse error, when a
    /// pattern is not a valid glob.
    pub fn from_config(config: &VaultConfig) -> (res: Result<Self, VaultError>)
        ensures
            res is Ok <==> matcher_error(string_views(config.ignore@)) is None,
            res matches Ok(m) ==> m@ == string_views(config.ignore@),
            res matches Err(e) ==> e matches VaultError::Io(f) && f.kind == IoErrorKind::InvalidInput
                && Some(f.message@) == matcher_error(string_views(config.ignore@)),
    {
        let ghost patterns = string_views(config.ignore@);
        let mut builder = new_builder();
        let mut i: usize = 0;
        while i < config.ignore.len()
            invariant
                i <= config.ignore.len(),
                patterns == string_views(config.ignore@),
                builder_patterns(builder) == patterns.take(i as int),
                parse_error_from(patterns, 0) == parse_error_from(patterns, i as int),
            decreases config.ignore.len() - i,
        {
            match parse_glob(config.ignore[i].as_str()) {
                Ok(glob) => {
                    add_glob(&mut builder, glob);
                    assert(patterns.take(i + 1) =~= patterns.take(i as int).push(patterns[i as int]));
                },
                Err(message) => {
                    return Err(
                        VaultError::Io(IoFailure { kind: IoErrorKind::InvalidInput, message }),
                    );
                },
            }
            i = i + 1;
        }
        assert(patterns.take(i as int) =~= patterns);
        match build_set(&builder) {
            Ok(set) => Ok(IgnoreMatcher { set }),
            Err(message) => Err(
                VaultError::Io(IoFailure { kind: IoErrorKind::InvalidInput, message }),
            ),
        }
    }

    /// Return whether `rel_path` (relative to the vault root) is ignored: whether some pattern
    /// matches the path's components joined with `/`.
    pub fn is_ignored(&self, rel_path: &str) -> (res: bool)
        ensures
            res == any_matches(self@, normalize_spec(rel_path@)),
    {
        let normalized = normalize_rel_path(rel_path);
        set_is_match(&self.set, normalized.as_str())
    }
}

/// Normalize a relative path for glob matching: its components joined with `/`.
pub fn normalize_rel_path(path: &str) -> (res: String)
    ensures
        res@ == normalize_spec(path@),
{
    let parts = path_components(path);
    proof {
        assert(parts@.map_values(|p: String| p@) =~= string_views(parts@));
    }
    join_with_slash(&parts)
}

/// Return whether a file of `file_len` bytes exceeds `max_bytes`; `None` stands for a path
/// that is not a regular file, which never exceeds.
pub fn exceeds_max_bytes(file_len: Option<u64>, max_bytes: u64) -> (res: bool)
    ensures
        res == (file_len matches Some(n) && n > max_bytes),
{
    match file_len {
        Some(n) => n > max_bytes,
        None => false,
    }
}

} // verus!
