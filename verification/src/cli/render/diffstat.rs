//! Diffstat rendering shared by `vault log`'s default view and `vault show`'s report mode.

use vstd::prelude::*;
use vstd::utf8::{decode_utf8, valid_utf8};

use crate::cli::render::diff::side_bytes;
use crate::text::{decimal, push_char, push_repeat, push_str, push_u128, push_u64, repeat_spec, utf8_text};

verus! {

/// How `similar` classifies one line of a line diff.
#[derive(Debug, Clone, Copy, PartialEq, Eq, Structural)]
pub enum LineTag {
    /// The line is on both sides.
    Equal,
    /// The line is only on the old side.
    Delete,
    /// The line is only on the new side.
    Insert,
}

/// The tags of the changes `similar` reports, in order, for the line diff of `old` against
/// `new`.
pub uninterp spec fn line_diff_tags(old: Seq<char>, new: Seq<char>) -> Seq<LineTag>;

/// The tag of every change of the line diff of `old` against `new`, in order
/// (`similar::TextDiff::from_lines(..).iter_all_changes()`, each change by its `tag()`).
/// The tags depend on the two texts alone: no timeout is configured.
#[verifier::external_body]
fn line_change_tags(old: &str, new: &str) -> (res: Vec<LineTag>)
    ensures
        res@ == line_diff_tags(old@, new@),
{
    similar::TextDiff::from_lines(old, new).iter_all_changes().map(|change| match change.tag() {
        similar::ChangeTag::Equal => LineTag::Equal,
        similar::ChangeTag::Delete => LineTag::Delete,
        similar::ChangeTag::Insert => LineTag::Insert,
    }).collect()
}

/// One file's before/after content for a diffstat line.
pub struct DiffStatInput<'a> {
    /// Path relative to the vault worktree.
    pub path: &'a str,
    /// Content before this change, or `None` when the path did not exist yet.
    pub previous: Option<&'a [u8]>,
    /// Content after this change, or `None` when the path was deleted.
    pub current: Option<&'a [u8]>,
}

/// A file's line counts, or the mark of a binary file.
#[derive(Debug, Clone, Copy, PartialEq, Eq, Structural)]
pub enum FileStat {
    /// Text on both sides, with these line counts.
    Text {
        /// Lines only on the new side.
        insertions: usize,
        /// Lines only on the old side.
        deletions: usize,
    },
    /// Either side is not valid UTF-8.
    Binary,
}

/// How many of `tags` are `t`.
pub open spec fn count_tag(tags: Seq<LineTag>, t: LineTag) -> nat
    decreases tags.len(),
{
    if tags.len() == 0 {
        0
    } else {
        count_tag(tags.drop_last(), t) + if tags.last() == t {
            1nat
        } else {
            0nat
        }
    }
}

proof fn lemma_count_tag_bound(tags: Seq<LineTag>, t: LineTag)
    ensures
        count_tag(tags, t) <= tags.len(),
    decreases tags.len(),
{
    if tags.len() > 0 {
        lemma_count_tag_bound(tags.drop_last(), t);
    }
}

/// The stat of one file whose sides hold `previous` and `current`.
pub open spec fn file_stat_spec(previous: Seq<u8>, current: Seq<u8>) -> FileStat {
    if valid_utf8(previous) && valid_utf8(current) {
        let tags = line_diff_tags(decode_utf8(previous), decode_utf8(current));
        FileStat::Text {
            insertions: count_tag(tags, LineTag::Insert) as usize,
            deletions: count_tag(tags, LineTag::Delete) as usize,
        }
    } else {
        FileStat::Binary
    }
}

/// A file of a diffstat as plain values: its path, then the bytes before and after.
pub type StatEntry = (Seq<char>, Seq<u8>, Seq<u8>);

/// The plain values of one input file.
pub open spec fn input_entry(input: DiffStatInput) -> StatEntry {
    (input.path@, side_bytes(input.previous), side_bytes(input.current))
}

/// The plain values of every input file.
pub open spec fn input_entries(files: Seq<DiffStatInput>) -> Seq<StatEntry> {
    files.map_values(|f: DiffStatInput| input_entry(f))
}

/// The stat of one file.
pub open spec fn entry_stat(e: StatEntry) -> FileStat {
    file_stat_spec(e.1, e.2)
}

/// Count the insertions and deletions of the line diff of `tags`.
pub fn count_changes(tags: &Vec<LineTag>) -> (res: (usize, usize))
    ensures
        res.0 as nat == count_tag(tags@, LineTag::Insert),
        res.1 as nat == count_tag(tags@, LineTag::Delete),
{
    let mut insertions: usize = 0;
    let mut deletions: usize = 0;
    let mut i: usize = 0;
    while i < tags.len()
        invariant
            i <= tags@.len(),
            insertions as nat == count_tag(tags@.take(i as int), LineTag::Insert),
            deletions as nat == count_tag(tags@.take(i as int), LineTag::Delete),
        decreases tags@.len() - i,
    {
        let ghost prefix = tags@.take(i + 1);
        assert(prefix.drop_last() =~= tags@.take(i as int));
        proof {
            lemma_count_tag_bound(tags@.take(i as int), LineTag::Insert);
            lemma_count_tag_bound(tags@.take(i as int), LineTag::Delete);
        }
        match tags[i] {
            LineTag::Insert => insertions = insertions + 1,
            LineTag::Delete => deletions = deletions + 1,
            LineTag::Equal => {},
        }
        i = i + 1;
    }
    assert(tags@.take(tags@.len() as int) =~= tags@);
    (insertions, deletions)
}

fn file_stat(input: &DiffStatInput) -> (res: FileStat)
    ensures
        res == entry_stat(input_entry(*input)),
{
    let empty: &[u8] = &[];
    let previous = match input.previous {
        Some(b) => b,
        None => empty,
    };
    let current = match input.current {
        Some(b) => b,
        None => empty,
    };
    let previous_text = match utf8_text(previous) {
        Some(t) => t,
        None => return FileStat::Binary,
    };
    let current_text = match utf8_text(current) {
        Some(t) => t,
        None => return FileStat::Binary,
    };
    let tags = line_change_tags(previous_text, current_text);
    let (insertions, deletions) = count_changes(&tags);
    FileStat::Text { insertions, deletions }
}

/// The number of changed lines of a stat (0 for a binary file).
pub open spec fn changed_lines(stat: FileStat) -> (nat, nat) {
    match stat {
        FileStat::Text { insertions, deletions } => (insertions as nat, deletions as nat),
        FileStat::Binary => (0, 0),
    }
}

/// The diffstat line of one file.
pub open spec fn file_line_spec(path: Seq<char>, stat: FileStat) -> Seq<char> {
    match stat {
        FileStat::Binary => " "@ + path + " | Bin\n"@,
        FileStat::Text { insertions, deletions } => " "@ + path + " | "@ + decimal(
            (insertions + deletions) as nat,
        ) + " "@ + repeat_spec('+', insertions as nat) + repeat_spec('-', deletions as nat)
            + "\n"@,
    }
}

fn render_file_line(path: &str, stat: &FileStat) -> (res: String)
    ensures
        res@ == file_line_spec(path@, *stat),
{
    let mut s = String::from_str(" ");
    push_str(&mut s, path);
    match stat {
        FileStat::Binary => {
            push_str(&mut s, " | Bin\n");
        },
        FileStat::Text { insertions, deletions } => {
            push_str(&mut s, " | ");
            push_u128(&mut s, (*insertions as u128) + (*deletions as u128));
            push_str(&mut s, " ");
            push_repeat(&mut s, '+', *insertions);
            push_repeat(&mut s, '-', *deletions);
            push_str(&mut s, "\n");
        },
    }
    s
}

/// `"{count} {singular}"` when `count` is 1, `"{count} {plural}"` otherwise.
pub open spec fn pluralize_spec(count: nat, singular: Seq<char>, plural: Seq<char>) -> Seq<char> {
    decimal(count) + " "@ + if count == 1 {
        singular
    } else {
        plural
    }
}

fn pluralize(count: u128, singular: &str, plural: &str) -> (res: String)
    ensures
        res@ == pluralize_spec(count as nat, singular@, plural@),
{
    let mut s = String::new();
    push_u128(&mut s, count);
    push_str(&mut s, " ");
    if count == 1 {
        push_str(&mut s, singular);
    } else {
        push_str(&mut s, plural);
    }
    s
}

/// The totals line of a diffstat: the file count, then the insertion and deletion counts,
/// each only when non-zero.
pub open spec fn summary_line_spec(file_count: nat, insertions: nat, deletions: nat) -> Seq<char> {
    pluralize_spec(file_count, "file"@, "files"@) + " changed"@ + (if insertions > 0 {
        ", "@ + pluralize_spec(insertions, "insertion(+)"@, "insertions(+)"@)
    } else {
        seq![]
    }) + (if deletions > 0 {
        ", "@ + pluralize_spec(deletions, "deletion(-)"@, "deletions(-)"@)
    } else {
        seq![]
    }) + "\n"@
}

fn render_summary_line(file_count: usize, insertions: u128, deletions: u128) -> (res: String)
    ensures
        res@ == summary_line_spec(file_count as nat, insertions as nat, deletions as nat),
{
    let files = pluralize(file_count as u128, "file", "files");
    let mut line = files;
    push_str(&mut line, " changed");
    if insertions > 0 {
        push_str(&mut line, ", ");
        let p = pluralize(insertions, "insertion(+)", "insertions(+)");
        push_str(&mut line, p.as_str());
    }
    if deletions > 0 {
        push_str(&mut line, ", ");
        let p = pluralize(deletions, "deletion(-)", "deletions(-)");
        push_str(&mut line, p.as_str());
    }
    push_char(&mut line, '\n');
    assert("\n"@ =~= seq!['\n']) by {
        reveal_strlit("\n");
    }
    line
}

/// The stats of `files`, in order.
pub open spec fn stats_of(files: Seq<StatEntry>) -> Seq<FileStat> {
    files.map_values(|f: StatEntry| entry_stat(f))
}

/// The sum of the insertions and of the deletions over `stats`.
pub open spec fn totals_spec(stats: Seq<FileStat>) -> (nat, nat)
    decreases stats.len(),
{
    if stats.len() == 0 {
        (0, 0)
    } else {
        let t = totals_spec(stats.drop_last());
        let c = changed_lines(stats.last());
        (t.0 + c.0, t.1 + c.1)
    }
}

/// The per-file lines of a diffstat.
pub open spec fn file_lines_spec(files: Seq<StatEntry>) -> Seq<char>
    decreases files.len(),
{
    if files.len() == 0 {
        seq![]
    } else {
        file_lines_spec(files.drop_last()) + file_line_spec(files.last().0, entry_stat(files.last()))
    }
}

/// The diffstat block: one line per file, then the totals line, `git --stat` style.
pub open spec fn diffstat_spec(files: Seq<StatEntry>) -> Seq<char> {
    let t = totals_spec(stats_of(files));
    file_lines_spec(files) + summary_line_spec(files.len(), t.0, t.1)
}

/// Render the diffstat block (one line per file, then a totals line), `git --stat` style.
pub fn render_diffstat(files: &[DiffStatInput]) -> (res: String)
    ensures
        res@ == diffstat_spec(input_entries(files@)),
{
    let ghost entries = input_entries(files@);
    let mut out = String::new();
    let mut insertions: u128 = 0;
    let mut deletions: u128 = 0;
    let mut i: usize = 0;
    while i < files.len()
        invariant
            i <= files@.len(),
            entries == input_entries(files@),
            out@ == file_lines_spec(entries.take(i as int)),
            (insertions as nat, deletions as nat) == totals_spec(stats_of(entries.take(i as int))),
            insertions <= i * 18446744073709551615u128,
            deletions <= i * 18446744073709551615u128,
        decreases files@.len() - i,
    {
        let ghost prefix = entries.take(i + 1);
        assert(prefix.drop_last() =~= entries.take(i as int));
        assert(stats_of(prefix).drop_last() =~= stats_of(entries.take(i as int)));
        assert(prefix.last() == input_entry(files@[i as int]));
        let stat = file_stat(&files[i]);
        let line = render_file_line(files[i].path, &stat);
        push_str(&mut out, line.as_str());
        match stat {
            FileStat::Text { insertions: ins, deletions: del } => {
                insertions = insertions + ins as u128;
                deletions = deletions + del as u128;
            },
            FileStat::Binary => {},
        }
        i = i + 1;
    }
    assert(entries.take(files@.len() as int) =~= entries);
    let summary = render_summary_line(files.len(), insertions, deletions);
    push_str(&mut out, summary.as_str());
    out
}

/// The diffstat totals add up: the totals over the files of `a` followed by those of `b` are
/// the totals over `a` plus the totals over `b`; in particular one more file adds exactly its
/// own insertions and deletions.
pub proof fn lemma_totals_add_up(a: Seq<FileStat>, b: Seq<FileStat>)
    ensures
        totals_spec(a + b).0 == totals_spec(a).0 + totals_spec(b).0,
        totals_spec(a + b).1 == totals_spec(a).1 + totals_spec(b).1,
        b.len() == 1 ==> totals_spec(a + b).0 == totals_spec(a).0 + changed_lines(b[0]).0
            && totals_spec(a + b).1 == totals_spec(a).1 + changed_lines(b[0]).1,
    decreases b.len(),
{
    if b.len() > 0 {
        lemma_totals_add_up(a, b.drop_last());
        assert((a + b).drop_last() =~= a + b.drop_last());
        assert((a + b).last() == b.last());
        if b.len() == 1 {
            assert(b.drop_last() =~= Seq::<FileStat>::empty());
            assert(a + b.drop_last() =~= a);
        }
    } else {
        assert(a + b =~= a);
    }
}

} // verus!
