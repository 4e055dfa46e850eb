//! Human-readable summary of a snapshot's file changes.
//!
//! Shared by the write path (which prefixes this with `vault: ` to build the real git commit
//! message) and the read path (`log`/`show` rendering), so the line `vault log` prints for a
//! commit can never drift from that commit's actual message.

use vstd::prelude::*;

use crate::domain::change::{FileChange, FileEventKind};
use crate::text::{chars_of, decimal, push_str, push_u64};

verus! {

/// Human verb for a single file-event kind.
pub open spec fn verb_spec(kind: FileEventKind) -> Seq<char> {
    match kind {
        FileEventKind::Create => "update"@,
        FileEventKind::Modify => "update"@,
        FileEventKind::Delete => "delete"@,
        FileEventKind::Restore => "restore"@,
    }
}

/// Whether every change in `changes` has the kind of the first one.
pub open spec fn uniform_kind(changes: Seq<FileChange>) -> bool {
    forall|i: int| 0 <= i < changes.len() ==> (#[trigger] changes[i]).kind == changes[0].kind
}

/// The verb of a batch: the shared verb of a uniform batch, `change` otherwise.
pub open spec fn batch_verb_spec(changes: Seq<FileChange>) -> Seq<char> {
    if uniform_kind(changes) {
        verb_spec(changes[0].kind)
    } else {
        "change"@
    }
}

/// Everything of a snapshot message before its `" @ "` separator.
pub open spec fn message_head(changes: Seq<FileChange>) -> Seq<char> {
    if changes.len() == 1 {
        verb_spec(changes[0].kind) + " "@ + changes[0].rel@
    } else {
        batch_verb_spec(changes) + " "@ + decimal(changes.len()) + " files"@
    }
}

/// The one-line summary of a snapshot holding `changes`, taken at `created_at`.
pub open spec fn snapshot_message_spec(changes: Seq<FileChange>, created_at: Seq<char>) -> Seq<char> {
    message_head(changes) + " @ "@ + created_at
}

/// The prefix the write path puts before a snapshot message in the git commit.
pub open spec fn commit_prefix() -> Seq<char> {
    "vault: "@
}

/// Whether the separator `" @ "` starts at index `i` of `m`.
pub open spec fn is_sep_at(m: Seq<char>, i: int) -> bool {
    &&& 0 <= i
    &&& i + 3 <= m.len()
    &&& m[i] == ' '
    &&& m[i + 1] == '@'
    &&& m[i + 2] == ' '
}

/// The largest index below `k` where the separator starts, or `-1` when there is none.
pub open spec fn last_sep_before(m: Seq<char>, k: int) -> int
    decreases k,
{
    if k <= 0 {
        -1
    } else if is_sep_at(m, k - 1) {
        k - 1
    } else {
        last_sep_before(m, k - 1)
    }
}

/// What follows the last `" @ "` of `m`, or `None` when `m` holds no separator.
pub open spec fn parse_created_at_spec(m: Seq<char>) -> Option<Seq<char>> {
    let i = last_sep_before(m, m.len() as int);
    if i < 0 {
        None
    } else {
        Some(m.subrange(i + 3, m.len() as int))
    }
}

/// Rust's `char::is_whitespace`: the Unicode `White_Space` property.
pub open spec fn is_whitespace(c: char) -> bool {
    let u = c as u32;
    ||| 0x9 <= u <= 0xd
    ||| u == 0x20
    ||| u == 0x85
    ||| u == 0xa0
    ||| u == 0x1680
    ||| 0x2000 <= u <= 0x200a
    ||| u == 0x2028
    ||| u == 0x2029
    ||| u == 0x202f
    ||| u == 0x205f
    ||| u == 0x3000
}

/// The first index at or after `i` that does not hold whitespace (or `s.len()`).
pub open spec fn skip_whitespace(s: Seq<char>, i: int) -> int
    decreases s.len() - i,
{
    if i >= s.len() {
        s.len() as int
    } else if is_whitespace(s[i]) {
        skip_whitespace(s, i + 1)
    } else {
        i
    }
}

/// The first index at or after `i` that holds whitespace (or `s.len()`).
pub open spec fn token_end(s: Seq<char>, i: int) -> int
    decreases s.len() - i,
{
    if i >= s.len() {
        s.len() as int
    } else if is_whitespace(s[i]) {
        i
    } else {
        token_end(s, i + 1)
    }
}

/// `m` without a leading `"vault: "`, when it has one.
pub open spec fn strip_commit_prefix(m: Seq<char>) -> Seq<char> {
    if m.len() >= 7 && m.take(7) == commit_prefix() {
        m.skip(7)
    } else {
        m
    }
}

/// The offset at which `strip_commit_prefix(m)` starts inside `m`.
pub open spec fn commit_prefix_len(m: Seq<char>) -> int {
    if m.len() >= 7 && m.take(7) == commit_prefix() {
        7
    } else {
        0
    }
}

/// The first whitespace-separated word of `m` after an optional `"vault: "`.
pub open spec fn parse_single_verb_spec(m: Seq<char>) -> Option<Seq<char>> {
    let s = strip_commit_prefix(m);
    let start = skip_whitespace(s, 0);
    if start >= s.len() {
        None
    } else {
        Some(s.subrange(start, token_end(s, start)))
    }
}

/// Human verb for a single file-event kind.
pub fn verb_for(kind: FileEventKind) -> (res: &'static str)
    ensures
        res@ == verb_spec(kind),
{
    match kind {
        FileEventKind::Create => "update",
        FileEventKind::Modify => "update",
        FileEventKind::Delete => "delete",
        FileEventKind::Restore => "restore",
    }
}

fn single_change_message(change: &FileChange, created_at: &str) -> (res: String)
    ensures
        res@ == verb_spec(change.kind) + " "@ + change.rel@ + " @ "@ + created_at@,
{
    let mut s = String::from_str(verb_for(change.kind));
    push_str(&mut s, " ");
    push_str(&mut s, change.rel.as_str());
    push_str(&mut s, " @ ");
    push_str(&mut s, created_at);
    s
}

fn batch_verb(changes: &[FileChange]) -> (res: &'static str)
    requires
        changes@.len() >= 1,
    ensures
        res@ == batch_verb_spec(changes@),
{
    let first = changes[0].kind;
    let mut i: usize = 0;
    while i < changes.len()
        invariant
            i <= changes@.len(),
            changes@.len() >= 1,
            first == changes@[0].kind,
            forall|j: int| 0 <= j < i ==> (#[trigger] changes@[j]).kind == first,
        decreases changes@.len() - i,
    {
        if changes[i].kind != first {
            assert(!uniform_kind(changes@));
            return "change";
        }
        i = i + 1;
    }
    verb_for(first)
}

/// Build the one-line summary for a snapshot's `changes`.
///
/// A single change reads as `"{verb} {path} @ {created_at}"`. A uniform-kind batch reads as
/// `"{verb} {N} files @ {created_at}"`; a batch mixing kinds reads as
/// `"change {N} files @ {created_at}"` rather than overclaiming a single verb.
pub fn snapshot_message(changes: &[FileChange], created_at: &str) -> (res: String)
    requires
        changes@.len() >= 1,
    ensures
        res@ == snapshot_message_spec(changes@, created_at@),
{
    if changes.len() == 1 {
        single_change_message(&changes[0], created_at)
    } else {
        let mut s = String::from_str(batch_verb(changes));
        push_str(&mut s, " ");
        push_u64(&mut s, changes.len() as u64);
        push_str(&mut s, " files");
        push_str(&mut s, " @ ");
        push_str(&mut s, created_at);
        s
    }
}

/// Recover the `created_at` a [`snapshot_message`]-built commit message ends with: what
/// follows the last `" @ "` in `message`, or `None` when there is no such separator.
pub fn parse_created_at(message: &str) -> (res: Option<&str>)
    ensures
        res is Some == parse_created_at_spec(message@) is Some,
        res matches Some(r) ==> r@ == parse_created_at_spec(message@)->0,
{
    let chars = chars_of(message);
    let n = chars.len();
    let mut k: usize = n;
    while k > 0
        invariant
            k <= n,
            n == message@.len(),
            chars@ == message@,
            last_sep_before(message@, n as int) == last_sep_before(message@, k as int),
        decreases k,
    {
        let i = k - 1;
        if n - i >= 3 && chars[i] == ' ' && chars[i + 1] == '@' && chars[i + 2] == ' ' {
            assert(is_sep_at(message@, i as int));
            return Some(message.substring_char(i + 3, n));
        }
        k = i;
    }
    None
}

/// Rust's `char::is_whitespace`.
fn whitespace(c: char) -> (res: bool)
    ensures
        res == is_whitespace(c),
{
    let u = c as u32;
    (0x9 <= u && u <= 0xd) || u == 0x20 || u == 0x85 || u == 0xa0 || u == 0x1680 || (0x2000 <= u
        && u <= 0x200a) || u == 0x2028 || u == 0x2029 || u == 0x202f || u == 0x205f || u == 0x3000
}

/// Recover the verb a single-change commit's message opens with, tolerating the `"vault: "`
/// prefix of the raw git commit message. Returns `None` for a message holding no word.
pub fn parse_single_verb(message: &str) -> (res: Option<&str>)
    ensures
        res is Some == parse_single_verb_spec(message@) is Some,
        res matches Some(r) ==> r@ == parse_single_verb_spec(message@)->0,
{
    let chars = chars_of(message);
    let n = chars.len();
    let ghost m = message@;
    let mut offset: usize = 0;
    if n >= 7 && chars[0] == 'v' && chars[1] == 'a' && chars[2] == 'u' && chars[3] == 'l' && chars[4]
        == 't' && chars[5] == ':' && chars[6] == ' ' {
        offset = 7;
    }
    proof {
        reveal_strlit("vault: ");
        if n >= 7 {
            if offset == 7 {
                assert(m.take(7) =~= commit_prefix());
            } else {
                if m.take(7) == commit_prefix() {
                    assert(m.take(7)[0] == 'v' && m.take(7)[1] == 'a' && m.take(7)[2] == 'u');
                    assert(m.take(7)[3] == 'l' && m.take(7)[4] == 't' && m.take(7)[5] == ':');
                    assert(m.take(7)[6] == ' ');
                    assert(false);
                }
            }
        }
        assert(commit_prefix_len(m) == offset);
    }
    let ghost s = strip_commit_prefix(m);
    assert(s =~= m.subrange(offset as int, n as int));
    let mut start: usize = offset;
    while start < n && whitespace(chars[start])
        invariant
            offset <= start <= n,
            n == m.len(),
            chars@ == m,
            s == m.subrange(offset as int, n as int),
            skip_whitespace(s, 0) == skip_whitespace(s, start - offset),
        decreases n - start,
    {
        start = start + 1;
    }
    if start >= n {
        return None;
    }
    let mut end: usize = start;
    while end < n && !whitespace(chars[end])
        invariant
            offset <= start <= end <= n,
            n == m.len(),
            chars@ == m,
            s == m.subrange(offset as int, n as int),
            token_end(s, start - offset) == token_end(s, end - offset),
        decreases n - end,
    {
        end = end + 1;
    }
    assert(s.subrange(start - offset, end - offset) =~= m.subrange(start as int, end as int));
    Some(message.substring_char(start, end))
}

/// In positions `[j, k)` of `m` no separator starts, so the search below `k` ends as the
/// search below `j` does.
proof fn lemma_last_sep_skip(m: Seq<char>, j: int, k: int)
    requires
        0 <= j <= k,
        forall|i: int| j <= i < k ==> !is_sep_at(m, i),
    ensures
        last_sep_before(m, k) == last_sep_before(m, j),
    decreases k - j,
{
    if k > j {
        lemma_last_sep_skip(m, j, k - 1);
    }
}

/// A message `head + " @ " + t` parses back to `t` when `t` holds no `'@'`.
pub proof fn lemma_parse_created_at_after_head(head: Seq<char>, t: Seq<char>)
    requires
        !t.contains('@'),
    ensures
        parse_created_at_spec(head + " @ "@ + t) == Some(t),
{
    reveal_strlit(" @ ");
    let m = head + " @ "@ + t;
    let h = head.len() as int;
    assert forall|i: int| h + 1 <= i < m.len() implies !is_sep_at(m, i) by {
        if is_sep_at(m, i) {
            if i == h + 1 {
                assert(m[i] == '@');
            } else {
                assert(m[i + 1] == t[i + 1 - h - 3]);
                assert(t.contains('@'));
            }
        }
    }
    lemma_last_sep_skip(m, h + 1, m.len() as int);
    assert(is_sep_at(m, h));
    assert(m.subrange(h + 3, m.len() as int) =~= t);
}

/// `parse_created_at` inverts `snapshot_message`, with or without the `"vault: "` prefix of
/// the commit message, for every timestamp that holds no `'@'`.
pub proof fn lemma_created_at_round_trip(changes: Seq<FileChange>, created_at: Seq<char>)
    requires
        changes.len() >= 1,
        !created_at.contains('@'),
    ensures
        parse_created_at_spec(snapshot_message_spec(changes, created_at)) == Some(created_at),
        parse_created_at_spec(commit_prefix() + snapshot_message_spec(changes, created_at))
            == Some(created_at),
{
    lemma_parse_created_at_after_head(message_head(changes), created_at);
    assert(commit_prefix() + snapshot_message_spec(changes, created_at) =~= (commit_prefix()
        + message_head(changes)) + " @ "@ + created_at);
    lemma_parse_created_at_after_head(commit_prefix() + message_head(changes), created_at);
}

proof fn lemma_verb_shape(kind: FileEventKind)
    ensures
        verb_spec(kind).len() >= 1,
        verb_spec(kind)[0] != 'v',
        forall|i: int| 0 <= i < verb_spec(kind).len() ==> !is_whitespace(#[trigger] verb_spec(kind)[i]),
{
    reveal_strlit("update");
    reveal_strlit("delete");
    reveal_strlit("restore");
}

proof fn lemma_token_end_over_word(s: Seq<char>, w: int, i: int)
    requires
        0 <= i <= w < s.len(),
        is_whitespace(s[w]),
        forall|j: int| i <= j < w ==> !is_whitespace(#[trigger] s[j]),
    ensures
        token_end(s, i) == w,
    decreases w - i,
{
    if i < w {
        lemma_token_end_over_word(s, w, i + 1);
    }
}

proof fn lemma_first_word(verb: Seq<char>, rest: Seq<char>)
    requires
        verb.len() >= 1,
        forall|i: int| 0 <= i < verb.len() ==> !is_whitespace(#[trigger] verb[i]),
    ensures
        ({
            let s = verb + " "@ + rest;
            skip_whitespace(s, 0) == 0 && token_end(s, 0) == verb.len() && s.subrange(0, verb.len() as int) == verb
        }),
{
    reveal_strlit(" ");
    let s = verb + " "@ + rest;
    assert(s[0] == verb[0]);
    assert(s[verb.len() as int] == ' ');
    assert forall|j: int| 0 <= j < verb.len() implies !is_whitespace(#[trigger] s[j]) by {
        assert(s[j] == verb[j]);
    }
    lemma_token_end_over_word(s, verb.len() as int, 0);
    assert(s.subrange(0, verb.len() as int) =~= verb);
}

/// The verb of a single-change message is recovered by `parse_single_verb`, with or without
/// the `"vault: "` prefix of the commit message.
pub proof fn lemma_single_verb_round_trip(change: FileChange, created_at: Seq<char>)
    ensures
        parse_single_verb_spec(snapshot_message_spec(seq![change], created_at)) == Some(
            verb_spec(change.kind),
        ),
        parse_single_verb_spec(commit_prefix() + snapshot_message_spec(seq![change], created_at))
            == Some(verb_spec(change.kind)),
{
    reveal_strlit("vault: ");
    let verb = verb_spec(change.kind);
    let rest = change.rel@ + " @ "@ + created_at;
    let m = snapshot_message_spec(seq![change], created_at);
    lemma_verb_shape(change.kind);
    assert(m =~= verb + " "@ + rest);
    lemma_first_word(verb, rest);
    if m.len() >= 7 && m.take(7) == commit_prefix() {
        assert(m.take(7)[0] == 'v');
        assert(m[0] == verb[0]);
    }
    assert(strip_commit_prefix(m) == m);
    let pm = commit_prefix() + m;
    assert(pm.take(7) =~= commit_prefix());
    assert(pm.skip(7) =~= m);
    assert(strip_commit_prefix(pm) == m);
}

/// A batch message names one kind's verb only when every change of the batch has that kind:
/// a batch of two or more holding two changes of different kinds reads `change N files`, and
/// a batch whose changes all share one kind reads with that kind's verb.
pub proof fn lemma_batch_verb_needs_one_kind(changes: Seq<FileChange>, i: int, j: int)
    requires
        changes.len() >= 2,
        0 <= i < changes.len(),
        0 <= j < changes.len(),
    ensures
        changes[i].kind != changes[j].kind ==> batch_verb_spec(changes) == "change"@
            && message_head(changes) == "change"@ + " "@ + decimal(changes.len()) + " files"@,
        (forall|k: int| 0 <= k < changes.len() ==> (#[trigger] changes[k]).kind == changes[i].kind)
            ==> message_head(changes) == verb_spec(changes[i].kind) + " "@ + decimal(changes.len())
            + " files"@,
{
    if changes[i].kind != changes[j].kind {
        assert(!uniform_kind(changes)) by {
            if uniform_kind(changes) {
                assert(changes[i].kind == changes[0].kind);
                assert(changes[j].kind == changes[0].kind);
            }
        }
    }
    if forall|k: int| 0 <= k < changes.len() ==> (#[trigger] changes[k]).kind == changes[i].kind {
        assert(changes[0].kind == changes[i].kind);
        assert(uniform_kind(changes));
    }
}

} // verus!
