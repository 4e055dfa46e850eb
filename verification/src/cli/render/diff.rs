//! Unified-diff rendering for `vault diff`, `log --verbose`, and `show`'s report mode.

use vstd::prelude::*;
use vstd::utf8::{decode_utf8, valid_utf8};

use crate::text::{push_str, utf8_text};

verus! {

/// The unified diff `similar` renders between the lines of `left` and `right`, under a
/// `---`/`+++` header naming `left_label` and `right_label`.
pub uninterp spec fn unified_diff_of(
    left: Seq<char>,
    right: Seq<char>,
    left_label: Seq<char>,
    right_label: Seq<char>,
) -> Seq<char>;

/// The line diff of `left` against `right` in unified format with the given header labels
/// (`similar::TextDiff::from_lines(..).unified_diff().header(..)`, rendered to a string).
/// The text depends on the four arguments alone: no timeout is configured.
#[verifier::external_body]
pub(crate) fn unified_diff(left: &str, right: &str, left_label: &str, right_label: &str) -> (res: String)
    ensures
        res@ == unified_diff_of(left@, right@, left_label@, right_label@),
{
    similar::TextDiff::from_lines(left, right).unified_diff().header(left_label, right_label).to_string()
}

/// Inputs for rendering one file's unified diff.
pub struct DiffInput<'a> {
    /// Path used in the binary-file notice (git's `a/<path>` / `b/<path>` wording).
    pub path: &'a str,
    /// Label for the `---` side of the unified-diff header.
    pub left_label: &'a str,
    /// Label for the `+++` side of the unified-diff header.
    pub right_label: &'a str,
    /// Content on the left, or `None` when the path did not exist on that side.
    pub left: Option<&'a [u8]>,
    /// Content on the right, or `None` when the path did not exist on that side.
    pub right: Option<&'a [u8]>,
}

/// The bytes of an optional slice, empty when absent.
pub open spec fn side_bytes(o: Option<&[u8]>) -> Seq<u8> {
    match o {
        Some(b) => b@,
        None => seq![],
    }
}

/// Git's literal notice for a binary file at `path`.
pub open spec fn binary_notice(path: Seq<char>) -> Seq<char> {
    "Binary files a/"@ + path + " and b/"@ + path + " differ\n"@
}

/// The rendering of one file's diff: the unified diff of both sides' text when both are
/// valid UTF-8 (an absent side is empty), git's binary notice otherwise.
pub open spec fn content_diff_spec(
    path: Seq<char>,
    left_label: Seq<char>,
    right_label: Seq<char>,
    left: Seq<u8>,
    right: Seq<u8>,
) -> Seq<char> {
    if valid_utf8(left) && valid_utf8(right) {
        unified_diff_of(decode_utf8(left), decode_utf8(right), left_label, right_label)
    } else {
        binary_notice(path)
    }
}

/// The text of both sides when each is valid UTF-8 (an absent side reads as empty).
pub(crate) fn text_pair<'a>(left: Option<&'a [u8]>, right: Option<&'a [u8]>) -> (res: Option<
    (&'a str, &'a str),
>)
    ensures
        res is Some <==> valid_utf8(side_bytes(left)) && valid_utf8(side_bytes(right)),
        res matches Some(p) ==> p.0@ == decode_utf8(side_bytes(left)) && p.1@ == decode_utf8(
            side_bytes(right),
        ),
{
    let empty: &'a [u8] = &[];
    let l = match left {
        Some(b) => b,
        None => empty,
    };
    let r = match right {
        Some(b) => b,
        None => empty,
    };
    let lt = utf8_text(l)?;
    let rt = utf8_text(r)?;
    Some((lt, rt))
}

/// Render a unified diff, or git's literal binary-file notice when either side isn't UTF-8.
pub fn render_content_diff(input: &DiffInput) -> (res: String)
    ensures
        res@ == content_diff_spec(
            input.path@,
            input.left_label@,
            input.right_label@,
            side_bytes(input.left),
            side_bytes(input.right),
        ),
{
    match text_pair(input.left, input.right) {
        Some((left_text, right_text)) => unified_diff(
            left_text,
            right_text,
            input.left_label,
            input.right_label,
        ),
        None => {
            let mut s = String::from_str("Binary files a/");
            push_str(&mut s, input.path);
            push_str(&mut s, " and b/");
            push_str(&mut s, input.path);
            push_str(&mut s, " differ\n");
            s
        },
    }
}

} // verus!
