//! Relative path newtype with a single normalization rule.

use vstd::prelude::*;

use crate::error::VaultError;
use crate::paths::{
    is_absolute_spec, join_spec, kept_piece, path_components, path_components_of, path_join,
    string_views,
};
use crate::text::{join_slash, join_with_slash, lemma_split_nonempty, split_on, split_spec};

verus! {

/// A vault-relative path, normalized to forward slashes and UTF-8.
#[derive(Debug, Clone, PartialEq, Eq, Hash, PartialOrd, Ord)]
pub struct RelPath(String);

impl View for RelPath {
    type V = Seq<char>;

    closed spec fn view(&self) -> Seq<char> {
        self.0@
    }
}

/// Whether `prefix` is a prefix of `s`, element by element.
pub open spec fn is_prefix_of<T>(prefix: Seq<T>, s: Seq<T>) -> bool {
    prefix.len() <= s.len() && s.take(prefix.len() as int) == prefix
}

/// The normalized form of a relative path: its components joined with `/`.
pub open spec fn normalize_spec(rel: Seq<char>) -> Seq<char> {
    join_slash(path_components_of(rel))
}

/// The path `abs` relative to `worktree`, when `worktree`'s components begin `abs`'s.
pub open spec fn relative_to_spec(worktree: Seq<char>, abs: Seq<char>) -> Option<Seq<char>> {
    let wc = path_components_of(worktree);
    let ac = path_components_of(abs);
    if is_prefix_of(wc, ac) {
        Some(join_slash(ac.skip(wc.len() as int)))
    } else {
        None
    }
}

/// The platform path built by pushing each segment in turn onto an empty path.
pub open spec fn push_all_spec(segments: Seq<Seq<char>>) -> Seq<char>
    decreases segments.len(),
{
    if segments.len() == 0 {
        seq![]
    } else {
        join_spec(push_all_spec(segments.drop_last()), segments.last())
    }
}

impl RelPath {
    /// Build a relative path from an absolute path under `worktree`.
    ///
    /// Returns [`VaultError::PathOutsideWorktree`] when `abs` is not under `worktree`
    /// (compared component by component).
    pub fn from_worktree(worktree: &str, abs: &str) -> (res: Result<Self, VaultError>)
        ensures
            relative_to_spec(worktree@, abs@) matches Some(r) ==> (res matches Ok(p) && p@ == r),
            relative_to_spec(worktree@, abs@) is None ==> (res matches Err(
                VaultError::PathOutsideWorktree { path },
            ) && path@ == abs@),
    {
        let wc = path_components(worktree);
        let ac = path_components(abs);
        let ghost wv = string_views(wc@);
        let ghost av = string_views(ac@);
        if wc.len() > ac.len() {
            return Err(VaultError::PathOutsideWorktree { path: String::from_str(abs) });
        }
        let mut i: usize = 0;
        while i < wc.len()
            invariant
                i <= wc.len() <= ac.len(),
                wv == string_views(wc@),
                av == string_views(ac@),
                wv == path_components_of(worktree@),
                av == path_components_of(abs@),
                forall|j: int| 0 <= j < i ==> wv[j] == av[j],
            decreases wc.len() - i,
        {
            if !(wc[i] == ac[i]) {
                assert(wv[i as int] == wc@[i as int]@);
                assert(av[i as int] == ac@[i as int]@);
                assert(av.take(wv.len() as int)[i as int] != wv[i as int]);
                assert(!is_prefix_of(wv, av));
                return Err(VaultError::PathOutsideWorktree { path: String::from_str(abs) });
            }
            i = i + 1;
        }
        assert(av.take(wv.len() as int) =~= wv);
        let mut rest: Vec<String> = Vec::new();
        let mut k: usize = wc.len();
        while k < ac.len()
            invariant
                wc.len() <= k <= ac.len(),
                av == string_views(ac@),
                string_views(rest@) == av.subrange(wc.len() as int, k as int),
            decreases ac.len() - k,
        {
            let ghost before = string_views(rest@);
            rest.push(ac[k].clone());
            assert(av[k as int] == ac@[k as int]@);
            assert(string_views(rest@) =~= before.push(av[k as int]));
            assert(string_views(rest@) =~= av.subrange(wc.len() as int, k + 1));
            k = k + 1;
        }
        assert(av.skip(wv.len() as int) =~= av.subrange(wc.len() as int, ac.len() as int));
        Ok(RelPath(join_with_slash(&rest)))
    }

    /// Build from a path already relative to the vault worktree: its components joined with
    /// `/`. Always succeeds for UTF-8 input.
    pub fn from_rel(rel: &str) -> (res: Result<Self, VaultError>)
        ensures
            res matches Ok(p) && p@ == normalize_spec(rel@),
    {
        let parts = path_components(rel);
        Ok(RelPath(join_with_slash(&parts)))
    }

    /// Convert to a platform path for filesystem operations: the `/`-separated segments
    /// pushed in turn onto an empty path.
    pub fn to_path(&self) -> (res: String)
        ensures
            res@ == push_all_spec(split_spec(self@, '/')),
    {
        let segments = split_on(self.0.as_str(), '/');
        let ghost views = string_views(segments@);
        let mut path = String::new();
        let mut i: usize = 0;
        while i < segments.len()
            invariant
                i <= segments.len(),
                views == string_views(segments@),
                path@ == push_all_spec(views.take(i as int)),
            decreases segments.len() - i,
        {
            path = path_join(path.as_str(), segments[i].as_str());
            assert(views.take(i + 1).drop_last() =~= views.take(i as int));
            i = i + 1;
        }
        assert(views.take(segments.len() as int) =~= views);
        path
    }

    /// Parse a stored path string (e.g. from `SQLite`).
    pub fn parse(s: &str) -> (res: Self)
        ensures
            res@ == s@,
    {
        RelPath(String::from_str(s))
    }

    /// Return the normalized forward-slash path.
    pub fn as_str(&self) -> (res: &str)
        ensures
            res@ == self@,
    {
        self.0.as_str()
    }

    /// An independent copy of this path.
    pub fn duplicate(&self) -> (res: Self)
        ensures
            res@ == self@,
    {
        RelPath(self.0.clone())
    }
}

/// A normal path component: not empty, holding no `/`, and neither `.` nor `..`.
pub open spec fn is_normal_component(c: Seq<char>) -> bool {
    c.len() > 0 && !c.contains('/') && c != "."@ && c != ".."@
}

proof fn lemma_split_without_separator(c: Seq<char>)
    requires
        !c.contains('/'),
    ensures
        split_spec(c, '/') == seq![c],
    decreases c.len(),
{
    if c.len() == 0 {
        assert(c =~= Seq::<char>::empty());
    } else {
        let d = c.drop_last();
        assert(!d.contains('/')) by {
            if d.contains('/') {
                let k = choose|k: int| 0 <= k < d.len() && d[k] == '/';
                assert(c[k] == '/');
            }
        }
        lemma_split_without_separator(d);
        assert(c.last() != '/') by {
            if c.last() == '/' {
                assert(c[c.len() - 1] == '/');
            }
        }
        assert(d.push(c.last()) =~= c);
        assert(seq![d].update(0, d.push(c.last())) =~= seq![c]);
    }
}

proof fn lemma_split_after_separator(a: Seq<char>, c: Seq<char>)
    requires
        !c.contains('/'),
    ensures
        split_spec(a + seq!['/'] + c, '/') == split_spec(a, '/').push(c),
    decreases c.len(),
{
    let s = a + seq!['/'] + c;
    lemma_split_nonempty(a, '/');
    if c.len() == 0 {
        assert(s.drop_last() =~= a);
        assert(s.last() == '/');
        assert(c =~= Seq::<char>::empty());
    } else {
        let d = c.drop_last();
        assert(!d.contains('/')) by {
            if d.contains('/') {
                let k = choose|k: int| 0 <= k < d.len() && d[k] == '/';
                assert(c[k] == '/');
            }
        }
        lemma_split_after_separator(a, d);
        assert(s.drop_last() =~= a + seq!['/'] + d);
        assert(s.last() == c.last());
        assert(c.last() != '/') by {
            if c.last() == '/' {
                assert(c[c.len() - 1] == '/');
            }
        }
        let rest = split_spec(a, '/').push(d);
        assert(d.push(c.last()) =~= c);
        assert(rest.update(rest.len() - 1, rest.last().push(c.last())) =~= split_spec(a, '/').push(c));
    }
}

proof fn lemma_join_shape(cs: Seq<Seq<char>>)
    requires
        cs.len() >= 1,
        forall|i: int| 0 <= i < cs.len() ==> (#[trigger] cs[i]).len() > 0,
    ensures
        join_slash(cs).len() > 0,
        join_slash(cs)[0] == cs[0][0],
        join_slash(cs).last() == cs.last().last(),
    decreases cs.len(),
{
    if cs.len() > 1 {
        let dl = cs.drop_last();
        lemma_join_shape(dl);
        assert(dl[0] == cs[0]);
        let j = join_slash(dl) + seq!['/'] + cs.last();
        assert(j[0] == join_slash(dl)[0]);
        assert(j.last() == cs.last().last());
    }
}

proof fn lemma_split_of_join(cs: Seq<Seq<char>>)
    requires
        cs.len() >= 1,
        forall|i: int| 0 <= i < cs.len() ==> !(#[trigger] cs[i]).contains('/'),
    ensures
        split_spec(join_slash(cs), '/') == cs,
    decreases cs.len(),
{
    if cs.len() == 1 {
        lemma_split_without_separator(cs[0]);
        assert(seq![cs[0]] =~= cs);
    } else {
        let dl = cs.drop_last();
        assert forall|i: int| 0 <= i < dl.len() implies !(#[trigger] dl[i]).contains('/') by {
            assert(dl[i] == cs[i]);
        }
        lemma_split_of_join(dl);
        assert(!cs.last().contains('/')) by {
            assert(cs.last() == cs[cs.len() - 1]);
        }
        lemma_split_after_separator(join_slash(dl), cs.last());
        assert(dl.push(cs.last()) =~= cs);
    }
}

proof fn lemma_push_all_of_join(cs: Seq<Seq<char>>)
    requires
        forall|i: int| 0 <= i < cs.len() ==> (#[trigger] cs[i]).len() > 0 && !cs[i].contains('/'),
    ensures
        push_all_spec(cs) == join_slash(cs),
    decreases cs.len(),
{
    if cs.len() > 0 {
        let dl = cs.drop_last();
        assert forall|i: int| 0 <= i < dl.len() implies (#[trigger] dl[i]).len() > 0 && !dl[i].contains('/') by {
            assert(dl[i] == cs[i]);
        }
        lemma_push_all_of_join(dl);
        let t = cs.last();
        assert(t == cs[cs.len() - 1]);
        assert(!is_absolute_spec(t)) by {
            if is_absolute_spec(t) {
                assert(t[0] == '/');
            }
        }
        if cs.len() == 1 {
            assert(Seq::<char>::empty() + t =~= t);
        } else {
            assert forall|i: int| 0 <= i < dl.len() implies (#[trigger] dl[i]).len() > 0 by {
                assert(dl[i] == cs[i]);
            }
            lemma_join_shape(dl);
            let b = dl.last();
            assert(b == cs[cs.len() - 2]);
            assert(join_slash(dl).last() != '/') by {
                if b.last() == '/' {
                    assert(b[b.len() - 1] == '/');
                }
            }
        }
    }
}

proof fn lemma_filter_keeps_all(cs: Seq<Seq<char>>)
    requires
        forall|i: int| 0 <= i < cs.len() ==> (kept_piece())(#[trigger] cs[i]),
    ensures
        cs.filter(kept_piece()) == cs,
    decreases cs.len(),
{
    reveal(Seq::filter);
    if cs.len() > 0 {
        let dl = cs.drop_last();
        assert forall|i: int| 0 <= i < dl.len() implies (kept_piece())(#[trigger] dl[i]) by {
            assert(dl[i] == cs[i]);
        }
        lemma_filter_keeps_all(dl);
        assert(cs.last() == cs[cs.len() - 1]);
        assert(dl.push(cs.last()) =~= cs);
    }
}

proof fn lemma_components_of_join(cs: Seq<Seq<char>>)
    requires
        forall|i: int| 0 <= i < cs.len() ==> is_normal_component(#[trigger] cs[i]),
    ensures
        path_components_of(join_slash(cs)) == cs,
{
    reveal_strlit(".");
    reveal(Seq::filter);
    let q = join_slash(cs);
    if cs.len() == 0 {
        let pieces = split_spec(q, '/');
        assert(pieces == seq![Seq::<char>::empty()]);
        assert(pieces.drop_last() =~= Seq::<Seq<char>>::empty());
        assert(pieces[0] != "."@);
        let none = Seq::<Seq<char>>::empty();
        assert(none.filter(kept_piece()) == none);
        assert(pieces.drop_last().filter(kept_piece()) == none);
        assert(!(kept_piece())(pieces.last()));
        assert(pieces.filter(kept_piece()) == pieces.drop_last().filter(kept_piece()));
    } else {
        assert forall|i: int| 0 <= i < cs.len() implies (#[trigger] cs[i]).len() > 0 by {
            assert(is_normal_component(cs[i]));
        }
        assert forall|i: int| 0 <= i < cs.len() implies !(#[trigger] cs[i]).contains('/') by {
            assert(is_normal_component(cs[i]));
        }
        assert forall|i: int| 0 <= i < cs.len() implies (kept_piece())(#[trigger] cs[i]) by {
            assert(is_normal_component(cs[i]));
        }
        lemma_join_shape(cs);
        lemma_split_of_join(cs);
        assert(is_normal_component(cs[0]));
        assert(q[0] != '/') by {
            if cs[0][0] == '/' {
                assert(cs[0].contains('/'));
            }
        }
        lemma_filter_keeps_all(cs);
    }
}

/// Converting a relative path to a platform path and back gives it again: for a path `p` whose
/// components are all normal names (no root, no `.` or `..`), the platform path that
/// [`RelPath::to_path`] builds from the normalized form of `p` normalizes, as
/// [`RelPath::from_rel`] does, to that same form.
pub proof fn lemma_to_path_round_trip(p: Seq<char>)
    requires
        forall|i: int| 0 <= i < path_components_of(p).len() ==> is_normal_component(
            #[trigger] path_components_of(p)[i],
        ),
    ensures
        normalize_spec(push_all_spec(split_spec(normalize_spec(p), '/'))) == normalize_spec(p),
{
    let cs = path_components_of(p);
    let r = join_slash(cs);
    lemma_components_of_join(cs);
    if cs.len() == 0 {
        assert(r =~= Seq::<char>::empty());
        assert(split_spec(r, '/') == seq![Seq::<char>::empty()]);
        let one = seq![Seq::<char>::empty()];
        assert(one.drop_last() =~= Seq::<Seq<char>>::empty());
        assert(push_all_spec(one.drop_last()) == Seq::<char>::empty());
        assert(one.last() == Seq::<char>::empty());
        assert(push_all_spec(one) == join_spec(Seq::<char>::empty(), Seq::<char>::empty()));
        assert(Seq::<char>::empty() + Seq::<char>::empty() =~= Seq::<char>::empty());
    } else {
        assert forall|i: int| 0 <= i < cs.len() implies !(#[trigger] cs[i]).contains('/') by {
            assert(is_normal_component(cs[i]));
        }
        assert forall|i: int| 0 <= i < cs.len() implies (#[trigger] cs[i]).len() > 0 && !cs[i].contains('/') by {
            assert(is_normal_component(cs[i]));
        }
        lemma_split_of_join(cs);
        lemma_push_all_of_join(cs);
    }
}

} // verus!
