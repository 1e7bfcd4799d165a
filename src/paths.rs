//! Paths are modelled as their text (`Seq<char>`), split on `/`. All handling
//! here is lexical: nothing touches the filesystem.
use crate::text::{
    joined_with, lemma_split_append, lemma_split_no_sep, lemma_split_single, split_on,
    split_text, texts,
};
use vstd::prelude::*;

verus! {

/// The pieces of `p` between `/` separators, in order, empty pieces included
/// (`"/a//b"` has the pieces `""`, `"a"`, `""`, `"b"`).
pub open spec fn pieces(p: Seq<char>) -> Seq<Seq<char>> {
    split_on(p, '/')
}

pub open spec fn is_cur_dir(s: Seq<char>) -> bool {
    s == seq!['.']
}

pub open spec fn is_parent_dir(s: Seq<char>) -> bool {
    s == seq!['.', '.']
}

/// A path is absolute when it starts at the root.
pub open spec fn is_absolute(p: Seq<char>) -> bool {
    p.len() > 0 && p[0] == '/'
}

/// The named components among `ps`: empty pieces and `.` carry no name.
pub open spec fn components(ps: Seq<Seq<char>>) -> Seq<Seq<char>>
    decreases ps.len(),
{
    if ps.len() == 0 {
        Seq::empty()
    } else {
        let front = components(ps.drop_last());
        let s = ps.last();
        if s.len() == 0 || is_cur_dir(s) {
            front
        } else {
            front.push(s)
        }
    }
}

pub open spec fn path_components(p: Seq<char>) -> Seq<Seq<char>> {
    components(pieces(p))
}

/// `p` lies under `root`, component by component: both are absolute or both
/// relative, and the components of `root` begin those of `p`.
pub open spec fn starts_with_path(p: Seq<char>, root: Seq<char>) -> bool {
    &&& is_absolute(p) == is_absolute(root)
    &&& path_components(root).is_prefix_of(path_components(p))
}

/// What one piece does to the components kept so far: an empty piece and `.`
/// change nothing, `..` drops the last one (there is nothing above the root to
/// climb to), any other piece is kept.
pub open spec fn collapse(stack: Seq<Seq<char>>, s: Seq<char>) -> Seq<Seq<char>> {
    if s.len() == 0 || is_cur_dir(s) {
        stack
    } else if is_parent_dir(s) {
        if stack.len() > 0 {
            stack.drop_last()
        } else {
            stack
        }
    } else {
        stack.push(s)
    }
}

/// The components left after collapsing the pieces `ps` from left to right.
pub open spec fn collapsed(ps: Seq<Seq<char>>) -> Seq<Seq<char>>
    decreases ps.len(),
{
    if ps.len() == 0 {
        Seq::empty()
    } else {
        collapse(collapsed(ps.drop_last()), ps.last())
    }
}

/// The components `comps` written one after another with `/` between them.
pub open spec fn joined(comps: Seq<Seq<char>>) -> Seq<char> {
    joined_with(comps, seq!['/'])
}

/// The text of a path made of `comps`, from the root when `absolute`.
pub open spec fn render(absolute: bool, comps: Seq<Seq<char>>) -> Seq<char> {
    if absolute {
        seq!['/'] + joined(comps)
    } else {
        joined(comps)
    }
}

/// The lexical normal form of `p`: `.` dropped, each `..` collapsed against the
/// component before it, the root kept.
pub open spec fn normalized(p: Seq<char>) -> Seq<char> {
    render(is_absolute(p), collapsed(pieces(p)))
}

/// `rel` appended to `base` as a path: an absolute `rel` replaces `base`, and
/// one separator stands between the two.
pub open spec fn joined_path(base: Seq<char>, rel: Seq<char>) -> Seq<char> {
    if is_absolute(rel) {
        rel
    } else if base.len() == 0 || base.last() == '/' {
        base + rel
    } else {
        base + seq!['/'] + rel
    }
}

fn is_absolute_text(p: &str) -> (r: bool)
    ensures
        r == is_absolute(p@),
{
    p.unicode_len() > 0 && p.get_char(0) == '/'
}

fn is_cur_dir_text(s: &str) -> (r: bool)
    ensures
        r == is_cur_dir(s@),
{
    if s.unicode_len() == 1 && s.get_char(0) == '.' {
        assert(s@ =~= seq!['.']);
        true
    } else {
        false
    }
}

fn is_parent_dir_text(s: &str) -> (r: bool)
    ensures
        r == is_parent_dir(s@),
{
    if s.unicode_len() == 2 && s.get_char(0) == '.' && s.get_char(1) == '.' {
        assert(s@ =~= seq!['.', '.']);
        true
    } else {
        false
    }
}

/// The named components of `p`, in order.
pub fn component_list(p: &str) -> (r: Vec<String>)
    ensures
        texts(r@) == path_components(p@),
{
    let ps = split_text(p, '/');
    let mut out: Vec<String> = Vec::new();
    let mut k: usize = 0;
    proof {
        assert(texts(ps@).take(0) =~= Seq::<Seq<char>>::empty());
        assert(texts(out@) =~= Seq::<Seq<char>>::empty());
    }
    while k < ps.len()
        invariant
            k <= ps.len(),
            texts(out@) == components(texts(ps@).take(k as int)),
        decreases ps.len() - k,
    {
        let s = &ps[k];
        proof {
            assert(texts(ps@).take(k as int + 1).drop_last() =~= texts(ps@).take(k as int));
        }
        if s.unicode_len() == 0 || is_cur_dir_text(s.as_str()) {
        } else {
            let c = s.clone();
            proof {
                assert(texts(out@.push(c)) =~= texts(out@).push(c@));
            }
            out.push(c);
        }
        k = k + 1;
    }
    proof {
        assert(texts(ps@).take(ps.len() as int) =~= texts(ps@));
    }
    out
}

/// Writes `comps` out as a path, from the root when `absolute`.
pub fn render_path(absolute: bool, comps: &Vec<String>) -> (r: String)
    ensures
        r@ == render(absolute, texts(comps@)),
{
    proof {
        reveal_strlit("/");
    }
    let mut out = if absolute {
        String::from_str("/")
    } else {
        String::new()
    };
    let mut k: usize = 0;
    proof {
        assert(texts(comps@).take(0) =~= Seq::<Seq<char>>::empty());
        assert("/"@ =~= seq!['/']);
        assert(out@ =~= render(absolute, Seq::<Seq<char>>::empty()));
    }
    while k < comps.len()
        invariant
            k <= comps.len(),
            "/"@ == seq!['/'],
            out@ == render(absolute, texts(comps@).take(k as int)),
        decreases comps.len() - k,
    {
        let ghost before = texts(comps@).take(k as int);
        let ghost after = texts(comps@).take(k as int + 1);
        proof {
            assert(after.drop_last() =~= before);
        }
        if k > 0 {
            out.append("/");
        }
        out.append(comps[k].as_str());
        assert(out@ =~= render(absolute, after));
        k = k + 1;
    }
    proof {
        assert(texts(comps@).take(comps.len() as int) =~= texts(comps@));
    }
    out
}

/// The lexical normal form of `path`: `.` components dropped, each `..`
/// collapsed against the component before it, the root kept. Nothing on disk is
/// consulted, so the path need not exist.
pub fn normalize_path(path: &str) -> (r: String)
    ensures
        r@ == normalized(path@),
{
    let ps = split_text(path, '/');
    let mut stack: Vec<String> = Vec::new();
    let mut k: usize = 0;
    proof {
        assert(texts(ps@).take(0) =~= Seq::<Seq<char>>::empty());
        assert(texts(stack@) =~= Seq::<Seq<char>>::empty());
    }
    while k < ps.len()
        invariant
            k <= ps.len(),
            texts(stack@) == collapsed(texts(ps@).take(k as int)),
        decreases ps.len() - k,
    {
        let s = &ps[k];
        proof {
            assert(texts(ps@).take(k as int + 1).drop_last() =~= texts(ps@).take(k as int));
        }
        if s.unicode_len() == 0 || is_cur_dir_text(s.as_str()) {
        } else if is_parent_dir_text(s.as_str()) {
            if stack.len() > 0 {
                proof {
                    assert(texts(stack@.drop_last()) =~= texts(stack@).drop_last());
                }
                stack.pop();
            }
        } else {
            let c = s.clone();
            proof {
                assert(texts(stack@.push(c)) =~= texts(stack@).push(c@));
            }
            stack.push(c);
        }
        k = k + 1;
    }
    proof {
        assert(texts(ps@).take(ps.len() as int) =~= texts(ps@));
    }
    render_path(is_absolute_text(path), &stack)
}

/// `rel` appended to `base` as a path.
pub fn join_path(base: &str, rel: &str) -> (r: String)
    ensures
        r@ == joined_path(base@, rel@),
{
    proof {
        reveal_strlit("/");
        assert("/"@ =~= seq!['/']);
    }
    if is_absolute_text(rel) {
        return String::from_str(rel);
    }
    let n = base.unicode_len();
    let mut out = String::from_str(base);
    if n > 0 && base.get_char(n - 1) != '/' {
        out.append("/");
    }
    out.append(rel);
    out
}

/// Whether `p` lies under `root`, compared component by component.
pub fn path_starts_with(p: &str, root: &str) -> (r: bool)
    ensures
        r == starts_with_path(p@, root@),
{
    if is_absolute_text(p) != is_absolute_text(root) {
        return false;
    }
    let pc = component_list(p);
    let rc = component_list(root);
    if rc.len() > pc.len() {
        assert(texts(rc@).len() > texts(pc@).len());
        assert(!path_components(root@).is_prefix_of(path_components(p@)));
        return false;
    }
    let mut i: usize = 0;
    while i < rc.len()
        invariant
            i <= rc.len() <= pc.len(),
            texts(rc@) == path_components(root@),
            texts(pc@) == path_components(p@),
            is_absolute(p@) == is_absolute(root@),
            forall|j: int| 0 <= j < i ==> rc@[j]@ == pc@[j]@,
        decreases rc.len() - i,
    {
        if !(rc[i] == pc[i]) {
            assert(texts(rc@)[i as int] != texts(pc@).subrange(0, rc.len() as int)[i as int]);
            return false;
        }
        i = i + 1;
    }
    assert(texts(rc@) =~= texts(pc@).subrange(0, rc.len() as int));
    true
}

/// What is left of `p` after the components of `root`, as a relative path.
pub open spec fn relative_to(p: Seq<char>, root: Seq<char>) -> Seq<char> {
    joined(path_components(p).skip(path_components(root).len() as int))
}

/// `p` relative to `root`, which it lies under.
pub fn relative_path(p: &str, root: &str) -> (r: String)
    requires
        starts_with_path(p@, root@),
    ensures
        r@ == relative_to(p@, root@),
{
    let pc = component_list(p);
    let rc = component_list(root);
    let mut rest: Vec<String> = Vec::new();
    let mut k: usize = rc.len();
    assert(texts(rc@).len() <= texts(pc@).len());
    while k < pc.len()
        invariant
            rc.len() <= k <= pc.len(),
            texts(rest@) =~= texts(pc@).subrange(rc.len() as int, k as int),
        decreases pc.len() - k,
    {
        let c = pc[k].clone();
        proof {
            assert(texts(rest@.push(c)) =~= texts(rest@).push(c@));
        }
        rest.push(c);
        k = k + 1;
    }
    assert(texts(rest@) =~= path_components(p@).skip(path_components(root@).len() as int));
    render_path(false, &rest)
}

/// A component that survives parsing as itself: not empty, not `.`, no `/`.
pub open spec fn is_plain(s: Seq<char>) -> bool {
    s.len() > 0 && !is_cur_dir(s) && !s.contains('/')
}

proof fn lemma_pieces_of_joined(c: Seq<Seq<char>>)
    requires
        c.len() >= 1,
        forall|i: int| 0 <= i < c.len() ==> !(#[trigger] c[i]).contains('/'),
    ensures
        pieces(joined(c)) == c,
    decreases c.len(),
{
    if c.len() == 1 {
        lemma_split_single(c[0], '/');
        assert(seq![c[0]] =~= c);
    } else {
        let c1 = c.drop_last();
        lemma_pieces_of_joined(c1);
        assert(c[c.len() - 1] == c.last());
        lemma_split_single(c.last(), '/');
        lemma_split_append(joined(c1), c.last(), '/');
        assert(c1 + seq![c.last()] =~= c);
    }
}

proof fn lemma_components_plain(c: Seq<Seq<char>>)
    requires
        forall|i: int| 0 <= i < c.len() ==> is_plain(#[trigger] c[i]),
    ensures
        components(c) == c,
    decreases c.len(),
{
    if c.len() > 0 {
        lemma_components_plain(c.drop_last());
        assert(is_plain(c[c.len() - 1]));
        assert(c.drop_last().push(c.last()) =~= c);
    }
}

proof fn lemma_components_after_root(c: Seq<Seq<char>>)
    ensures
        components(seq![Seq::<char>::empty()] + c) == components(c),
    decreases c.len(),
{
    let e = Seq::<char>::empty();
    if c.len() == 0 {
        assert(seq![e] + c =~= seq![e]);
        assert(seq![e].drop_last() =~= Seq::<Seq<char>>::empty());
        assert(components(seq![e]) == components(seq![e].drop_last()));
        assert(components(c) =~= Seq::<Seq<char>>::empty());
    } else {
        lemma_components_after_root(c.drop_last());
        assert((seq![e] + c).drop_last() =~= seq![e] + c.drop_last());
        assert((seq![e] + c).last() == c.last());
        assert(components(seq![e] + c) == {
            let front = components((seq![e] + c).drop_last());
            let l = (seq![e] + c).last();
            if l.len() == 0 || is_cur_dir(l) {
                front
            } else {
                front.push(l)
            }
        });
    }
}

proof fn lemma_render_absolute(c: Seq<Seq<char>>)
    requires
        forall|i: int| 0 <= i < c.len() ==> is_plain(#[trigger] c[i]),
    ensures
        is_absolute(render(true, c)),
        path_components(render(true, c)) == c,
{
    let e = Seq::<char>::empty();
    let j = joined(c);
    assert(render(true, c) =~= e + seq!['/'] + j);
    lemma_split_append(e, j, '/');
    assert(pieces(e) == seq![e]);
    lemma_components_after_root(pieces(j));
    if c.len() == 0 {
        assert(j =~= e);
        assert(components(seq![e]) == components(seq![e].drop_last()));
        assert(seq![e].drop_last() =~= Seq::<Seq<char>>::empty());
        assert(c =~= Seq::<Seq<char>>::empty());
    } else {
        assert forall|i: int| 0 <= i < c.len() implies !(#[trigger] c[i]).contains('/') by {
            assert(is_plain(c[i]));
        }
        lemma_pieces_of_joined(c);
        lemma_components_plain(c);
    }
}

proof fn lemma_collapsed_plain(ps: Seq<Seq<char>>)
    requires
        forall|i: int| 0 <= i < ps.len() ==> !(#[trigger] ps[i]).contains('/'),
    ensures
        forall|i: int| 0 <= i < collapsed(ps).len() ==> is_plain(#[trigger] collapsed(ps)[i]),
    decreases ps.len(),
{
    if ps.len() > 0 {
        let front = ps.drop_last();
        assert forall|i: int| 0 <= i < front.len() implies !(#[trigger] front[i]).contains('/') by {
            assert(front[i] == ps[i]);
        }
        lemma_collapsed_plain(front);
        assert(!ps[ps.len() - 1].contains('/'));
        assert(ps[ps.len() - 1] == ps.last());
        let st = collapsed(front);
        let r = collapsed(ps);
        assert forall|i: int| 0 <= i < r.len() implies is_plain(#[trigger] r[i]) by {
            if i < st.len() {
                assert(r[i] == st[i]);
            }
        }
    }
}

/// The lexical normal form of an absolute path passes the containment check
/// exactly when the components of `root` begin its collapsed components: the
/// check on the text says what it should of the path it denotes, and a path
/// whose `..` climb above `root` is refused.
pub proof fn lemma_normalized_confinement(p: Seq<char>, root: Seq<char>)
    requires
        is_absolute(p),
        is_absolute(root),
    ensures
        starts_with_path(normalized(p), root) <==> path_components(root).is_prefix_of(
            collapsed(pieces(p)),
        ),
{
    lemma_split_no_sep(p, '/');
    lemma_collapsed_plain(pieces(p));
    lemma_render_absolute(collapsed(pieces(p)));
}

} // verus!
