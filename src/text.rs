//! Splitting text into pieces and words.
use crate::outside::{is_space, unicode_space};
use vstd::prelude::*;

verus! {

/// The view of each string of a sequence.
pub open spec fn texts(v: Seq<String>) -> Seq<Seq<char>> {
    v.map_values(|s: String| s@)
}

/// The pieces of `p` between occurrences of `sep`, in order, empty pieces
/// included: `k` separators give `k + 1` pieces.
pub open spec fn split_on(p: Seq<char>, sep: char) -> Seq<Seq<char>>
    decreases p.len(),
{
    if p.len() == 0 {
        seq![Seq::<char>::empty()]
    } else {
        let front = split_on(p.drop_last(), sep);
        if p.last() == sep {
            front.push(Seq::<char>::empty())
        } else {
            front.update(front.len() - 1, front.last().push(p.last()))
        }
    }
}

pub proof fn lemma_split_len(p: Seq<char>, sep: char)
    ensures
        split_on(p, sep).len() >= 1,
    decreases p.len(),
{
    if p.len() > 0 {
        lemma_split_len(p.drop_last(), sep);
    }
}

/// Splits `p` at each `sep`.
pub fn split_text(p: &str, sep: char) -> (r: Vec<String>)
    ensures
        texts(r@) == split_on(p@, sep),
{
    let n = p.unicode_len();
    let mut done: Vec<String> = Vec::new();
    let mut start: usize = 0;
    let mut i: usize = 0;
    proof {
        assert(p@.take(0) =~= Seq::<char>::empty());
        assert(texts(done@).push(p@.subrange(0, 0)) =~= seq![Seq::<char>::empty()]);
    }
    while i < n
        invariant
            n == p@.len(),
            start <= i <= n,
            split_on(p@.take(i as int), sep) == texts(done@).push(
                p@.subrange(start as int, i as int),
            ),
        decreases n - i,
    {
        let c = p.get_char(i);
        proof {
            let t = p@.take(i as int + 1);
            assert(t.drop_last() =~= p@.take(i as int));
            lemma_split_len(p@.take(i as int), sep);
        }
        if c == sep {
            let piece = String::from_str(p.substring_char(start, i));
            proof {
                assert(texts(done@.push(piece)) =~= texts(done@).push(piece@));
            }
            done.push(piece);
            start = i + 1;
            assert(p@.subrange(start as int, i as int + 1) =~= Seq::<char>::empty());
        } else {
            assert(p@.subrange(start as int, i as int + 1) =~= p@.subrange(
                start as int,
                i as int,
            ).push(c));
        }
        i = i + 1;
    }
    let last = String::from_str(p.substring_char(start, n));
    proof {
        assert(p@.take(n as int) =~= p@);
        assert(texts(done@.push(last)) =~= texts(done@).push(last@));
    }
    done.push(last);
    done
}

/// `w` is the first whitespace-delimited word of `s`: it starts at the first
/// character that is not whitespace and runs up to the next whitespace or the
/// end.
pub open spec fn is_first_word(s: Seq<char>, w: Seq<char>) -> bool {
    exists|a: int, b: int|
        #![trigger s.subrange(a, b)]
        {
            &&& 0 <= a < b <= s.len()
            &&& forall|j: int| 0 <= j < a ==> unicode_space(#[trigger] s[j])
            &&& forall|j: int| a <= j < b ==> !unicode_space(#[trigger] s[j])
            &&& (b == s.len() || unicode_space(s[b]))
            &&& w == s.subrange(a, b)
        }
}

/// The first whitespace-delimited word of `s`, or `None` when `s` holds only
/// whitespace.
pub fn first_word(s: &str) -> (r: Option<String>)
    ensures
        r is None <==> (forall|j: int| 0 <= j < s@.len() ==> unicode_space(#[trigger] s@[j])),
        r matches Some(w) ==> is_first_word(s@, w@),
{
    let n = s.unicode_len();
    let mut a: usize = 0;
    while a < n && is_space(s.get_char(a))
        invariant
            a <= n == s@.len(),
            forall|j: int| 0 <= j < a ==> unicode_space(#[trigger] s@[j]),
        decreases n - a,
    {
        a = a + 1;
    }
    if a == n {
        return None;
    }
    let mut b: usize = a + 1;
    while b < n && !is_space(s.get_char(b))
        invariant
            a < b <= n == s@.len(),
            !unicode_space(s@[a as int]),
            forall|j: int| a <= j < b ==> !unicode_space(#[trigger] s@[j]),
        decreases n - b,
    {
        b = b + 1;
    }
    let w = String::from_str(s.substring_char(a, b));
    assert(w@ == s@.subrange(a as int, b as int));
    Some(w)
}

/// The pieces `v` written one after another with `sep` between them.
pub open spec fn joined_with(v: Seq<Seq<char>>, sep: Seq<char>) -> Seq<char>
    decreases v.len(),
{
    if v.len() == 0 {
        Seq::empty()
    } else if v.len() == 1 {
        v[0]
    } else {
        joined_with(v.drop_last(), sep) + sep + v.last()
    }
}

/// Writes the strings of `v` one after another with `sep` between them.
pub fn join_texts(v: &Vec<String>, sep: &str) -> (r: String)
    ensures
        r@ == joined_with(texts(v@), sep@),
{
    let mut out = String::new();
    let mut k: usize = 0;
    proof {
        assert(texts(v@).take(0) =~= Seq::<Seq<char>>::empty());
    }
    while k < v.len()
        invariant
            k <= v.len(),
            out@ == joined_with(texts(v@).take(k as int), sep@),
        decreases v.len() - k,
    {
        let ghost after = texts(v@).take(k as int + 1);
        proof {
            assert(after.drop_last() =~= texts(v@).take(k as int));
        }
        if k > 0 {
            out.append(sep);
        }
        out.append(v[k].as_str());
        assert(out@ =~= joined_with(after, sep@));
        k = k + 1;
    }
    proof {
        assert(texts(v@).take(v.len() as int) =~= texts(v@));
    }
    out
}

/// A copy of `v`, string by string.
pub fn copy_texts(v: &Vec<String>) -> (r: Vec<String>)
    ensures
        texts(r@) == texts(v@),
{
    let mut out: Vec<String> = Vec::new();
    let mut k: usize = 0;
    while k < v.len()
        invariant
            k <= v.len(),
            texts(out@) =~= texts(v@).take(k as int),
        decreases v.len() - k,
    {
        let c = v[k].clone();
        proof {
            assert(texts(out@.push(c)) =~= texts(out@).push(c@));
        }
        out.push(c);
        k = k + 1;
    }
    assert(texts(v@).take(v.len() as int) =~= texts(v@));
    out
}

/// Splitting at a separator between `a` and `b` splits each side.
pub proof fn lemma_split_append(a: Seq<char>, b: Seq<char>, sep: char)
    ensures
        split_on(a + seq![sep] + b, sep) == split_on(a, sep) + split_on(b, sep),
    decreases b.len(),
{
    let whole = a + seq![sep] + b;
    if b.len() == 0 {
        assert(whole.drop_last() =~= a);
        assert(split_on(a, sep) + split_on(b, sep) =~= split_on(a, sep).push(Seq::<char>::empty()));
    } else {
        let b1 = b.drop_last();
        assert(whole.drop_last() =~= a + seq![sep] + b1);
        lemma_split_append(a, b1, sep);
        lemma_split_len(b1, sep);
        lemma_split_len(a, sep);
        if b.last() == sep {
            assert(split_on(a, sep) + split_on(b, sep) =~= (split_on(a, sep) + split_on(b1, sep)).push(
                Seq::<char>::empty(),
            ));
        } else {
            let f = split_on(a, sep) + split_on(b1, sep);
            assert(split_on(a, sep) + split_on(b, sep) =~= f.update(
                f.len() - 1,
                f.last().push(b.last()),
            ));
        }
    }
}

/// Text without the separator is a single piece.
pub proof fn lemma_split_single(b: Seq<char>, sep: char)
    requires
        !b.contains(sep),
    ensures
        split_on(b, sep) == seq![b],
    decreases b.len(),
{
    if b.len() > 0 {
        let b1 = b.drop_last();
        assert(!b1.contains(sep)) by {
            if b1.contains(sep) {
                let k = choose|k: int| 0 <= k < b1.len() && b1[k] == sep;
                assert(b[k] == sep);
            }
        }
        lemma_split_single(b1, sep);
        assert(b[b.len() - 1] == b.last());
        assert(b.last() != sep);
        assert(b1.push(b.last()) =~= b);
        assert(seq![b1].update(0, b1.push(b.last())) =~= seq![b]);
    } else {
        assert(b =~= Seq::<char>::empty());
    }
}

/// No piece holds the separator.
pub proof fn lemma_split_no_sep(p: Seq<char>, sep: char)
    ensures
        forall|i: int| 0 <= i < split_on(p, sep).len() ==> !(#[trigger] split_on(p, sep)[i]).contains(sep),
    decreases p.len(),
{
    if p.len() > 0 {
        lemma_split_no_sep(p.drop_last(), sep);
        lemma_split_len(p.drop_last(), sep);
        let front = split_on(p.drop_last(), sep);
        if p.last() != sep {
            let l = front.last().push(p.last());
            assert(!front[front.len() - 1].contains(sep));
            assert(!l.contains(sep)) by {
                if l.contains(sep) {
                    let k = choose|k: int| 0 <= k < l.len() && l[k] == sep;
                    if k < l.len() - 1 {
                        assert(front.last()[k] == sep);
                    }
                }
            }
        } else {
            assert(!Seq::<char>::empty().contains(sep));
        }
    }
}

} // verus!
