//! Character sequences: searching and rewriting.
//!
//! Every rule of this library that looks at a path does so through the
//! functions of this module. A text is modelled as its sequence of
//! characters, `Seq<char>`, which is the view of `str` and `String`.

use vstd::prelude::*;
use vstd::std_specs::iter::IteratorSpec;

verus! {

/// `p` stands in `s` at index `i`.
pub open spec fn occurs_at(s: Seq<char>, p: Seq<char>, i: int) -> bool {
    0 <= i && i + p.len() <= s.len() && s.subrange(i, i + p.len()) == p
}

/// `p` stands somewhere in `s`. The empty text stands in every text.
pub open spec fn contains(s: Seq<char>, p: Seq<char>) -> bool {
    exists|i: int| occurs_at(s, p, i)
}

/// `s` begins with `p`.
pub open spec fn starts_with(s: Seq<char>, p: Seq<char>) -> bool {
    occurs_at(s, p, 0)
}

/// `s` ends with `p`.
pub open spec fn ends_with(s: Seq<char>, p: Seq<char>) -> bool {
    occurs_at(s, p, s.len() - p.len())
}

/// The part of `s` from index `i` on, with every occurrence of `from`
/// replaced by `to`. Occurrences are taken from the left and do not
/// overlap. An empty `from` occurs nowhere, so nothing is replaced.
pub open spec fn replace_from(s: Seq<char>, from: Seq<char>, to: Seq<char>, i: int) -> Seq<char>
    decreases s.len() - i,
{
    if i < 0 || i > s.len() {
        Seq::empty()
    } else if from.len() == 0 || i + from.len() > s.len() {
        s.subrange(i, s.len() as int)
    } else if occurs_at(s, from, i) {
        to + replace_from(s, from, to, i + from.len())
    } else {
        seq![s[i]] + replace_from(s, from, to, i + 1)
    }
}

/// `s` with every occurrence of `from` replaced by `to`.
pub open spec fn replace_all(s: Seq<char>, from: Seq<char>, to: Seq<char>) -> Seq<char> {
    replace_from(s, from, to, 0)
}

/// The views of a list of strings.
pub open spec fn texts(v: Seq<String>) -> Seq<Seq<char>> {
    Seq::new(v.len(), |i: int| v[i]@)
}

/// The characters of `s`, in order.
pub fn chars_of(s: &str) -> (out: Vec<char>)
    ensures
        out@ == s@,
{
    broadcast use vstd::string::group_string_axioms;

    let mut out: Vec<char> = Vec::new();
    let mut it = s.chars();
    loop
        invariant
            it.obeys_prophetic_iter_laws(),
            it.decrease() is Some,
            out@ + it.remaining() == s@,
        ensures
            out@ == s@,
        decreases it.decrease()->0,
    {
        match it.next() {
            Some(c) => {
                out.push(c);
            },
            None => {
                break;
            },
        }
    }
    out
}

/// Whether `needle` stands in `hay` at index `i`.
pub fn matches_at(hay: &Vec<char>, needle: &Vec<char>, i: usize) -> (r: bool)
    ensures
        r == occurs_at(hay@, needle@, i as int),
{
    if needle.len() > hay.len() || i > hay.len() - needle.len() {
        return false;
    }
    let mut k: usize = 0;
    while k < needle.len()
        invariant
            k <= needle.len(),
            i + needle.len() <= hay.len(),
            forall|j: int| 0 <= j < k ==> hay@[i + j] == needle@[j],
        decreases needle.len() - k,
    {
        if hay[i + k] != needle[k] {
            proof {
                let sub = hay@.subrange(i as int, i + needle@.len());
                assert(sub[k as int] == hay@[i + k]);
            }
            return false;
        }
        k += 1;
    }
    assert(hay@.subrange(i as int, i + needle@.len()) =~= needle@);
    true
}

/// The first index from `start` on at which `needle` stands in `hay`.
pub fn find(hay: &Vec<char>, needle: &Vec<char>, start: usize) -> (r: Option<usize>)
    ensures
        match r {
            Some(i) => start <= i && occurs_at(hay@, needle@, i as int) && forall|j: int|
                start <= j < i ==> !occurs_at(hay@, needle@, j),
            None => forall|j: int| start <= j ==> !occurs_at(hay@, needle@, j),
        },
{
    if needle.len() > hay.len() {
        return None;
    }
    let last: usize = hay.len() - needle.len();
    let mut i: usize = start;
    while i <= last
        invariant
            start <= i,
            last == hay.len() - needle.len(),
            forall|j: int| start <= j < i ==> !occurs_at(hay@, needle@, j),
        decreases last + 1 - i,
    {
        if matches_at(hay, needle, i) {
            return Some(i);
        }
        if i == last {
            return None;
        }
        i += 1;
    }
    None
}

/// Whether `needle` stands somewhere in `hay`.
pub fn str_contains(hay: &str, needle: &str) -> (r: bool)
    ensures
        r == contains(hay@, needle@),
{
    let h = chars_of(hay);
    let n = chars_of(needle);
    find(&h, &n, 0).is_some()
}

/// Whether `s` begins with `prefix`.
pub fn str_starts_with(s: &str, prefix: &str) -> (r: bool)
    ensures
        r == starts_with(s@, prefix@),
{
    let h = chars_of(s);
    let n = chars_of(prefix);
    matches_at(&h, &n, 0)
}

/// Whether `a` and `b` hold the same characters.
pub fn str_eq(a: &str, b: &str) -> (r: bool)
    ensures
        r == (a@ == b@),
{
    let x = chars_of(a);
    let y = chars_of(b);
    let r = x.len() == y.len() && matches_at(&x, &y, 0);
    proof {
        if x@.len() == y@.len() {
            assert(x@.subrange(0, x@.len() as int) =~= x@);
        }
    }
    r
}

/// `a` followed by `b`.
pub fn concat2(a: &str, b: &str) -> (r: String)
    ensures
        r@ == a@ + b@,
{
    String::from_str(a).concat(b)
}

/// `a`, `b` and `c` in a row.
pub fn concat3(a: &str, b: &str, c: &str) -> (r: String)
    ensures
        r@ == a@ + b@ + c@,
{
    String::from_str(a).concat(b).concat(c)
}

/// What `replace_from` yields at an index where `from` stands.
pub proof fn lemma_replace_step_hit(s: Seq<char>, from: Seq<char>, to: Seq<char>, i: int)
    requires
        from.len() > 0,
        occurs_at(s, from, i),
    ensures
        replace_from(s, from, to, i) == to + replace_from(s, from, to, i + from.len()),
{
}

/// What `replace_from` yields at an index where `from` does not stand.
pub proof fn lemma_replace_step_miss(s: Seq<char>, from: Seq<char>, to: Seq<char>, i: int)
    requires
        0 <= i < s.len(),
        !occurs_at(s, from, i),
    ensures
        replace_from(s, from, to, i) == seq![s[i]] + replace_from(s, from, to, i + 1),
{
    if from.len() == 0 || i + from.len() > s.len() {
        assert(replace_from(s, from, to, i + 1) == s.subrange(i + 1, s.len() as int));
        assert(s.subrange(i, s.len() as int) =~= seq![s[i]] + s.subrange(i + 1, s.len() as int));
    }
}

/// A text that stands at `i` carries its two halves with it.
pub proof fn lemma_occurs_parts(s: Seq<char>, a: Seq<char>, b: Seq<char>, i: int)
    requires
        occurs_at(s, a + b, i),
    ensures
        occurs_at(s, a, i),
        occurs_at(s, b, i + a.len()),
{
    let whole = s.subrange(i, i + (a + b).len());
    assert(whole.subrange(0, a.len() as int) =~= s.subrange(i, i + a.len()));
    assert(whole.subrange(a.len() as int, whole.len() as int) =~= s.subrange(
        i + a.len(),
        i + a.len() + b.len(),
    ));
    assert((a + b).subrange(0, a.len() as int) =~= a);
    assert((a + b).subrange(a.len() as int, (a + b).len() as int) =~= b);
}

/// A text that holds `a + b` holds `a` and holds `b`.
pub proof fn lemma_contains_parts(s: Seq<char>, a: Seq<char>, b: Seq<char>)
    requires
        contains(s, a + b),
    ensures
        contains(s, a),
        contains(s, b),
{
    let i = choose|i: int| occurs_at(s, a + b, i);
    lemma_occurs_parts(s, a, b, i);
}

/// `p` stands in `a + p + b` right behind `a`.
pub proof fn lemma_occurs_between(a: Seq<char>, p: Seq<char>, b: Seq<char>)
    ensures
        occurs_at(a + p + b, p, a.len() as int),
        contains(a + p + b, p),
{
    assert((a + p + b).subrange(a.len() as int, (a.len() + p.len()) as int) =~= p);
}

/// Where `from` stands nowhere from `i` on, nothing is replaced from `i` on.
pub proof fn lemma_replace_none(s: Seq<char>, from: Seq<char>, to: Seq<char>, i: int)
    requires
        0 <= i <= s.len(),
        forall|j: int| i <= j ==> !occurs_at(s, from, j),
    ensures
        replace_from(s, from, to, i) == s.subrange(i, s.len() as int),
    decreases s.len() - i,
{
    if from.len() == 0 || i + from.len() > s.len() {
    } else {
        lemma_replace_step_miss(s, from, to, i);
        lemma_replace_none(s, from, to, i + 1);
        assert(seq![s[i]] + s.subrange(i + 1, s.len() as int) =~= s.subrange(i, s.len() as int));
    }
}

/// Up to the first place `k` at which `from` stands, the text is kept; there
/// `to` is written, and the replacement goes on behind the occurrence.
pub proof fn lemma_replace_first(s: Seq<char>, from: Seq<char>, to: Seq<char>, i: int, k: int)
    requires
        from.len() > 0,
        0 <= i <= k,
        occurs_at(s, from, k),
        forall|j: int| i <= j < k ==> !occurs_at(s, from, j),
    ensures
        replace_from(s, from, to, i) == s.subrange(i, k) + to + replace_from(
            s,
            from,
            to,
            k + from.len(),
        ),
    decreases k - i,
{
    if i == k {
        lemma_replace_step_hit(s, from, to, k);
        assert(s.subrange(i, k) =~= Seq::<char>::empty());
        assert(Seq::<char>::empty() + to =~= to);
    } else {
        lemma_replace_step_miss(s, from, to, i);
        lemma_replace_first(s, from, to, i + 1, k);
        assert(seq![s[i]] + s.subrange(i + 1, k) =~= s.subrange(i, k));
        assert(seq![s[i]] + (s.subrange(i + 1, k) + to + replace_from(s, from, to, k + from.len()))
            =~= s.subrange(i, k) + to + replace_from(s, from, to, k + from.len()));
    }
}

/// A text without `from` is left as it is.
pub proof fn law_replace_without_occurrence(s: Seq<char>, from: Seq<char>, to: Seq<char>)
    requires
        !contains(s, from),
    ensures
        replace_all(s, from, to) == s,
{
    lemma_replace_none(s, from, to, 0);
    assert(s.subrange(0, s.len() as int) =~= s);
}

/// Where `from` stands in `s` at `k` and nowhere else, exactly these
/// characters give way to `to`: what stands before and behind them is kept
/// as it is.
pub proof fn law_replace_single_occurrence(s: Seq<char>, from: Seq<char>, to: Seq<char>, k: int)
    requires
        from.len() > 0,
        occurs_at(s, from, k),
        forall|j: int| occurs_at(s, from, j) ==> j == k,
    ensures
        replace_all(s, from, to) == s.subrange(0, k) + to + s.subrange(
            k + from.len(),
            s.len() as int,
        ),
{
    lemma_replace_first(s, from, to, 0, k);
    lemma_replace_none(s, from, to, k + from.len());
}

/// Replacing from an index on is replacing in what stands from there on.
pub proof fn lemma_replace_suffix(s: Seq<char>, from: Seq<char>, to: Seq<char>, i: int, j: int)
    requires
        0 <= i,
        0 <= j,
        i + j <= s.len(),
    ensures
        replace_from(s, from, to, i + j) == replace_from(s.skip(i), from, to, j),
    decreases s.len() - (i + j),
{
    let t = s.skip(i);
    if from.len() == 0 || i + j + from.len() > s.len() {
        assert(t.subrange(j, t.len() as int) =~= s.subrange(i + j, s.len() as int));
    } else {
        assert(t.subrange(j, j + from.len()) =~= s.subrange(i + j, i + j + from.len()));
        if occurs_at(s, from, i + j) {
            lemma_replace_suffix(s, from, to, i, j + from.len());
        } else {
            lemma_replace_suffix(s, from, to, i, j + 1);
        }
    }
}

/// The whole rule of `replace_all`, one occurrence at a time: the text
/// before the first occurrence is kept, `to` stands for the occurrence, and
/// the rest is treated in the same way.
pub proof fn law_replace_unfolds(s: Seq<char>, from: Seq<char>, to: Seq<char>, k: int)
    requires
        from.len() > 0,
        occurs_at(s, from, k),
        forall|j: int| 0 <= j < k ==> !occurs_at(s, from, j),
    ensures
        replace_all(s, from, to) == s.subrange(0, k) + to + replace_all(
            s.skip(k + from.len()),
            from,
            to,
        ),
{
    lemma_replace_first(s, from, to, 0, k);
    lemma_replace_suffix(s, from, to, k + from.len(), 0);
}

/// `s` with every occurrence of `from` replaced by `to`.
pub fn str_replace(s: &str, from: &str, to: &str) -> (r: String)
    ensures
        r@ == replace_all(s@, from@, to@),
{
    let h = chars_of(s);
    let n = chars_of(from);
    if n.len() == 0 || n.len() > h.len() {
        assert(s@.subrange(0, s@.len() as int) =~= s@);
        return String::from_str(s);
    }
    let mut out = String::new();
    let last: usize = h.len() - n.len();
    let mut kept: usize = 0;
    let mut i: usize = 0;
    while i <= last
        invariant
            h@ == s@,
            n@ == from@,
            n.len() > 0,
            last == h.len() - n.len(),
            kept <= i <= h.len(),
            replace_all(s@, from@, to@) == out@ + s@.subrange(kept as int, i as int)
                + replace_from(s@, from@, to@, i as int),
        decreases h.len() - i,
    {
        if matches_at(&h, &n, i) {
            out.append(s.substring_char(kept, i));
            out.append(to);
            proof {
                lemma_replace_step_hit(s@, from@, to@, i as int);
                assert(s@.subrange((i + n.len()) as int, (i + n.len()) as int) =~= Seq::<char>::empty());
            }
            i += n.len();
            kept = i;
        } else {
            proof {
                lemma_replace_step_miss(s@, from@, to@, i as int);
                assert(s@.subrange(kept as int, i as int) + seq![s@[i as int]] =~= s@.subrange(
                    kept as int,
                    i + 1,
                ));
            }
            i += 1;
        }
    }
    proof {
        assert(replace_from(s@, from@, to@, i as int) == s@.subrange(i as int, s@.len() as int));
        assert(s@.subrange(kept as int, i as int) + s@.subrange(i as int, s@.len() as int)
            =~= s@.subrange(kept as int, s@.len() as int));
    }
    out.append(s.substring_char(kept, h.len()));
    out
}

} // verus!
