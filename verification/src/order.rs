//! Lexicographic order on strings and the sort-and-deduplicate step that the
//! language server applies to its lists of names.
use vstd::prelude::*;
use crate::text::{at_lit, to_chars};

verus! {

/// Lexicographic order on characters (code point order, which is the byte
/// order of the UTF-8 encodings that `String`'s `Ord` compares).
pub open spec fn lex_lt(a: Seq<char>, b: Seq<char>) -> bool
    decreases a.len(),
{
    if a.len() == 0 {
        b.len() > 0
    } else if b.len() == 0 {
        false
    } else if a[0] != b[0] {
        a[0] < b[0]
    } else {
        lex_lt(a.drop_first(), b.drop_first())
    }
}

/// Every element is strictly below every later one: sorted, no repeats.
pub open spec fn strictly_sorted(v: Seq<Seq<char>>) -> bool {
    forall|i: int, j: int| 0 <= i < j < v.len() ==> lex_lt(#[trigger] v[i], #[trigger] v[j])
}

pub proof fn lemma_lex_irreflexive(a: Seq<char>)
    ensures
        !lex_lt(a, a),
    decreases a.len(),
{
    if a.len() > 0 {
        lemma_lex_irreflexive(a.drop_first());
    }
}

pub proof fn lemma_lex_transitive(a: Seq<char>, b: Seq<char>, c: Seq<char>)
    requires
        lex_lt(a, b),
        lex_lt(b, c),
    ensures
        lex_lt(a, c),
    decreases a.len(),
{
    if a.len() > 0 && b.len() > 0 && c.len() > 0 {
        if a[0] == b[0] && b[0] == c[0] {
            lemma_lex_transitive(a.drop_first(), b.drop_first(), c.drop_first());
        }
    }
}

pub proof fn lemma_lex_total(a: Seq<char>, b: Seq<char>)
    requires
        a != b,
    ensures
        lex_lt(a, b) || lex_lt(b, a),
    decreases a.len(),
{
    if a.len() > 0 && b.len() > 0 && a[0] == b[0] {
        if a.drop_first() == b.drop_first() {
            assert(a =~= seq![a[0]] + a.drop_first());
            assert(b =~= seq![b[0]] + b.drop_first());
        }
        lemma_lex_total(a.drop_first(), b.drop_first());
    } else if a.len() == 0 && b.len() == 0 {
        assert(a =~= b);
    }
}

pub proof fn lemma_lex_asymmetric(a: Seq<char>, b: Seq<char>)
    requires
        lex_lt(a, b),
    ensures
        !lex_lt(b, a),
{
    if lex_lt(b, a) {
        lemma_lex_transitive(a, b, a);
        lemma_lex_irreflexive(a);
    }
}

/// Whether `a` comes strictly before `b`.
pub fn lex_less(a: &Vec<char>, b: &Vec<char>) -> (r: bool)
    ensures
        r == lex_lt(a@, b@),
{
    let mut k: usize = 0;
    assert(a@.skip(0) =~= a@);
    assert(b@.skip(0) =~= b@);
    while k < a.len() && k < b.len() && a[k] == b[k]
        invariant
            k <= a@.len(),
            k <= b@.len(),
            lex_lt(a@.skip(k as int), b@.skip(k as int)) == lex_lt(a@, b@),
        decreases a@.len() - k,
    {
        assert(a@.skip(k as int).drop_first() =~= a@.skip(k + 1));
        assert(b@.skip(k as int).drop_first() =~= b@.skip(k + 1));
        k = k + 1;
    }
    if k == a.len() {
        k < b.len()
    } else if k == b.len() {
        false
    } else {
        a[k] < b[k]
    }
}

/// Whether the two character sequences are equal.
pub fn chars_eq(a: &Vec<char>, b: &Vec<char>) -> (r: bool)
    ensures
        r == (a@ == b@),
{
    if a.len() != b.len() {
        return false;
    }
    assert(a@.subrange(0, a@.len() as int) =~= a@);
    at_lit(a, 0, b)
}

/// The distinct values of `v`, in ascending order (`sort` followed by `dedup`).
pub fn sort_dedup(v: Vec<String>) -> (r: Vec<String>)
    ensures
        strictly_sorted(r.deep_view()),
        forall|x: Seq<char>| r.deep_view().contains(x) <==> v.deep_view().contains(x),
{
    let mut out: Vec<String> = Vec::new();
    let mut keys: Vec<Vec<char>> = Vec::new();
    let mut idx: usize = 0;
    while idx < v.len()
        invariant
            idx <= v@.len(),
            keys@.len() == out@.len(),
            forall|i: int| 0 <= i < keys@.len() ==> (#[trigger] keys@[i])@ == out@[i]@,
            strictly_sorted(out.deep_view()),
            forall|x: Seq<char>|
                out.deep_view().contains(x) <==> v.deep_view().take(idx as int).contains(x),
        decreases v@.len() - idx,
    {
        let x = v[idx].clone();
        let kx = to_chars(x.as_str());
        let ghost xs = x@;
        assert(v.deep_view()[idx as int] == xs);
        assert(v.deep_view().take(idx + 1) =~= v.deep_view().take(idx as int).push(xs));
        let mut p: usize = 0;
        while p < keys.len() && lex_less(&keys[p], &kx)
            invariant
                p <= keys@.len(),
                keys@.len() == out@.len(),
                forall|i: int| 0 <= i < keys@.len() ==> (#[trigger] keys@[i])@ == out@[i]@,
                kx@ == xs,
                forall|i: int| 0 <= i < p ==> lex_lt(#[trigger] out.deep_view()[i], xs),
            decreases keys@.len() - p,
        {
            assert(out.deep_view()[p as int] == keys@[p as int]@);
            p = p + 1;
        }
        let ghost before = out.deep_view();
        if p < keys.len() && chars_eq(&keys[p], &kx) {
            assert(before[p as int] == xs);
            assert(before.contains(xs));
        } else {
            proof {
                if p < keys@.len() {
                    assert(before[p as int] == keys@[p as int]@);
                    assert(!lex_lt(before[p as int], xs));
                    lemma_lex_total(before[p as int], xs);
                    assert(lex_lt(xs, before[p as int]));
                }
                assert forall|j: int| p <= j < before.len() implies lex_lt(xs, #[trigger] before[j]) by {
                    if j > p {
                        lemma_lex_transitive(xs, before[p as int], before[j]);
                    }
                }
                assert(!before.contains(xs)) by {
                    if before.contains(xs) {
                        let j = choose|j: int| 0 <= j < before.len() && before[j] == xs;
                        if j < p {
                            lemma_lex_irreflexive(xs);
                        } else {
                            lemma_lex_irreflexive(xs);
                        }
                    }
                }
            }
            out.insert(p, x);
            keys.insert(p, kx);
            let ghost after = out.deep_view();
            assert(after =~= before.insert(p as int, xs));
            assert forall|i: int, j: int| 0 <= i < j < after.len() implies lex_lt(
                #[trigger] after[i],
                #[trigger] after[j],
            ) by {
                if j < p {
                    assert(after[i] == before[i] && after[j] == before[j]);
                } else if j == p {
                    assert(after[i] == before[i]);
                } else if i < p {
                    assert(after[i] == before[i] && after[j] == before[j - 1]);
                    lemma_lex_transitive(before[i], xs, before[j - 1]);
                } else if i == p {
                    assert(after[j] == before[j - 1]);
                } else {
                    assert(after[i] == before[i - 1] && after[j] == before[j - 1]);
                }
            }
            assert forall|x: Seq<char>| after.contains(x) <==> before.contains(x) || x == xs by {
                if after.contains(x) {
                    let j = choose|j: int| 0 <= j < after.len() && after[j] == x;
                    if j < p {
                        assert(before[j] == x);
                    } else if j > p {
                        assert(before[j - 1] == x);
                    }
                }
                if before.contains(x) {
                    let j = choose|j: int| 0 <= j < before.len() && before[j] == x;
                    if j < p {
                        assert(after[j] == x);
                    } else {
                        assert(after[j + 1] == x);
                    }
                }
                if x == xs {
                    assert(after[p as int] == x);
                }
            }
            assert forall|i: int| 0 <= i < keys@.len() implies (#[trigger] keys@[i])@ == out@[i]@ by {
                assert(out@[i]@ == after[i]);
            }
        }
        proof {
            let pre = v.deep_view().take(idx as int);
            assert forall|x: Seq<char>| pre.push(xs).contains(x) <==> pre.contains(x) || x == xs by {
                if pre.push(xs).contains(x) {
                    let j = choose|j: int| 0 <= j < pre.len() + 1 && pre.push(xs)[j] == x;
                    if j < pre.len() {
                        assert(pre[j] == x);
                    }
                }
                if pre.contains(x) {
                    let j = choose|j: int| 0 <= j < pre.len() && pre[j] == x;
                    assert(pre.push(xs)[j] == x);
                }
                if x == xs {
                    assert(pre.push(xs)[pre.len() as int] == x);
                }
            }
        }
        idx = idx + 1;
    }
    assert(v.deep_view().take(v@.len() as int) =~= v.deep_view());
    out
}

} // verus!
