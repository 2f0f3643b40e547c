//! Lexicographic order on strings, and sorting by it.
use vstd::prelude::*;
use vstd::relations::{sorted_by, total_ordering};
use vstd::seq_lib::group_to_multiset_ensures;

use crate::text::chars_of;

verus! {

/// `a` comes before `b` or equals it, comparing characters by code point
/// (the order of `str`'s `Ord`, since UTF-8 keeps code-point order).
pub open spec fn lex_le(a: Seq<char>, b: Seq<char>) -> bool
    decreases a.len(),
{
    if a.len() == 0 {
        true
    } else if b.len() == 0 {
        false
    } else if a[0] != b[0] {
        a[0] < b[0]
    } else {
        lex_le(a.drop_first(), b.drop_first())
    }
}

/// `lex_le` as a relation.
pub open spec fn lex_order() -> spec_fn(Seq<char>, Seq<char>) -> bool {
    |a: Seq<char>, b: Seq<char>| lex_le(a, b)
}

/// The views of a list of strings.
pub open spec fn views(v: Seq<String>) -> Seq<Seq<char>> {
    v.map_values(|x: String| x@)
}

proof fn lemma_lex_reflexive(a: Seq<char>)
    ensures
        lex_le(a, a),
    decreases a.len(),
{
    if a.len() > 0 {
        lemma_lex_reflexive(a.drop_first());
    }
}

proof fn lemma_lex_antisymmetric(a: Seq<char>, b: Seq<char>)
    requires
        lex_le(a, b),
        lex_le(b, a),
    ensures
        a == b,
    decreases a.len(),
{
    if a.len() > 0 && b.len() > 0 {
        lemma_lex_antisymmetric(a.drop_first(), b.drop_first());
        assert(a =~= seq![a[0]] + a.drop_first());
        assert(b =~= seq![b[0]] + b.drop_first());
    }
}

proof fn lemma_lex_transitive(a: Seq<char>, b: Seq<char>, c: Seq<char>)
    requires
        lex_le(a, b),
        lex_le(b, c),
    ensures
        lex_le(a, c),
    decreases a.len(),
{
    if a.len() > 0 && b.len() > 0 && c.len() > 0 {
        if a[0] == b[0] && b[0] == c[0] {
            lemma_lex_transitive(a.drop_first(), b.drop_first(), c.drop_first());
        }
    }
}

proof fn lemma_lex_connected(a: Seq<char>, b: Seq<char>)
    ensures
        lex_le(a, b) || lex_le(b, a),
    decreases a.len(),
{
    if a.len() > 0 && b.len() > 0 {
        lemma_lex_connected(a.drop_first(), b.drop_first());
    }
}

/// `lex_le` is a total order.
pub proof fn lemma_lex_total()
    ensures
        total_ordering(lex_order()),
{
    assert forall|a: Seq<char>| #[trigger] lex_order()(a, a) by {
        lemma_lex_reflexive(a);
    }
    assert forall|a: Seq<char>, b: Seq<char>| #[trigger]
        lex_order()(a, b) && #[trigger] lex_order()(b, a) implies a == b by {
        lemma_lex_antisymmetric(a, b);
    }
    assert forall|a: Seq<char>, b: Seq<char>, c: Seq<char>| #[trigger]
        lex_order()(a, b) && #[trigger] lex_order()(b, c) implies lex_order()(a, c) by {
        lemma_lex_transitive(a, b, c);
    }
    assert forall|a: Seq<char>, b: Seq<char>| #[trigger]
        lex_order()(a, b) || #[trigger] lex_order()(b, a) by {
        lemma_lex_connected(a, b);
    }
}

/// Mapping two lists with the same elements gives lists with the same elements.
pub proof fn lemma_map_multiset<A, B>(s1: Seq<A>, s2: Seq<A>, f: spec_fn(A) -> B)
    requires
        s1.to_multiset() == s2.to_multiset(),
    ensures
        s1.map_values(f).to_multiset() == s2.map_values(f).to_multiset(),
    decreases s1.len(),
{
    broadcast use group_to_multiset_ensures;
    broadcast use vstd::seq_lib::to_multiset_remove, vstd::seq_lib::to_multiset_insert;
    broadcast use vstd::seq_lib::to_multiset_len;

    if s1.len() == 0 {
        vstd::seq_lib::to_multiset_len(s1);
        vstd::seq_lib::to_multiset_len(s2);
        assert(s2.len() == 0);
        assert(s1.map_values(f) =~= Seq::<B>::empty());
        assert(s2.map_values(f) =~= Seq::<B>::empty());
    } else {
        let x = s1.last();
        assert(s1 =~= s1.drop_last().push(x));
        assert(s1.to_multiset().contains(x));
        assert(s2.contains(x));
        let j = choose|j: int| 0 <= j < s2.len() && s2[j] == x;
        let s2r = s2.remove(j);
        assert(s2r.to_multiset() == s2.to_multiset().remove(x));
        assert(s1.drop_last().to_multiset() =~= s1.to_multiset().remove(x));
        lemma_map_multiset(s1.drop_last(), s2r, f);
        assert(s1.map_values(f) =~= s1.drop_last().map_values(f).push(f(x)));
        assert(s2 =~= s2r.insert(j, x));
        assert(s2.map_values(f) =~= s2r.map_values(f).insert(j, f(x)));
    }
}

/// Executable form of `lex_le`.
pub fn lex_le_exec(a: &Vec<char>, b: &Vec<char>) -> (r: bool)
    ensures
        r == lex_le(a@, b@),
{
    let mut i: usize = 0;
    assert(a@.subrange(0, a.len() as int) =~= a@);
    assert(b@.subrange(0, b.len() as int) =~= b@);
    while i < a.len() && i < b.len() && a[i] == b[i]
        invariant
            i <= a.len(),
            i <= b.len(),
            lex_le(a@, b@) == lex_le(a@.subrange(i as int, a.len() as int), b@.subrange(i as int, b.len() as int)),
        decreases a.len() - i,
    {
        assert(a@.subrange(i as int, a.len() as int).drop_first() =~= a@.subrange(i + 1, a.len() as int));
        assert(b@.subrange(i as int, b.len() as int).drop_first() =~= b@.subrange(i + 1, b.len() as int));
        i = i + 1;
    }
    if i == a.len() {
        true
    } else if i == b.len() {
        false
    } else {
        assert(a@.subrange(i as int, a.len() as int)[0] == a@[i as int]);
        assert(b@.subrange(i as int, b.len() as int)[0] == b@[i as int]);
        a[i] < b[i]
    }
}

/// `v` sorted by `lex_le`.
pub fn sort_strings(v: Vec<String>) -> (r: Vec<String>)
    ensures
        views(r@) == views(v@).sort_by(lex_order()),
{
    broadcast use group_to_multiset_ensures;
    broadcast use vstd::seq_lib::to_multiset_insert;

    proof {
        lemma_lex_total();
    }
    let ghost src = views(v@);
    let mut r: Vec<String> = Vec::new();
    let mut rc: Vec<Vec<char>> = Vec::new();
    let mut i: usize = 0;
    while i < v.len()
        invariant
            i <= v.len(),
            src == views(v@),
            total_ordering(lex_order()),
            rc@.len() == r@.len(),
            forall|k: int| 0 <= k < rc@.len() ==> #[trigger] rc@[k]@ == r@[k]@,
            sorted_by(views(r@), lex_order()),
            views(r@).to_multiset() == src.subrange(0, i as int).to_multiset(),
        decreases v.len() - i,
    {
        let x = chars_of(v[i].as_str());
        let mut p: usize = 0;
        while p < rc.len() && !lex_le_exec(&x, &rc[p])
            invariant
                p <= rc@.len() == r@.len(),
                forall|k: int| 0 <= k < rc@.len() ==> #[trigger] rc@[k]@ == r@[k]@,
                forall|k: int| 0 <= k < p ==> !lex_le(x@, #[trigger] r@[k]@),
            decreases rc.len() - p,
        {
            p = p + 1;
        }
        let ghost before = views(r@);
        let ghost xv = x@;
        assert(xv == src[i as int]);
        r.insert(p, v[i].clone());
        rc.insert(p, x);
        assert(views(r@) =~= before.insert(p as int, xv));
        assert forall|a: int, b: int| 0 <= a < b < views(r@).len() implies #[trigger] lex_order()(
            views(r@)[a],
            views(r@)[b],
        ) by {
            if a < p && b == p {
                lemma_lex_connected(xv, before[a]);
            } else if a < p && b > p {
                assert(lex_order()(before[a], before[b - 1]));
            } else if a == p && b > p {
                assert(lex_le(xv, before[p as int]));
                if b - 1 > p {
                    assert(lex_order()(before[p as int], before[b - 1]));
                    lemma_lex_transitive(xv, before[p as int], before[b - 1]);
                }
            } else if a > p {
                assert(lex_order()(before[a - 1], before[b - 1]));
            } else {
                assert(lex_order()(before[a], before[b]));
            }
        }
        proof {
            vstd::seq_lib::to_multiset_insert(before, p as int, xv);
        }
        assert(views(r@).to_multiset() == before.to_multiset().insert(xv));
        assert(src.subrange(0, i + 1) =~= src.subrange(0, i as int).push(xv));
        proof {
            vstd::seq_lib::to_multiset_build(src.subrange(0, i as int), xv);
        }
        assert(src.subrange(0, i + 1).to_multiset() == src.subrange(0, i as int).to_multiset().insert(xv));
        i = i + 1;
        assert forall|k: int| 0 <= k < rc@.len() implies #[trigger] rc@[k]@ == r@[k]@ by {
            assert(views(r@)[k] == r@[k]@);
        }
    }
    assert(src.subrange(0, v.len() as int) =~= src);
    proof {
        src.lemma_sort_by_ensures(lex_order());
        vstd::seq_lib::lemma_sorted_unique(views(r@), src.sort_by(lex_order()), lex_order());
    }
    r
}

} // verus!
