//! The orders that families and precedences are reported in.
use vstd::prelude::*;
use vstd::relations::{sorted_by, total_ordering};
use crate::family::paths::views_of;
use crate::text::{chars_of, owned};

verus! {

/// `a` sorts before `b` as `String`'s `Ord` sorts them: by characters, a prefix first.
pub open spec fn lex_lt(a: Seq<char>, b: Seq<char>) -> bool
    decreases a.len(),
{
    if a.len() == 0 {
        b.len() > 0
    } else if b.len() == 0 {
        false
    } else if a[0] != b[0] {
        a[0] < b[0]
    } else {
        lex_lt(a.drop_first(), b.drop_first())
    }
}

pub proof fn lemma_lex_irreflexive(a: Seq<char>)
    ensures
        !lex_lt(a, a),
    decreases a.len(),
{
    if a.len() > 0 {
        lemma_lex_irreflexive(a.drop_first());
    }
}

pub proof fn lemma_lex_total(a: Seq<char>, b: Seq<char>)
    ensures
        a != b ==> lex_lt(a, b) || lex_lt(b, a),
        !(lex_lt(a, b) && lex_lt(b, a)),
    decreases a.len(),
{
    if a.len() > 0 && b.len() > 0 {
        if a[0] == b[0] {
            lemma_lex_total(a.drop_first(), b.drop_first());
            if a != b {
                assert(a.drop_first() != b.drop_first()) by {
                    if a.drop_first() == b.drop_first() {
                        assert(a =~= seq![a[0]] + a.drop_first());
                        assert(b =~= seq![b[0]] + b.drop_first());
                    }
                }
            }
        }
    } else if a.len() == 0 && b.len() == 0 {
        assert(a =~= b);
    }
}

pub proof fn lemma_lex_transitive(a: Seq<char>, b: Seq<char>, c: Seq<char>)
    requires
        lex_lt(a, b),
        lex_lt(b, c),
    ensures
        lex_lt(a, c),
    decreases a.len(),
{
    if a.len() > 0 && b.len() > 0 && c.len() > 0 {
        if a[0] == b[0] && b[0] == c[0] {
            lemma_lex_transitive(a.drop_first(), b.drop_first(), c.drop_first());
        }
    }
}

/// Compares two strings as `String`'s `Ord` does.
pub fn lex_less(a: &Vec<char>, b: &Vec<char>) -> (r: bool)
    ensures
        r == lex_lt(a@, b@),
{
    let mut i: usize = 0;
    proof {
        assert(a@.skip(0) =~= a@);
        assert(b@.skip(0) =~= b@);
    }
    while i < a.len() && i < b.len() && a[i] == b[i]
        invariant
            i <= a@.len(),
            i <= b@.len(),
            lex_lt(a@, b@) == lex_lt(a@.skip(i as int), b@.skip(i as int)),
        decreases a@.len() - i,
    {
        proof {
            assert(a@.skip(i as int).drop_first() =~= a@.skip(i + 1));
            assert(b@.skip(i as int).drop_first() =~= b@.skip(i + 1));
        }
        i = i + 1;
    }
    if i == a.len() {
        i < b.len()
    } else if i == b.len() {
        false
    } else {
        a[i] < b[i]
    }
}

/// `s` is strictly increasing in string order.
pub open spec fn lex_sorted(s: Seq<Seq<char>>) -> bool {
    forall|i: int, j: int| 0 <= i < j < s.len() ==> lex_lt(#[trigger] s[i], #[trigger] s[j])
}

/// `s` is strictly increasing.
pub open spec fn increasing(s: Seq<u64>) -> bool {
    forall|i: int, j: int| 0 <= i < j < s.len() ==> #[trigger] s[i] < #[trigger] s[j]
}

/// `a` sorts no later than `b` in string order.
pub open spec fn lex_le(a: Seq<char>, b: Seq<char>) -> bool {
    !lex_lt(b, a)
}

/// String order as a relation.
pub open spec fn lex_leq() -> spec_fn(Seq<char>, Seq<char>) -> bool {
    |a: Seq<char>, b: Seq<char>| lex_le(a, b)
}

/// String order is a total order.
pub proof fn lemma_lex_leq_total()
    ensures
        total_ordering(lex_leq()),
{
    let r = lex_leq();
    assert forall|x: Seq<char>| #[trigger] r(x, x) by {
        lemma_lex_irreflexive(x);
    }
    assert forall|x: Seq<char>, y: Seq<char>| #[trigger] r(x, y) && #[trigger] r(y, x) implies x == y by {
        lemma_lex_total(x, y);
    }
    assert forall|x: Seq<char>, y: Seq<char>, z: Seq<char>| #[trigger] r(x, y) && #[trigger] r(y, z) implies r(x, z) by {
        lemma_lex_total(x, y);
        lemma_lex_total(y, z);
        if lex_lt(z, x) {
            if x == y {
            } else if y == z {
            } else {
                lemma_lex_transitive(z, x, y);
            }
        }
    }
    assert forall|x: Seq<char>, y: Seq<char>| #[trigger] r(x, y) || #[trigger] r(y, x) by {
        lemma_lex_total(x, y);
    }
}

/// `s` arranged in string order, duplicates kept.
pub open spec fn in_string_order(s: Seq<Seq<char>>) -> Seq<Seq<char>> {
    s.sort_by(lex_leq())
}

/// The strings of `v` in string order, as sorting a `Vec<String>` gives them.
pub fn sort_strings(v: &Vec<String>) -> (r: Vec<String>)
    ensures
        views_of(r@) == in_string_order(views_of(v@)),
{
    broadcast use vstd::seq_lib::group_to_multiset_ensures;

    let mut out: Vec<String> = Vec::new();
    let mut i: usize = 0;
    proof {
        lemma_lex_leq_total();
        assert(views_of(out@) =~= Seq::<Seq<char>>::empty());
        assert(views_of(v@.take(0)) =~= Seq::<Seq<char>>::empty());
    }
    while i < v.len()
        invariant
            i <= v@.len(),
            total_ordering(lex_leq()),
            sorted_by(views_of(out@), lex_leq()),
            views_of(out@).to_multiset() == views_of(v@.take(i as int)).to_multiset(),
        decreases v@.len() - i,
    {
        let x = owned(v[i].as_str());
        let xc = chars_of(x.as_str());
        let mut p: usize = 0;
        while p < out.len() && !lex_less(&xc, &chars_of(out[p].as_str()))
            invariant
                p <= out@.len(),
                xc@ == x@,
                forall|k: int| 0 <= k < p ==> !lex_lt(xc@, #[trigger] out@[k]@),
            decreases out@.len() - p,
        {
            p = p + 1;
        }
        let ghost before = views_of(out@);
        out.insert(p, x);
        proof {
            assert(views_of(out@) =~= before.insert(p as int, x@));
            assert(views_of(v@.take(i + 1)) =~= views_of(v@.take(i as int)).push(v@[i as int]@));
            vstd::seq_lib::to_multiset_insert(before, p as int, x@);
            vstd::seq_lib::to_multiset_build(views_of(v@.take(i as int)), v@[i as int]@);
            assert forall|a: int, b: int| 0 <= a < b < views_of(out@).len() implies #[trigger] lex_leq()(
                views_of(out@)[a],
                views_of(out@)[b],
            ) by {
                let o = views_of(out@);
                if a < p && b < p {
                    assert(o[a] == before[a] && o[b] == before[b]);
                } else if a < p && b == p {
                    assert(o[a] == before[a]);
                } else if a < p {
                    assert(o[a] == before[a] && o[b] == before[b - 1]);
                    assert(lex_leq()(before[a], x@));
                    assert(lex_leq()(x@, before[b - 1])) by {
                        lemma_lex_total(x@, before[p as int]);
                        if lex_lt(before[b - 1], x@) {
                            assert(lex_leq()(before[p as int], before[b - 1]));
                            if p < b - 1 {
                                lemma_lex_transitive(before[b - 1], x@, before[p as int]);
                            }
                        }
                    }
                } else if a == p {
                    assert(o[b] == before[b - 1]);
                    lemma_lex_total(x@, before[p as int]);
                    if lex_lt(before[b - 1], x@) {
                        assert(lex_leq()(before[p as int], before[b - 1]) || p == b - 1);
                        if p < b - 1 {
                            lemma_lex_transitive(before[b - 1], x@, before[p as int]);
                        }
                    }
                } else {
                    assert(o[a] == before[a - 1] && o[b] == before[b - 1]);
                }
            }
        }
        i = i + 1;
    }
    proof {
        assert(v@.take(v@.len() as int) =~= v@);
        views_of(v@).lemma_sort_by_ensures(lex_leq());
        vstd::seq_lib::lemma_sorted_unique(views_of(out@), in_string_order(views_of(v@)), lex_leq());
    }
    out
}

} // verus!
