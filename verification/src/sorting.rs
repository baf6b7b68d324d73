//! Sorting of strings by lexicographic order, with the facts that make a
//! sorted order unique: whatever order the input comes in, the same strings
//! sort to the same sequence.

use vstd::prelude::*;
use vstd::relations::*;

use crate::text::{lex_le, text_le};

verus! {

broadcast use vstd::seq_lib::group_to_multiset_ensures;

/// Lexicographic order as a relation value.
pub open spec fn lex_leq() -> spec_fn(Seq<char>, Seq<char>) -> bool {
    |a: Seq<char>, b: Seq<char>| lex_le(a, b)
}

/// The character views of a sequence of strings.
pub open spec fn views(s: Seq<String>) -> Seq<Seq<char>> {
    s.map_values(|x: String| x@)
}

proof fn lemma_lex_reflexive(a: Seq<char>)
    ensures
        lex_le(a, a),
    decreases a.len(),
{
    if a.len() > 0 {
        lemma_lex_reflexive(a.drop_first());
    }
}

proof fn lemma_lex_antisymmetric(a: Seq<char>, b: Seq<char>)
    requires
        lex_le(a, b),
        lex_le(b, a),
    ensures
        a == b,
    decreases a.len(),
{
    if a.len() == 0 {
        assert(b.len() == 0);
        assert(a =~= b);
    } else {
        assert(b.len() > 0);
        assert(a[0] == b[0]);
        lemma_lex_antisymmetric(a.drop_first(), b.drop_first());
        assert forall|i: int| 0 <= i < a.len() implies a[i] == b[i] by {
            if i > 0 {
                assert(a[i] == a.drop_first()[i - 1]);
                assert(b[i] == b.drop_first()[i - 1]);
            }
        }
        assert(a =~= b);
    }
}

proof fn lemma_lex_transitive(a: Seq<char>, b: Seq<char>, c: Seq<char>)
    requires
        lex_le(a, b),
        lex_le(b, c),
    ensures
        lex_le(a, c),
    decreases a.len(),
{
    if a.len() > 0 && b.len() > 0 && c.len() > 0 {
        if a[0] == b[0] && b[0] == c[0] {
            lemma_lex_transitive(a.drop_first(), b.drop_first(), c.drop_first());
        }
    }
}

proof fn lemma_lex_total(a: Seq<char>, b: Seq<char>)
    ensures
        lex_le(a, b) || lex_le(b, a),
    decreases a.len(),
{
    if a.len() > 0 && b.len() > 0 {
        if a[0] == b[0] {
            lemma_lex_total(a.drop_first(), b.drop_first());
        } else {
            assert((a[0] as int) != (b[0] as int));
        }
    }
}

/// Lexicographic order on character sequences is a total order.
pub proof fn lemma_lex_total_ordering()
    ensures
        total_ordering(lex_leq()),
{
    assert forall|x: Seq<char>| #[trigger] lex_leq()(x, x) by {
        lemma_lex_reflexive(x);
    }
    assert forall|x: Seq<char>, y: Seq<char>|
        #[trigger] lex_leq()(x, y) && #[trigger] lex_leq()(y, x) implies x == y by {
        lemma_lex_antisymmetric(x, y);
    }
    assert forall|x: Seq<char>, y: Seq<char>, z: Seq<char>|
        #[trigger] lex_leq()(x, y) && #[trigger] lex_leq()(y, z) implies lex_leq()(x, z) by {
        lemma_lex_transitive(x, y, z);
    }
    assert forall|x: Seq<char>, y: Seq<char>|
        #[trigger] lex_leq()(x, y) || #[trigger] lex_leq()(y, x) by {
        lemma_lex_total(x, y);
    }
}

/// Two lexicographically sorted sequences holding the same elements (as a
/// multiset) are equal: a sorted order is unique.
pub proof fn lemma_sorted_unique(s1: Seq<Seq<char>>, s2: Seq<Seq<char>>)
    requires
        sorted_by(s1, lex_leq()),
        sorted_by(s2, lex_leq()),
        s1.to_multiset() == s2.to_multiset(),
    ensures
        s1 == s2,
    decreases s1.len(),
{
    lemma_lex_total_ordering();
    assert(s1.to_multiset().len() == s1.len());
    assert(s2.to_multiset().len() == s2.len());
    assert(s1.len() == s2.len());
    if s1.len() == 0 {
        assert(s1 =~= s2);
    } else {
        let x = s1[0];
        let y = s2[0];
        assert(s1.contains(x));
        assert(s2.to_multiset().count(x) > 0);
        assert(s2.contains(x));
        let k = choose|k: int| 0 <= k < s2.len() && s2[k] == x;
        assert(lex_leq()(y, x)) by {
            if k > 0 {
                assert(lex_leq()(s2[0], s2[k]));
            }
        }
        assert(s2.contains(y));
        assert(s1.to_multiset().count(y) > 0);
        assert(s1.contains(y));
        let j = choose|j: int| 0 <= j < s1.len() && s1[j] == y;
        assert(lex_leq()(x, y)) by {
            if j > 0 {
                assert(lex_leq()(s1[0], s1[j]));
            }
        }
        assert(x == y);
        assert(s1.remove(0) =~= s1.drop_first());
        assert(s2.remove(0) =~= s2.drop_first());
        assert(s1.drop_first().to_multiset() == s1.to_multiset().remove(x));
        assert(s2.drop_first().to_multiset() == s2.to_multiset().remove(y));
        assert(sorted_by(s1.drop_first(), lex_leq())) by {
            assert forall|a: int, b: int| 0 <= a < b < s1.drop_first().len() implies #[trigger]
                lex_leq()(s1.drop_first()[a], s1.drop_first()[b]) by {
                assert(lex_leq()(s1[a + 1], s1[b + 1]));
            }
        }
        assert(sorted_by(s2.drop_first(), lex_leq())) by {
            assert forall|a: int, b: int| 0 <= a < b < s2.drop_first().len() implies #[trigger]
                lex_leq()(s2.drop_first()[a], s2.drop_first()[b]) by {
                assert(lex_leq()(s2[a + 1], s2[b + 1]));
            }
        }
        lemma_sorted_unique(s1.drop_first(), s2.drop_first());
        assert forall|i: int| 0 <= i < s1.len() implies s1[i] == s2[i] by {
            if i > 0 {
                assert(s1[i] == s1.drop_first()[i - 1]);
                assert(s2[i] == s2.drop_first()[i - 1]);
            }
        }
        assert(s1 =~= s2);
    }
}

/// The lexicographically sorted arrangement of `s`.
pub open spec fn sorted_views(s: Seq<Seq<char>>) -> Seq<Seq<char>> {
    s.sort_by(lex_leq())
}

/// Sorting depends only on which strings are present, not on their order:
/// two arrangements of the same strings sort to the same sequence.
pub proof fn lemma_sorted_views_order_independent(s1: Seq<Seq<char>>, s2: Seq<Seq<char>>)
    requires
        s1.to_multiset() == s2.to_multiset(),
    ensures
        sorted_views(s1) == sorted_views(s2),
{
    lemma_lex_total_ordering();
    s1.lemma_sort_by_ensures(lex_leq());
    s2.lemma_sort_by_ensures(lex_leq());
    lemma_sorted_unique(sorted_views(s1), sorted_views(s2));
}

/// Sorts strings lexicographically (insertion sort; equal strings keep their
/// relative order).
pub fn sort_texts(v: Vec<String>) -> (r: Vec<String>)
    ensures
        views(r@) == sorted_views(views(v@)),
        r@.len() == v@.len(),
{
    let mut r: Vec<String> = Vec::new();
    let n = v.len();
    let mut i: usize = 0;
    assert(views(v@).take(0) =~= Seq::<Seq<char>>::empty());
    assert(views(r@) =~= Seq::<Seq<char>>::empty());
    while i < n
        invariant
            n == v@.len(),
            i <= n,
            r@.len() == i,
            sorted_by(views(r@), lex_leq()),
            views(r@).to_multiset() == views(v@).take(i as int).to_multiset(),
        decreases n - i,
    {
        let x = v[i].clone();
        let mut p: usize = 0;
        while p < r.len() && text_le(r[p].as_str(), x.as_str())
            invariant
                p <= r@.len(),
                forall|q: int| 0 <= q < p ==> lex_le(#[trigger] views(r@)[q], x@),
            decreases r@.len() - p,
        {
            p = p + 1;
        }
        let ghost old_views = views(r@);
        proof {
            lemma_lex_total_ordering();
        }
        r.insert(p, x);
        assert(views(r@) =~= old_views.insert(p as int, x@));
        assert(sorted_by(views(r@), lex_leq())) by {
            assert forall|a: int, b: int| 0 <= a < b < views(r@).len() implies #[trigger] lex_leq()(
                views(r@)[a],
                views(r@)[b],
            ) by {
                if b < p {
                    assert(lex_leq()(old_views[a], old_views[b]));
                } else if b == p {
                    assert(lex_le(old_views[a], x@));
                } else if a < p {
                    assert(lex_le(old_views[a], x@));
                    assert(!lex_le(old_views[p as int], x@));
                    lemma_lex_total(old_views[p as int], x@);
                    if b - 1 > p {
                        assert(lex_leq()(old_views[p as int], old_views[b - 1]));
                    } else {
                        lemma_lex_reflexive(old_views[p as int]);
                    }
                    lemma_lex_transitive(x@, old_views[p as int], old_views[b - 1]);
                    lemma_lex_transitive(old_views[a], x@, old_views[b - 1]);
                } else if a == p {
                    assert(!lex_le(old_views[p as int], x@));
                    lemma_lex_total(old_views[p as int], x@);
                    if b - 1 > p {
                        assert(lex_leq()(old_views[p as int], old_views[b - 1]));
                        lemma_lex_transitive(x@, old_views[p as int], old_views[b - 1]);
                    }
                } else {
                    assert(lex_leq()(old_views[a - 1], old_views[b - 1]));
                }
            }
        }
        assert(views(v@).take(i + 1) =~= views(v@).take(i as int).push(x@));
        i = i + 1;
    }
    assert(views(v@).take(n as int) =~= views(v@));
    proof {
        lemma_lex_total_ordering();
        views(v@).lemma_sort_by_ensures(lex_leq());
        lemma_sorted_unique(views(r@), sorted_views(views(v@)));
    }
    r
}

/// A copy of a list of strings.
pub fn clone_texts(v: &Vec<String>) -> (r: Vec<String>)
    ensures
        r@ == v@,
{
    let mut r: Vec<String> = Vec::new();
    let mut i: usize = 0;
    while i < v.len()
        invariant
            i <= v@.len(),
            r@ =~= v@.take(i as int),
        decreases v@.len() - i,
    {
        r.push(v[i].clone());
        i = i + 1;
    }
    assert(v@.take(v@.len() as int) =~= v@);
    r
}

} // verus!
