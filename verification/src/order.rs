//! The order of strings (`str::cmp`: character by character, by code point,
//! which is the order of their UTF-8 bytes) and of pairs of strings, and a
//! sort of name-value pairs by that order.
use vstd::prelude::*;
use vstd::relations::{sorted_by, total_ordering};
use vstd::seq_lib::{lemma_sorted_unique, to_multiset_insert, group_to_multiset_ensures};
use crate::text::chars_of;

verus! {

/// `a <= b` in the order of `str::cmp`.
pub open spec fn text_le(a: Seq<char>, b: Seq<char>) -> bool
    decreases a.len(),
{
    if a.len() == 0 {
        true
    } else if b.len() == 0 {
        false
    } else if a[0] != b[0] {
        a[0] < b[0]
    } else {
        text_le(a.drop_first(), b.drop_first())
    }
}

/// Pairs ordered by their first component, then by their second.
pub open spec fn pair_le(p: (Seq<char>, Seq<char>), q: (Seq<char>, Seq<char>)) -> bool {
    &&& text_le(p.0, q.0)
    &&& (p.0 == q.0 ==> text_le(p.1, q.1))
}

/// `pair_le` as a value, for sorting.
pub open spec fn pair_order() -> spec_fn((Seq<char>, Seq<char>), (Seq<char>, Seq<char>)) -> bool {
    |p: (Seq<char>, Seq<char>), q: (Seq<char>, Seq<char>)| pair_le(p, q)
}

pub proof fn lemma_text_le_reflexive(a: Seq<char>)
    ensures
        text_le(a, a),
    decreases a.len(),
{
    if a.len() > 0 {
        lemma_text_le_reflexive(a.drop_first());
    }
}

pub proof fn lemma_text_le_antisymmetric(a: Seq<char>, b: Seq<char>)
    requires
        text_le(a, b),
        text_le(b, a),
    ensures
        a == b,
    decreases a.len(),
{
    if a.len() > 0 && b.len() > 0 {
        if a[0] == b[0] {
            lemma_text_le_antisymmetric(a.drop_first(), b.drop_first());
            assert(a =~= seq![a[0]] + a.drop_first());
            assert(b =~= seq![b[0]] + b.drop_first());
        }
    } else {
        assert(a.len() == 0 && b.len() == 0);
        assert(a =~= b);
    }
}

pub proof fn lemma_text_le_transitive(a: Seq<char>, b: Seq<char>, c: Seq<char>)
    requires
        text_le(a, b),
        text_le(b, c),
    ensures
        text_le(a, c),
    decreases a.len(),
{
    if a.len() > 0 && b.len() > 0 && c.len() > 0 {
        if a[0] == b[0] && b[0] == c[0] {
            lemma_text_le_transitive(a.drop_first(), b.drop_first(), c.drop_first());
        }
    }
}

pub proof fn lemma_text_le_total(a: Seq<char>, b: Seq<char>)
    ensures
        text_le(a, b) || text_le(b, a),
    decreases a.len(),
{
    if a.len() > 0 && b.len() > 0 && a[0] == b[0] {
        lemma_text_le_total(a.drop_first(), b.drop_first());
    }
}

/// `pair_le` is a total order.
pub proof fn lemma_pair_order_total()
    ensures
        total_ordering(pair_order()),
{
    assert forall|p: (Seq<char>, Seq<char>)| #[trigger] pair_order()(p, p) by {
        lemma_text_le_reflexive(p.0);
        lemma_text_le_reflexive(p.1);
    }
    assert forall|p: (Seq<char>, Seq<char>), q: (Seq<char>, Seq<char>)|
        #[trigger] pair_order()(p, q) && #[trigger] pair_order()(q, p) implies p == q by {
        lemma_text_le_antisymmetric(p.0, q.0);
        lemma_text_le_antisymmetric(p.1, q.1);
    }
    assert forall|
        p: (Seq<char>, Seq<char>),
        q: (Seq<char>, Seq<char>),
        r: (Seq<char>, Seq<char>),
    | #[trigger] pair_order()(p, q) && #[trigger] pair_order()(q, r) implies pair_order()(
        p,
        r,
    ) by {
        lemma_text_le_transitive(p.0, q.0, r.0);
        if p.0 == r.0 {
            lemma_text_le_antisymmetric(p.0, q.0);
            lemma_text_le_transitive(p.1, q.1, r.1);
        }
    }
    assert forall|p: (Seq<char>, Seq<char>), q: (Seq<char>, Seq<char>)|
        #[trigger] pair_order()(p, q) || #[trigger] pair_order()(q, p) by {
        lemma_text_le_total(p.0, q.0);
        lemma_text_le_total(p.1, q.1);
        if text_le(p.0, q.0) && text_le(q.0, p.0) {
            lemma_text_le_antisymmetric(p.0, q.0);
        }
    }
}

/// `a <= b` in the order of `str::cmp`.
pub fn text_le_exec(a: &str, b: &str) -> (res: bool)
    ensures
        res == text_le(a@, b@),
{
    let ca = chars_of(a);
    let cb = chars_of(b);
    let mut i: usize = 0;
    proof {
        assert(a@.skip(0) =~= a@);
        assert(b@.skip(0) =~= b@);
    }
    while i < ca.len() && i < cb.len()
        invariant
            i <= ca@.len(),
            i <= cb@.len(),
            ca@ == a@,
            cb@ == b@,
            text_le(a@, b@) == text_le(a@.skip(i as int), b@.skip(i as int)),
        decreases ca@.len() - i,
    {
        let ghost sa = a@.skip(i as int);
        let ghost sb = b@.skip(i as int);
        assert(sa[0] == ca@[i as int]);
        assert(sb[0] == cb@[i as int]);
        if ca[i] != cb[i] {
            return ca[i] < cb[i];
        }
        assert(sa.drop_first() =~= a@.skip(i + 1));
        assert(sb.drop_first() =~= b@.skip(i + 1));
        i = i + 1;
    }
    i == ca.len()
}

/// Whether no name occurs twice among the pairs `ps`.
pub open spec fn names_distinct(ps: Seq<(Seq<char>, Seq<char>)>) -> bool {
    forall|i: int, j: int| 0 <= i < j < ps.len() ==> #[trigger] ps[i].0 != #[trigger] ps[j].0
}

/// The views of name-value pairs.
pub open spec fn pairs_view(v: Seq<(String, String)>) -> Seq<(Seq<char>, Seq<char>)> {
    v.map_values(|p: (String, String)| (p.0@, p.1@))
}

fn pair_le_exec(p: &(String, String), q: &(String, String)) -> (res: bool)
    ensures
        res == pair_le((p.0@, p.1@), (q.0@, q.1@)),
{
    let k = text_le_exec(p.0.as_str(), q.0.as_str());
    if !k {
        return false;
    }
    let back = text_le_exec(q.0.as_str(), p.0.as_str());
    if back {
        proof {
            lemma_text_le_antisymmetric(p.0@, q.0@);
        }
        text_le_exec(p.1.as_str(), q.1.as_str())
    } else {
        proof {
            if p.0@ == q.0@ {
                lemma_text_le_reflexive(p.0@);
            }
        }
        true
    }
}

/// The pairs of `values` in the order of `pair_le`.
pub fn sort_pairs(values: &Vec<(String, String)>) -> (res: Vec<(String, String)>)
    ensures
        pairs_view(res@) == pairs_view(values@).sort_by(pair_order()),
{
    broadcast use group_to_multiset_ensures;

    proof {
        lemma_pair_order_total();
    }
    let mut res: Vec<(String, String)> = Vec::new();
    let mut i: usize = 0;
    while i < values.len()
        invariant
            i <= values@.len(),
            total_ordering(pair_order()),
            sorted_by(pairs_view(res@), pair_order()),
            pairs_view(res@).to_multiset() == pairs_view(values@.take(i as int)).to_multiset(),
        decreases values@.len() - i,
    {
        let x = (values[i].0.clone(), values[i].1.clone());
        let ghost xv = (x.0@, x.1@);
        let mut j: usize = 0;
        while j < res.len() && pair_le_exec(&res[j], &x)
            invariant
                j <= res@.len(),
                xv == (x.0@, x.1@),
                forall|k: int| 0 <= k < j ==> pair_le(#[trigger] pairs_view(res@)[k], xv),
            decreases res@.len() - j,
        {
            assert(pairs_view(res@)[j as int] == (res@[j as int].0@, res@[j as int].1@));
            j = j + 1;
        }
        let ghost before = pairs_view(res@);
        proof {
            if j < before.len() {
                assert(before[j as int] == (res@[j as int].0@, res@[j as int].1@));
                assert(!pair_le(before[j as int], xv));
                assert(pair_order()(before[j as int], xv) || pair_order()(xv, before[j as int]));
            }
        }
        res.insert(j, x);
        proof {
            let after = pairs_view(res@);
            assert(after =~= before.insert(j as int, xv));
            to_multiset_insert(before, j as int, xv);
            assert(values@[i as int].0@ == xv.0 && values@[i as int].1@ == xv.1);
            assert(pairs_view(values@.take(i + 1)) =~= pairs_view(values@.take(i as int)).push(
                xv,
            ));
            pairs_view(values@.take(i as int)).to_multiset_ensures();
            assert(pairs_view(values@.take(i + 1)).to_multiset() == pairs_view(
                values@.take(i as int),
            ).to_multiset().insert(xv));
            assert(after.to_multiset() == before.to_multiset().insert(xv));
            assert forall|a: int, b: int| 0 <= a < b < after.len() implies #[trigger] pair_order()(
                after[a],
                after[b],
            ) by {
                if b < j {
                    assert(after[a] == before[a] && after[b] == before[b]);
                } else if b == j {
                    assert(after[a] == before[a]);
                } else if a == j {
                    assert(after[b] == before[b - 1]);
                    if b - 1 > j {
                        assert(pair_order()(before[j as int], before[b - 1]));
                    }
                } else if a < j {
                    assert(after[a] == before[a] && after[b] == before[b - 1]);
                } else {
                    assert(after[a] == before[a - 1] && after[b] == before[b - 1]);
                }
            }
        }
        i = i + 1;
    }
    proof {
        assert(values@.take(values@.len() as int) =~= values@);
        pairs_view(values@).lemma_sort_by_ensures(pair_order());
        lemma_sorted_unique(pairs_view(res@), pairs_view(values@).sort_by(pair_order()), pair_order());
    }
    res
}

} // verus!
