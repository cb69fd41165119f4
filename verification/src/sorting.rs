//! Ordering of enumerated names. Both enumerators promise a deterministic
//! listing regardless of the order the operating system reports devices in,
//! so each sorts its results by name; the lemmas here carry element
//! multisets through the insertions that the sort performs.

use vstd::prelude::*;

use crate::text::{lex_le, lemma_lex_le_total, lemma_lex_le_transitive, str_le};

verus! {

/// A sequence of names, each viewed as its character sequence.
pub open spec fn name_views(q: Seq<String>) -> Seq<Seq<char>> {
    q.map_values(|s: String| s@)
}

/// The listed names are in ascending lexicographic order.
pub open spec fn names_sorted(q: Seq<String>) -> bool {
    forall|i: int, j: int| 0 <= i < j < q.len() ==> lex_le(#[trigger] q[i]@, #[trigger] q[j]@)
}

/// No two listed names read the same.
pub open spec fn names_distinct(q: Seq<String>) -> bool {
    forall|i: int, j: int| 0 <= i < j < q.len() ==> #[trigger] q[i]@ != #[trigger] q[j]@
}

/// Two listings with the same multiset of names list the same names.
pub proof fn lemma_same_multiset_same_names(a: Seq<String>, b: Seq<String>)
    requires
        name_views(a).to_multiset() == name_views(b).to_multiset(),
    ensures
        forall|s: Seq<char>|
            name_views(a).contains(s) <==> name_views(b).contains(s),
{
    assert forall|s: Seq<char>|
        name_views(a).contains(s) <==> name_views(b).contains(s) by {
        name_views(a).to_multiset_ensures();
        name_views(b).to_multiset_ensures();
        assert(name_views(a).contains(s) <==> name_views(a).to_multiset().count(s) > 0);
        assert(name_views(b).contains(s) <==> name_views(b).to_multiset().count(s) > 0);
    }
}

/// Inserting an element anywhere in a sequence adds exactly that element to
/// its multiset.
pub proof fn lemma_insert_to_multiset<A>(s: Seq<A>, k: int, a: A)
    requires
        0 <= k <= s.len(),
    ensures
        s.insert(k, a).to_multiset() =~= s.to_multiset().insert(a),
{
    broadcast use vstd::seq_lib::group_to_multiset_ensures;

    let t = s.subrange(0, k);
    let u = s.subrange(k, s.len() as int);
    assert(s.insert(k, a) == t.push(a) + u);
    vstd::seq_lib::lemma_multiset_commutative(t.push(a), u);
    assert(t.push(a).to_multiset() =~= t.to_multiset().insert(a));
    assert(t.to_multiset().insert(a).add(u.to_multiset()) =~= t.to_multiset().add(
        u.to_multiset(),
    ).insert(a));
    vstd::seq_lib::lemma_multiset_commutative(t, u);
    assert(t + u =~= s);
}

/// Sorts names into ascending lexicographic order. No name is added,
/// dropped or altered: the multiset of names is exactly that of the input.
pub fn sort_names(v: &Vec<String>) -> (r: Vec<String>)
    ensures
        names_sorted(r@),
        name_views(r@).to_multiset() == name_views(v@).to_multiset(),
        r@.len() == v@.len(),
{
    broadcast use vstd::seq_lib::group_to_multiset_ensures;

    let mut out: Vec<String> = Vec::new();
    let mut idx: usize = 0;
    proof {
        assert(name_views(out@) =~= Seq::<Seq<char>>::empty());
        assert(name_views(v@.take(0)) =~= Seq::<Seq<char>>::empty());
        assert(name_views(out@).to_multiset() =~= name_views(v@.take(0)).to_multiset());
    }
    while idx < v.len()
        invariant
            idx <= v@.len(),
            out@.len() == idx,
            names_sorted(out@),
            name_views(out@).to_multiset() == name_views(v@.take(idx as int)).to_multiset(),
        decreases v@.len() - idx,
    {
        let x = v[idx].clone();
        let mut k: usize = 0;
        while k < out.len() && !str_le(x.as_str(), out[k].as_str())
            invariant
                k <= out@.len(),
                forall|t: int| 0 <= t < k ==> lex_le(#[trigger] out@[t]@, x@),
            decreases out@.len() - k,
        {
            proof {
                lemma_lex_le_total(x@, out@[k as int]@);
            }
            k = k + 1;
        }
        proof {
            let o = out@;
            let n = o.insert(k as int, x);
            o.insert_ensures(k as int, x);
            assert forall|i: int, j: int| 0 <= i < j < n.len() implies lex_le(
                n[i]@,
                n[j]@,
            ) by {
                if j < k {
                    assert(n[i] == o[i] && n[j] == o[j]);
                } else if i > k {
                    assert(n[i] == o[i - 1] && n[j] == o[j - 1]);
                } else if i == k {
                    assert(n[i] == x && n[j] == o[j - 1]);
                    if j - 1 > k {
                        lemma_lex_le_transitive(x@, o[k as int]@, o[j - 1]@);
                    }
                } else if j == k {
                    assert(n[i] == o[i] && n[j] == x);
                } else {
                    assert(i < k && k < j);
                    assert(n[i] == o[i] && n[j] == o[j - 1]);
                    assert(i < j - 1);
                }
            }
            o.insert_ensures(k as int, x);
            name_views(o).insert_ensures(k as int, x@);
            assert(name_views(n) =~= name_views(o).insert(k as int, x@));
            lemma_insert_to_multiset(name_views(o), k as int, x@);
            assert(name_views(n).to_multiset() == name_views(o).to_multiset().insert(x@));
            assert(v@.take(idx + 1) =~= v@.take(idx as int).push(v@[idx as int]));
            assert(name_views(v@.take(idx + 1)) =~= name_views(v@.take(idx as int)).push(
                v@[idx as int]@,
            ));
            vstd::seq_lib::to_multiset_build(name_views(v@.take(idx as int)), v@[idx as int]@);
            assert(x@ == v@[idx as int]@);
            assert(name_views(n).to_multiset() == name_views(v@.take(idx + 1)).to_multiset());
        }
        out.insert(k, x);
        idx = idx + 1;
    }
    proof {
        assert(v@.take(idx as int) =~= v@);
        assert(name_views(out@).to_multiset().len() == name_views(out@).len());
        assert(name_views(v@).to_multiset().len() == name_views(v@).len());
    }
    out
}

} // verus!
