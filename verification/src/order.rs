use vstd::prelude::*;
use crate::item::Item;

verus! {

/// The list is ordered newest first: ranks never increase left to right,
/// so an item without a timestamp (rank 0) sorts as the oldest.
pub open spec fn sorted_desc(s: Seq<Item>) -> bool {
    forall|a: int, b: int| 0 <= a < b < s.len() ==> s[a].sort_ts() >= s[b].sort_ts()
}

/// Sort the items newest first (descending rank) by insertion. Items of
/// equal rank may end up in either order, but the collection of items is
/// exactly preserved.
pub fn sort_items_desc(v: &mut Vec<Item>)
    ensures
        sorted_desc(final(v)@),
        final(v)@.to_multiset() == old(v)@.to_multiset(),
        final(v)@.len() == old(v)@.len(),
{
    let ghost orig = v@;
    let mut i: usize = 1;
    while i < v.len()
        invariant
            1 <= i,
            v@.len() == orig.len(),
            v@.to_multiset() == orig.to_multiset(),
            forall|a: int, b: int| 0 <= a < b < i && b < v@.len()
                ==> v@[a].sort_ts() >= v@[b].sort_ts(),
        decreases v@.len() - i,
    {
        let ghost pre = v@;
        let x = v.remove(i);
        let x_rank = x.rank();
        proof {
            assert(v@ == pre.remove(i as int));
            assert(forall|k: int| 0 <= k < i ==> v@[k] == pre[k]);
        }
        let mut j: usize = i;
        while j > 0 && v[j - 1].rank() < x_rank
            invariant
                j <= i,
                i <= v@.len(),
                x_rank == x.sort_ts(),
                v@ == pre.remove(i as int),
                forall|k: int| j <= k < i ==> v@[k].sort_ts() < x.sort_ts(),
            decreases j,
        {
            j = j - 1;
        }
        let ghost before_ins = v@;
        proof {
            assert(j == 0 || before_ins[j - 1].sort_ts() >= x.sort_ts());
        }
        v.insert(j, x);
        proof {
            let s = v@;
            before_ins.insert_ensures(j as int, x);
            assert forall|a: int, b: int| 0 <= a < b < i + 1 && b < s.len()
                implies s[a].sort_ts() >= s[b].sort_ts() by {
                if a < j && b < j {
                    assert(s[a] == before_ins[a]);
                    assert(s[b] == before_ins[b]);
                } else if a < j && b == j {
                    assert(s[a] == before_ins[a]);
                    assert(before_ins[a].sort_ts() >= before_ins[j - 1].sort_ts());
                    assert(s[b] == x);
                } else if a < j && b > j {
                    assert(s[a] == before_ins[a]);
                    assert(s[b] == before_ins[b - 1]);
                    assert(before_ins[a].sort_ts() >= before_ins[j - 1].sort_ts());
                    assert(before_ins[j - 1].sort_ts() >= x.sort_ts());
                    assert(x.sort_ts() > before_ins[b - 1].sort_ts());
                } else if a == j {
                    assert(s[a] == x);
                    assert(s[b] == before_ins[b - 1]);
                    assert(x.sort_ts() > before_ins[b - 1].sort_ts());
                } else {
                    assert(s[a] == before_ins[a - 1]);
                    assert(s[b] == before_ins[b - 1]);
                }
            }
            assert(s.to_multiset() == orig.to_multiset()) by {
                broadcast use vstd::seq_lib::group_to_multiset_ensures;
                broadcast use vstd::multiset::group_multiset_axioms;

                assert(pre.contains(pre[i as int])) by {
                    assert(pre[i as int] == pre[i as int]);
                }
                assert(pre.to_multiset().count(pre[i as int]) > 0);
                assert(before_ins.to_multiset() == pre.to_multiset().remove(x));
                assert(s.to_multiset() == before_ins.to_multiset().insert(x));
                assert(pre.to_multiset().remove(x).insert(x) =~= pre.to_multiset());
            }
        }
        i = i + 1;
    }
}

} // verus!
