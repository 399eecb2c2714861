//! Reading an ordered set of ids out in its order.

use vstd::prelude::*;
use vstd::std_specs::iter::IteratorSpec;
use vstd::std_specs::btree::increasing_seq;
use vstd::laws_cmp::obeys_cmp;
use vstd::std_specs::cmp::OrdSpec;
use std::collections::BTreeSet;

verus! {

/// Each id is less than every id after it.
pub open spec fn ascending(ids: Seq<u32>) -> bool {
    forall|i: int, j: int| 0 <= i < j < ids.len() ==> ids[i] < ids[j]
}

/// The order in which a `BTreeSet` hands out `u32` keys is the order of the
/// numbers.
proof fn lemma_increasing_is_ascending(q: Seq<&u32>)
    requires
        increasing_seq(q),
    ensures
        ascending(q.unref()),
{
    broadcast use vstd::laws_eq::group_laws_eq;
    broadcast use vstd::laws_cmp::group_laws_cmp;

    reveal(vstd::laws_eq::obeys_eq_spec_properties);
    reveal(vstd::laws_cmp::obeys_partial_cmp_spec_properties);
    reveal(vstd::laws_cmp::obeys_cmp_partial_ord);
    reveal(vstd::laws_cmp::obeys_cmp_ord);
    assert(obeys_cmp::<u32>());
    assert(obeys_cmp::<&u32>());
    vstd::std_specs::btree::axiom_increasing_seq_meaning::<&u32>(q);
    assert forall|i: int, j: int| 0 <= i < j < q.unref().len() implies q.unref()[i] < q.unref()[j] by {
        assert(OrdSpec::cmp_spec(&q[i], &q[j]) is Less);
    }
}

/// The ids of the set, smallest first.
pub fn ascending_ids(set: &BTreeSet<u32>) -> (ids: Vec<u32>)
    ensures
        ascending(ids@),
        forall|id: u32| ids@.contains(id) <==> set@.contains(id),
{
    let ghost all: Seq<&u32> = set.iter().remaining();
    proof {
        lemma_increasing_is_ascending(all);
    }
    let mut ids: Vec<u32> = Vec::new();
    for x in it: set.iter()
        invariant
            it.seq() == all,
            all.unref().to_set() == set@,
            ids@ == all.unref().take(it.index()),
    {
        ids.push(*x);
        proof {
            let k = it.index();
            assert(all.unref().take(k + 1) == all.unref().take(k).push(all.unref()[k]));
        }
    }
    proof {
        assert(ids@ == all.unref());
        assert forall|id: u32| ids@.contains(id) <==> set@.contains(id) by {
            assert(ids@.to_set().contains(id) <==> ids@.contains(id));
        }
    }
    ids
}

} // verus!
