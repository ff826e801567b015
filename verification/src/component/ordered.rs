//! Table indices in ascending order.

use std::collections::{BTreeMap, BTreeSet};
use vstd::prelude::*;

verus! {

/// `order` lists the members of `keys`, each once, in ascending order.
pub open spec fn lists(order: Seq<u32>, keys: Set<u32>) -> bool {
    &&& forall|i: int, j: int| 0 <= i < j < order.len() ==> order[i] < order[j]
    &&& forall|k: u32| #[trigger] keys.contains(k) <==> order.contains(k)
}

/// What an ordered collection means by the increasing sequence of its keys.
proof fn lemma_increasing(s: Seq<&u32>, keys: Set<u32>)
    requires
        vstd::std_specs::btree::increasing_seq(s),
        s.unref().to_set() == keys,
    ensures
        forall|i: int, j: int| 0 <= i < j < s.len() ==> *s[i] < *s[j],
        forall|i: int| 0 <= i < s.len() ==> keys.contains(*s[i]),
        forall|k: u32| #[trigger] keys.contains(k) ==> s.contains(&k),
{
    broadcast use vstd::laws_cmp::group_laws_cmp;

    assert(vstd::laws_cmp::obeys_cmp::<&u32>());
    assert forall|i: int, j: int| 0 <= i < j < s.len() implies *s[i] < *s[j] by {
        assert(vstd::std_specs::cmp::OrdSpec::cmp_spec(&s[i], &s[j]) is Less);
    }
    assert forall|i: int| 0 <= i < s.len() implies keys.contains(*s[i]) by {
        assert(s.unref()[i] == *s[i]);
    }
}

/// The members of a set, in ascending order.
pub fn members(set: &BTreeSet<u32>) -> (order: Vec<u32>)
    ensures
        lists(order@, set@),
{
    broadcast use vstd::laws_cmp::group_laws_cmp;

    let mut order: Vec<u32> = Vec::new();
    proof {
        lemma_increasing(
            vstd::std_specs::iter::IteratorSpec::remaining(
                &vstd::std_specs::btree::spec_btree_keys_iter(set),
            ),
            set@,
        );
    }
    for k in it: set.iter()
        invariant
            order@.len() == it.index(),
            forall|i: int|
                #![trigger order@[i]]
                #![trigger it.seq()[i]]
                0 <= i < order@.len() ==> order@[i] == *it.seq()[i],
            forall|i: int, j: int| 0 <= i < j < it.seq().len() ==> *it.seq()[i] < *it.seq()[j],
            forall|i: int| 0 <= i < it.seq().len() ==> set@.contains(*it.seq()[i]),
            forall|k: u32| #[trigger] set@.contains(k) ==> it.seq().contains(&k),
    {
        order.push(*k);
    }
    order
}

/// The keys of a map, in ascending order.
pub fn keys<T>(map: &BTreeMap<u32, T>) -> (order: Vec<u32>)
    ensures
        lists(order@, map@.dom()),
{
    broadcast use vstd::laws_cmp::group_laws_cmp;

    let mut order: Vec<u32> = Vec::new();
    proof {
        lemma_increasing(
            vstd::std_specs::iter::IteratorSpec::remaining(
                &vstd::std_specs::btree::spec_keys_iter(map),
            ),
            map@.dom(),
        );
    }
    for k in it: map.keys()
        invariant
            order@.len() == it.index(),
            forall|i: int|
                #![trigger order@[i]]
                #![trigger it.seq()[i]]
                0 <= i < order@.len() ==> order@[i] == *it.seq()[i],
            forall|i: int, j: int| 0 <= i < j < it.seq().len() ==> *it.seq()[i] < *it.seq()[j],
            forall|i: int| 0 <= i < it.seq().len() ==> map@.dom().contains(*it.seq()[i]),
            forall|k: u32| #[trigger] map@.dom().contains(k) ==> it.seq().contains(&k),
    {
        order.push(*k);
    }
    order
}

} // verus!
