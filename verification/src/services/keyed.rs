use crate::utils::id_generator::{Id, V4_BITS};
use std::collections::HashMap;
use vstd::prelude::*;
use vstd::std_specs::iter::IteratorSpec;

verus! {

broadcast use vstd::std_specs::hash::group_hash_axioms;

/// `keys` names every key of `map` once.
pub open spec fn enumerates<V>(keys: Seq<Id>, map: Map<Id, V>) -> bool {
    keys.no_duplicates() && keys.to_set() == map.dom()
}

/// `items` holds the value of every key of `map` once, in no particular order.
pub open spec fn lists<V>(items: Seq<V>, map: Map<Id, V>) -> bool {
    exists|keys: Seq<Id>| #[trigger] arranges(keys, items, map)
}

/// `items` holds the values of `map` in the order in which `keys` names its keys.
pub open spec fn arranges<V>(keys: Seq<Id>, items: Seq<V>, map: Map<Id, V>) -> bool {
    &&& enumerates(keys, map)
    &&& items.len() == keys.len()
    &&& forall|i: int| 0 <= i < keys.len() ==> #[trigger] items[i] == map[keys[i]]
}

/// The views of the values of a map, under the keys of the map.
pub open spec fn views_by_key<V: View>(map: Map<Id, V>) -> Map<Id, V::V> {
    Map::new(|id: Id| map.contains_key(id), |id: Id| map[id]@)
}

/// The keys of a map, each once, in no particular order.
pub fn keys_of<V>(map: &HashMap<Id, V>) -> (keys: Vec<Id>)
    ensures
        enumerates(keys@, map@),
        keys@.len() == map@.len(),
{
    let mut keys: Vec<Id> = Vec::new();
    let ghost all = vstd::std_specs::hash::spec_keys_iter(map).remaining();
    for k in it: map.keys()
        invariant
            it.seq() == all,
            keys@.len() == it.index(),
            forall|i: int| 0 <= i < keys@.len() ==> keys@[i] == *(#[trigger] all[i]),
    {
        keys.push(*k);
    }
    proof {
        assert(keys@ =~= all.unref());
    }
    keys
}


/// The identifiers that follow `V4_BITS` at a distance below `k`.
pub open spec fn run_of_ids(k: int) -> Set<Id> {
    Set::new(|id: Id| V4_BITS <= id && id < V4_BITS + k)
}

/// A key that the map does not hold: `candidate` where the map does not
/// hold it, else the first identifier from `V4_BITS` upwards that the map
/// does not hold. A map holds fewer keys than there are identifiers, so the
/// search comes to an end.
pub fn unused_key<V>(map: &HashMap<Id, V>, candidate: Id) -> (id: Id)
    ensures
        !map@.contains_key(id),
        !map@.contains_key(candidate) ==> id == candidate,
{
    if !map.contains_key(&candidate) {
        return candidate;
    }
    let mut k: usize = 0;
    let mut id: Id = V4_BITS;
    proof {
        assert(map@.dom().len() == map.len());
        assert(run_of_ids(0) =~= Set::<Id>::empty());
    }
    while map.contains_key(&id)
        invariant
            id == V4_BITS + k,
            V4_BITS == 0x0000_0000_0000_4000_8000_0000_0000_0000u128,
            run_of_ids(k as int).finite(),
            run_of_ids(k as int).len() == k,
            run_of_ids(k as int).subset_of(map@.dom()),
            map@.dom().finite(),
            k <= map@.dom().len(),
            map@.dom().len() <= usize::MAX,
        decreases map@.dom().len() - k,
    {
        proof {
            let before = run_of_ids(k as int);
            let after = run_of_ids(k + 1);
            assert(after =~= before.insert(id));
            assert(!before.contains(id));
            assert(after.subset_of(map@.dom()));
            vstd::set_lib::lemma_len_subset(after, map@.dom());
        }
        k += 1;
        id += 1;
    }
    id
}

} // verus!
