use crate::utils::clock::Timestamp;
use vstd::prelude::*;

verus! {

/// What a list is ordered by: a rank, then two points in time. Of two keys the
/// one with the higher rank comes first; at equal rank, the one with the later
/// first time; at equal first time, the one with the later second time.
#[derive(Clone, Copy, Debug, PartialEq, Eq, Structural)]
pub struct SortKey {
    pub rank: u8,
    pub first: Timestamp,
    pub second: Timestamp,
}

impl SortKey {
    /// `self` has to come before `other`.
    pub open spec fn outranks(self, other: SortKey) -> bool {
        self.rank > other.rank || (self.rank == other.rank && (self.first.later_than(other.first)
            || (self.first == other.first && self.second.later_than(other.second))))
    }

    /// Tells whether `self` has to come before `other`.
    pub fn comes_before(&self, other: &SortKey) -> (b: bool)
        ensures
            b == self.outranks(*other),
    {
        self.rank > other.rank || (self.rank == other.rank && (self.first.is_after(&other.first)
            || (self.first == other.first && self.second.is_after(&other.second))))
    }
}

/// In a list ordered by `keys`, the item at index `a` stands before the one at
/// index `b`: its key outranks the other, or neither outranks the other and it
/// stood first in the unordered list.
pub open spec fn goes_before(keys: Seq<SortKey>, a: int, b: int) -> bool {
    keys[a].outranks(keys[b]) || (!keys[b].outranks(keys[a]) && a < b)
}

/// `order` names each index below `n` once.
pub open spec fn is_arrangement(order: Seq<usize>, n: nat) -> bool {
    &&& order.len() == n
    &&& forall|i: int| 0 <= i < order.len() ==> (#[trigger] order[i]) < n
    &&& order.no_duplicates()
    &&& forall|k: usize| k < n ==> #[trigger] order.contains(k)
}

/// The indices in `order` follow each other as `keys` demand.
pub open spec fn in_order(keys: Seq<SortKey>, order: Seq<usize>) -> bool {
    forall|i: int, j: int|
        0 <= i < j < order.len() ==> goes_before(
            keys,
            (#[trigger] order[i]) as int,
            (#[trigger] order[j]) as int,
        )
}

/// `order` is the stable descending arrangement of the indices of `keys`.
pub open spec fn is_sorted_arrangement(keys: Seq<SortKey>, order: Seq<usize>) -> bool {
    is_arrangement(order, keys.len()) && in_order(keys, order)
}

proof fn lemma_goes_before_transitive(keys: Seq<SortKey>, a: int, b: int, c: int)
    requires
        goes_before(keys, a, b),
        goes_before(keys, b, c),
    ensures
        goes_before(keys, a, c),
{
}

/// Orders the indices of `keys`: the key that outranks comes first, and keys
/// of which neither outranks the other keep the order they came in.
pub fn sorted_order(keys: &Vec<SortKey>) -> (order: Vec<usize>)
    ensures
        is_sorted_arrangement(keys@, order@),
{
    let mut order: Vec<usize> = Vec::new();
    let mut k: usize = 0;
    while k < keys.len()
        invariant
            k <= keys.len(),
            order@.len() == k,
            forall|i: int| 0 <= i < order@.len() ==> (#[trigger] order@[i]) < k,
            order@.no_duplicates(),
            forall|x: usize| x < k ==> #[trigger] order@.contains(x),
            in_order(keys@, order@),
        decreases keys.len() - k,
    {
        let mut p: usize = k;
        while p > 0 && keys[k].comes_before(&keys[order[p - 1]])
            invariant
                p <= k,
                k < keys.len(),
                order@.len() == k,
                forall|i: int| 0 <= i < order@.len() ==> (#[trigger] order@[i]) < k,
                forall|j: int|
                    p <= j < k ==> keys@[k as int].outranks(keys@[(#[trigger] order@[j]) as int]),
            decreases p,
        {
            p -= 1;
        }
        let ghost before = order@;
        order.insert(p, k);
        proof {
            let after = order@;
            assert forall|i: int, j: int| 0 <= i < j < after.len() implies goes_before(
                keys@,
                (#[trigger] after[i]) as int,
                (#[trigger] after[j]) as int,
            ) by {
                if j < p {
                    assert(after[i] == before[i] && after[j] == before[j]);
                } else if j == p {
                    assert(after[i] == before[i]);
                    if i == p - 1 {
                    } else {
                        assert(goes_before(keys@, before[i] as int, before[p - 1] as int));
                        lemma_goes_before_transitive(
                            keys@,
                            before[i] as int,
                            before[p - 1] as int,
                            k as int,
                        );
                    }
                } else if i < p {
                    assert(after[i] == before[i] && after[j] == before[j - 1]);
                } else if i == p {
                    assert(after[j] == before[j - 1]);
                } else {
                    assert(after[i] == before[i - 1] && after[j] == before[j - 1]);
                }
            }
            assert forall|i: int, j: int| 0 <= i < after.len() && 0 <= j < after.len() && i
                != j implies after[i] != after[j] by {
                let bi = if i < p { i } else { i - 1 };
                let bj = if j < p { j } else { j - 1 };
                if i != p && j != p {
                    assert(after[i] == before[bi] && after[j] == before[bj]);
                } else if i == p {
                    assert(after[j] == before[bj]);
                } else {
                    assert(after[i] == before[bi]);
                }
            }
            assert forall|x: usize| x < k + 1 implies #[trigger] after.contains(x) by {
                if x == k {
                    assert(after[p as int] == x);
                } else {
                    assert(before.contains(x));
                    let i = choose|i: int| 0 <= i < before.len() && before[i] == x;
                    if i < p {
                        assert(after[i] == x);
                    } else {
                        assert(after[i + 1] == x);
                    }
                }
            }
            assert forall|i: int| 0 <= i < after.len() implies (#[trigger] after[i]) < k + 1 by {
                if i < p {
                    assert(after[i] == before[i]);
                } else if i > p {
                    assert(after[i] == before[i - 1]);
                }
            }
        }
        k += 1;
    }
    order
}

} // verus!
