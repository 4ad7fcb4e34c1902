use crate::structures::VkBaseOutStructure;
use vstd::prelude::*;

verus! {

/// The `k`-th structure of a chain that starts at `first` and goes on through
/// `rest`: position 0 is `first`, position `k + 1` is `rest[k]`.
pub open spec fn chain_at(first: usize, rest: Seq<usize>, k: int) -> usize {
    if k == 0 {
        first
    } else {
        rest[k - 1]
    }
}

/// Every position of the chain names a structure of the store, and no
/// structure stands twice in it, so the chain has no cycle.
#[verifier::opaque]
pub open spec fn valid_chain(len: nat, first: usize, rest: Seq<usize>) -> bool {
    &&& forall|k: int| 0 <= k <= rest.len() ==> #[trigger] chain_at(first, rest, k) < len
    &&& forall|k1: int, k2: int|
        0 <= k1 <= rest.len() && 0 <= k2 <= rest.len() && k1 != k2 ==> #[trigger] chain_at(
            first,
            rest,
            k1,
        ) != #[trigger] chain_at(first, rest, k2)
}

/// The store after the first `n` links of the chain have been written.
pub open spec fn linked_prefix(
    store: Seq<VkBaseOutStructure>,
    first: usize,
    rest: Seq<usize>,
    n: nat,
) -> Seq<VkBaseOutStructure>
    decreases n,
{
    if n == 0 {
        store
    } else {
        let before = linked_prefix(store, first, rest, (n - 1) as nat);
        let at = chain_at(first, rest, n - 1) as int;
        before.update(at, VkBaseOutStructure { pNext: Some(rest[n - 1]), ..before[at] })
    }
}

proof fn lemma_linked_prefix(store: Seq<VkBaseOutStructure>, first: usize, rest: Seq<usize>, n: nat)
    requires
        valid_chain(store.len(), first, rest),
        n <= rest.len(),
    ensures
        linked_prefix(store, first, rest, n).len() == store.len(),
        forall|k: int|
            0 <= k < n ==> linked_prefix(store, first, rest, n)[#[trigger] chain_at(
                first,
                rest,
                k,
            ) as int].pNext == Some(rest[k]),
        forall|j: int|
            0 <= j < store.len() && (forall|k: int| 0 <= k < n ==> j != #[trigger] chain_at(first, rest, k))
                ==> linked_prefix(store, first, rest, n)[j] == store[j],
        forall|j: int|
            0 <= j < store.len() ==> #[trigger] linked_prefix(store, first, rest, n)[j].sType
                == store[j].sType,
    decreases n,
{
    reveal(valid_chain);
    if n > 0 {
        let m = (n - 1) as nat;
        lemma_linked_prefix(store, first, rest, m);
        let at = chain_at(first, rest, m as int);
        assert(at < store.len());
        assert forall|k: int| 0 <= k < n implies linked_prefix(store, first, rest, n)[#[trigger] chain_at(
            first,
            rest,
            k,
        ) as int].pNext == Some(rest[k]) by {
            if k < m {
                assert(chain_at(first, rest, k) != chain_at(first, rest, m as int));
            }
        }
        assert forall|j: int|
            0 <= j < store.len() && (forall|k: int| 0 <= k < n ==> j != #[trigger] chain_at(first, rest, k))
                implies linked_prefix(store, first, rest, n)[j] == store[j] by {
            assert(j != chain_at(first, rest, m as int));
            assert forall|k: int| 0 <= k < m implies j != #[trigger] chain_at(first, rest, k) by {
                assert(0 <= k < n);
            }
        }
    }
}

/// Links `first` to `rest[0]`, each `rest[k]` to `rest[k + 1]`, and leaves the
/// extension pointer of the last structure as it was. Nothing else changes.
pub fn link_vulkan_structures(
    store: &mut Vec<VkBaseOutStructure>,
    first: usize,
    rest: &Vec<usize>,
)
    requires
        rest@.len() >= 1,
        valid_chain(old(store)@.len(), first, rest@),
    ensures
        final(store)@.len() == old(store)@.len(),
        forall|k: int|
            0 <= k < rest@.len() ==> final(store)@[chain_at(first, rest@, k) as int].pNext == Some(
                rest@[k],
            ),
        forall|j: int|
            0 <= j < old(store)@.len() && (forall|k: int|
                0 <= k < rest@.len() ==> j != chain_at(first, rest@, k)) ==> final(store)@[j]
                == old(store)@[j],
        forall|j: int|
            0 <= j < old(store)@.len() ==> final(store)@[j].sType == old(store)@[j].sType,
{
    let mut prev: usize = first;
    let mut i: usize = 0;
    while i < rest.len()
        invariant
            valid_chain(old(store)@.len(), first, rest@),
            i <= rest@.len(),
            prev == chain_at(first, rest@, i as int),
            store@ == linked_prefix(old(store)@, first, rest@, i as nat),
        decreases rest@.len() - i,
    {
        let next = rest[i];
        proof {
            reveal(valid_chain);
            lemma_linked_prefix(old(store)@, first, rest@, i as nat);
            assert(chain_at(first, rest@, i as int) < old(store)@.len());
        }
        store[prev].pNext = Some(next);
        assert(store@ == linked_prefix(old(store)@, first, rest@, (i + 1) as nat));
        prev = next;
        i = i + 1;
    }
    proof {
        lemma_linked_prefix(old(store)@, first, rest@, rest@.len());
    }
}

} // verus!
