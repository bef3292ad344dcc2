//! Stable ordering by a key, largest first.
//!
//! The scanners list what they find largest first, and items of equal size
//! keep the order in which they were found (as a stable sort does). The
//! order is computed on the keys alone, as a permutation of the indices.

use vstd::prelude::*;

verus! {

/// Index `a` comes before index `b`: a larger key first, and among equal
/// keys the smaller index first.
pub open spec fn goes_before(keys: Seq<u64>, a: int, b: int) -> bool {
    keys[a] > keys[b] || (keys[a] == keys[b] && a < b)
}

/// `order` lists each index below `n` once.
pub open spec fn is_permutation_of_range(order: Seq<usize>, n: nat) -> bool {
    &&& order.len() == n
    &&& forall|i: int| 0 <= i < order.len() ==> (#[trigger] order[i]) < n
    &&& forall|i: int, j: int| 0 <= i < j < order.len() ==> #[trigger] order[i] != #[trigger] order[j]
}

/// `order` is the stable order of `keys`, largest first.
pub open spec fn is_stable_desc_order(keys: Seq<u64>, order: Seq<usize>) -> bool {
    &&& is_permutation_of_range(order, keys.len())
    &&& forall|i: int, j: int|
        0 <= i < j < order.len() ==> goes_before(keys, #[trigger] order[i] as int, #[trigger] order[j] as int)
}

/// The indices of `keys` in stable order, largest key first (what a stable
/// sort by descending key does to the items).
pub fn stable_desc_order(keys: &Vec<u64>) -> (r: Vec<usize>)
    ensures
        is_stable_desc_order(keys@, r@),
{
    let n = keys.len();
    let mut r: Vec<usize> = Vec::new();
    let mut i: usize = 0;
    while i < n
        invariant
            n == keys.len(),
            i <= n,
            is_permutation_of_range(r@, i as nat),
            forall|a: int, b: int|
                0 <= a < b < r@.len() ==> goes_before(keys@, #[trigger] r@[a] as int, #[trigger] r@[b] as int),
        decreases n - i,
    {
        let k = keys[i];
        let mut p: usize = 0;
        while p < r.len() && keys[r[p]] >= k
            invariant
                n == keys.len(),
                i < n,
                k == keys@[i as int],
                p <= r@.len(),
                is_permutation_of_range(r@, i as nat),
                forall|q: int| 0 <= q < p ==> keys@[#[trigger] r@[q] as int] >= k,
            decreases r@.len() - p,
        {
            p = p + 1;
        }
        proof {
            // every index after `p` has a smaller key than `i`
            assert forall|q: int| p <= q < r@.len() implies keys@[#[trigger] r@[q] as int] < k by {
                if q > p {
                    assert(goes_before(keys@, r@[p as int] as int, r@[q] as int));
                }
            }
        }
        let ghost old_r = r@;
        r.insert(p, i);
        proof {
            assert(r@ == old_r.insert(p as int, i));
            assert forall|a: int| 0 <= a < r@.len() implies (#[trigger] r@[a]) < i + 1 by {
                if a < p {
                    assert(r@[a] == old_r[a]);
                } else if a > p {
                    assert(r@[a] == old_r[a - 1]);
                }
            }
            assert forall|a: int, b: int| 0 <= a < b < r@.len() implies #[trigger] r@[a] != #[trigger] r@[b] by {
                if a < p && b < p {
                    assert(r@[a] == old_r[a] && r@[b] == old_r[b]);
                } else if a < p && b == p {
                    assert(r@[a] == old_r[a]);
                } else if a < p && b > p {
                    assert(r@[a] == old_r[a] && r@[b] == old_r[b - 1]);
                } else if a == p {
                    assert(r@[b] == old_r[b - 1]);
                } else {
                    assert(r@[a] == old_r[a - 1] && r@[b] == old_r[b - 1]);
                }
            }
            assert forall|a: int, b: int| 0 <= a < b < r@.len() implies goes_before(
                keys@,
                #[trigger] r@[a] as int,
                #[trigger] r@[b] as int,
            ) by {
                if a < p && b < p {
                    assert(r@[a] == old_r[a] && r@[b] == old_r[b]);
                } else if a < p && b == p {
                    assert(r@[a] == old_r[a]);
                    assert(keys@[old_r[a] as int] >= k);
                } else if a < p && b > p {
                    assert(r@[a] == old_r[a] && r@[b] == old_r[b - 1]);
                    assert(goes_before(keys@, old_r[a] as int, old_r[b - 1] as int));
                } else if a == p {
                    assert(r@[b] == old_r[b - 1]);
                    assert(keys@[old_r[b - 1] as int] < k);
                } else {
                    assert(r@[a] == old_r[a - 1] && r@[b] == old_r[b - 1]);
                    assert(goes_before(keys@, old_r[a - 1] as int, old_r[b - 1] as int));
                }
            }
        }
        i = i + 1;
    }
    r
}

} // verus!
