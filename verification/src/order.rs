//! Stable ordering of positions by descending key.
//!
//! Both the recency order of a history and the ranking of candidates are the
//! same thing: the positions `0..n` of a list, arranged so that larger keys
//! come first and equal keys keep the order they came in.

use vstd::prelude::*;

verus! {

/// Position `a` comes strictly before position `b`: its key is larger, or
/// the keys are equal and `a` was earlier in the input.
pub open spec fn precedes(keys: Seq<int>, a: int, b: int) -> bool {
    keys[a] > keys[b] || (keys[a] == keys[b] && a < b)
}

/// `order` lists every position of `keys` exactly once, each before all the
/// positions it precedes.
pub open spec fn is_stable_descending(keys: Seq<int>, order: Seq<int>) -> bool {
    &&& order.len() == keys.len()
    &&& forall|p: int| 0 <= p < order.len() ==> 0 <= #[trigger] order[p] < keys.len()
    &&& forall|i: int| 0 <= i < keys.len() ==> #[trigger] order.contains(i)
    &&& forall|p: int, q: int|
        0 <= p < q < order.len() ==> precedes(keys, #[trigger] order[p], #[trigger] order[q])
}

/// The stable descending order of `keys`. It exists and is unique for every
/// list of keys, see `lemma_order_exists` and `lemma_order_unique`.
pub open spec fn stable_descending(keys: Seq<int>) -> Seq<int> {
    choose|order: Seq<int>| is_stable_descending(keys, order)
}

/// Keys as mathematical integers.
pub open spec fn keys_view(keys: Seq<i128>) -> Seq<int> {
    keys.map_values(|k: i128| k as int)
}

/// Positions as mathematical integers.
pub open spec fn positions_view(order: Seq<usize>) -> Seq<int> {
    order.map_values(|p: usize| p as int)
}

/// `slot` is where the last position of `keys` belongs in `order`, an
/// ordering of all the positions before it.
spec fn is_slot(keys: Seq<int>, order: Seq<int>, slot: int) -> bool {
    let key = keys[keys.len() - 1];
    &&& 0 <= slot <= order.len()
    &&& forall|p: int| 0 <= p < slot ==> keys[#[trigger] order[p]] >= key
    &&& forall|p: int| slot <= p < order.len() ==> keys[#[trigger] order[p]] < key
}

/// Putting the newest position into its slot extends a stable descending
/// order by one key.
proof fn lemma_insert_keeps_order(keys: Seq<int>, order: Seq<int>, slot: int)
    requires
        keys.len() > 0,
        is_stable_descending(keys.drop_last(), order),
        is_slot(keys, order, slot),
    ensures
        is_stable_descending(keys, order.insert(slot, keys.len() - 1)),
{
    let last = keys.len() - 1;
    let shorter = keys.drop_last();
    let longer = order.insert(slot, last);
    assert forall|i: int| 0 <= i < keys.len() implies #[trigger] longer.contains(i) by {
        if i == last {
            assert(longer[slot] == i);
        } else {
            assert(order.contains(i));
            let p = choose|p: int| 0 <= p < order.len() && order[p] == i;
            if p < slot {
                assert(longer[p] == i);
            } else {
                assert(longer[p + 1] == i);
            }
        }
    }
    assert forall|p: int, q: int| 0 <= p < q < longer.len() implies precedes(
        keys,
        #[trigger] longer[p],
        #[trigger] longer[q],
    ) by {
        let from_p = if p < slot { p } else { p - 1 };
        let from_q = if q < slot { q } else { q - 1 };
        if p != slot && q != slot {
            assert(precedes(shorter, order[from_p], order[from_q]));
        }
    }
}

/// Every list of keys has a stable descending order.
pub proof fn lemma_order_exists(keys: Seq<int>)
    ensures
        is_stable_descending(keys, stable_descending(keys)),
    decreases keys.len(),
{
    if keys.len() == 0 {
        assert(is_stable_descending(keys, Seq::<int>::empty()));
    } else {
        lemma_order_exists(keys.drop_last());
        let order = stable_descending(keys.drop_last());
        let slot = lemma_slot_exists(keys, order, order.len() as int);
        lemma_insert_keeps_order(keys, order, slot);
    }
}

/// Walks left from `bound` to the slot of the newest position.
proof fn lemma_slot_exists(keys: Seq<int>, order: Seq<int>, bound: int) -> (slot: int)
    requires
        keys.len() > 0,
        is_stable_descending(keys.drop_last(), order),
        0 <= bound <= order.len(),
        forall|p: int| bound <= p < order.len() ==> keys[#[trigger] order[p]] < keys[keys.len() - 1],
    ensures
        is_slot(keys, order, slot),
    decreases bound,
{
    let key = keys[keys.len() - 1];
    if bound == 0 {
        0
    } else if keys[order[bound - 1]] >= key {
        assert forall|p: int| 0 <= p < bound implies keys[#[trigger] order[p]] >= key by {
            if p < bound - 1 {
                assert(precedes(keys.drop_last(), order[p], order[bound - 1]));
            }
        }
        bound
    } else {
        lemma_slot_exists(keys, order, bound - 1)
    }
}

/// Two stable descending orders of the same keys agree on their first
/// `upto` entries.
proof fn lemma_orders_agree(keys: Seq<int>, first: Seq<int>, second: Seq<int>, upto: int)
    requires
        is_stable_descending(keys, first),
        is_stable_descending(keys, second),
        0 <= upto <= keys.len(),
    ensures
        forall|p: int| 0 <= p < upto ==> first[p] == second[p],
    decreases upto,
{
    if upto > 0 {
        lemma_orders_agree(keys, first, second, upto - 1);
        let p = upto - 1;
        let a = first[p];
        let b = second[p];
        if a != b {
            // Each order holds the other's entry further on, so each of
            // the two positions would precede the other.
            assert(second.contains(a));
            let q = choose|q: int| 0 <= q < second.len() && second[q] == a;
            assert(first.contains(b));
            let r = choose|r: int| 0 <= r < first.len() && first[r] == b;
            assert(p < q && p < r);
            assert(precedes(keys, second[p], second[q]));
            assert(precedes(keys, first[p], first[r]));
        }
    }
}

/// A list of keys has only one stable descending order.
pub proof fn lemma_order_unique(keys: Seq<int>, order: Seq<int>)
    requires
        is_stable_descending(keys, order),
    ensures
        order == stable_descending(keys),
{
    let chosen = stable_descending(keys);
    lemma_orders_agree(keys, order, chosen, keys.len() as int);
}

/// Keys that never increase are already in stable descending order.
pub proof fn lemma_sorted_keys_keep_order(keys: Seq<int>)
    requires
        forall|i: int, j: int| 0 <= i < j < keys.len() ==> keys[i] >= keys[j],
    ensures
        stable_descending(keys) == Seq::new(keys.len(), |i: int| i),
{
    let identity = Seq::new(keys.len(), |i: int| i);
    assert forall|i: int| 0 <= i < keys.len() implies #[trigger] identity.contains(i) by {
        assert(identity[i] == i);
    }
    lemma_order_unique(keys, identity);
}

/// `order` lists every position from `lo` up to `hi` exactly once, each
/// before all the positions it precedes.
spec fn is_ordered_range(keys: Seq<int>, lo: int, hi: int, order: Seq<int>) -> bool {
    &&& order.len() == hi - lo
    &&& forall|p: int| 0 <= p < order.len() ==> lo <= #[trigger] order[p] < hi
    &&& forall|i: int| lo <= i < hi ==> #[trigger] order.contains(i)
    &&& forall|p: int, q: int|
        0 <= p < q < order.len() ==> precedes(keys, #[trigger] order[p], #[trigger] order[q])
}

/// Merges the orders of two adjoining ranges of positions into the order
/// of the whole. Where keys are equal the left range goes first: its
/// positions are the earlier ones.
fn merge(
    keys: &Vec<i128>,
    left: &Vec<usize>,
    right: &Vec<usize>,
    Ghost(lo): Ghost<int>,
    Ghost(mid): Ghost<int>,
    Ghost(hi): Ghost<int>,
) -> (merged: Vec<usize>)
    requires
        0 <= lo <= mid <= hi <= keys@.len(),
        is_ordered_range(keys_view(keys@), lo, mid, positions_view(left@)),
        is_ordered_range(keys_view(keys@), mid, hi, positions_view(right@)),
    ensures
        is_ordered_range(keys_view(keys@), lo, hi, positions_view(merged@)),
{
    let ghost all = keys_view(keys@);
    let ghost l = positions_view(left@);
    let ghost r = positions_view(right@);
    let mut merged: Vec<usize> = Vec::new();
    let mut a: usize = 0;
    let mut b: usize = 0;
    while a < left.len() || b < right.len()
        invariant
            0 <= lo <= mid <= hi <= keys@.len(),
            all == keys_view(keys@),
            l == positions_view(left@),
            r == positions_view(right@),
            is_ordered_range(all, lo, mid, l),
            is_ordered_range(all, mid, hi, r),
            a <= left@.len(),
            b <= right@.len(),
            merged@.len() == a + b,
            forall|p: int| 0 <= p < merged@.len() ==> lo <= #[trigger] merged@[p] < hi,
            forall|x: int| 0 <= x < a ==> positions_view(merged@).contains(#[trigger] l[x]),
            forall|y: int| 0 <= y < b ==> positions_view(merged@).contains(#[trigger] r[y]),
            forall|p: int, q: int|
                0 <= p < q < merged@.len() ==> precedes(
                    all,
                    #[trigger] merged@[p] as int,
                    #[trigger] merged@[q] as int,
                ),
            forall|p: int, x: int|
                0 <= p < merged@.len() && a <= x < l.len() ==> precedes(
                    all,
                    #[trigger] merged@[p] as int,
                    #[trigger] l[x],
                ),
            forall|p: int, y: int|
                0 <= p < merged@.len() && b <= y < r.len() ==> precedes(
                    all,
                    #[trigger] merged@[p] as int,
                    #[trigger] r[y],
                ),
        decreases left@.len() - a + right@.len() - b,
    {
        let ghost before = positions_view(merged@);
        proof {
            if a < left@.len() {
                assert(l[a as int] == left@[a as int]);
            }
            if b < right@.len() {
                assert(r[b as int] == right@[b as int]);
            }
        }
        let from_left = if b == right.len() {
            true
        } else if a == left.len() {
            false
        } else {
            keys[left[a]] >= keys[right[b]]
        };
        if from_left {
            let next = left[a];
            merged.push(next);
            proof {
                assert forall|p: int, x: int|
                    0 <= p < merged@.len() && a + 1 <= x < l.len() implies precedes(
                    all,
                    #[trigger] merged@[p] as int,
                    #[trigger] l[x],
                ) by {
                    if p == merged@.len() - 1 {
                        assert(precedes(all, l[a as int], l[x]));
                    }
                }
                assert forall|p: int, y: int|
                    0 <= p < merged@.len() && b <= y < r.len() implies precedes(
                    all,
                    #[trigger] merged@[p] as int,
                    #[trigger] r[y],
                ) by {
                    if p == merged@.len() - 1 && y > b {
                        assert(precedes(all, r[b as int], r[y]));
                    }
                }
            }
            a += 1;
        } else {
            let next = right[b];
            merged.push(next);
            proof {
                assert forall|p: int, x: int|
                    0 <= p < merged@.len() && a <= x < l.len() implies precedes(
                    all,
                    #[trigger] merged@[p] as int,
                    #[trigger] l[x],
                ) by {
                    if p == merged@.len() - 1 && x > a {
                        assert(precedes(all, l[a as int], l[x]));
                    }
                }
                assert forall|p: int, y: int|
                    0 <= p < merged@.len() && b + 1 <= y < r.len() implies precedes(
                    all,
                    #[trigger] merged@[p] as int,
                    #[trigger] r[y],
                ) by {
                    if p == merged@.len() - 1 {
                        assert(precedes(all, r[b as int], r[y]));
                    }
                }
            }
            b += 1;
        }
        proof {
            let after = positions_view(merged@);
            assert(after =~= before.push(merged@[merged@.len() - 1] as int));
            assert forall|x: int| 0 <= x < a implies after.contains(#[trigger] l[x]) by {
                if before.contains(l[x]) {
                    let p = choose|p: int| 0 <= p < before.len() && before[p] == l[x];
                    assert(after[p] == l[x]);
                } else {
                    assert(after[after.len() - 1] == l[x]);
                }
            }
            assert forall|y: int| 0 <= y < b implies after.contains(#[trigger] r[y]) by {
                if before.contains(r[y]) {
                    let p = choose|p: int| 0 <= p < before.len() && before[p] == r[y];
                    assert(after[p] == r[y]);
                } else {
                    assert(after[after.len() - 1] == r[y]);
                }
            }
        }
    }
    proof {
        let whole = positions_view(merged@);
        assert forall|i: int| lo <= i < hi implies #[trigger] whole.contains(i) by {
            if i < mid {
                assert(l.contains(i));
                let x = choose|x: int| 0 <= x < l.len() && l[x] == i;
                assert(whole.contains(l[x]));
            } else {
                assert(r.contains(i));
                let y = choose|y: int| 0 <= y < r.len() && r[y] == i;
                assert(whole.contains(r[y]));
            }
        }
        assert forall|p: int, q: int| 0 <= p < q < whole.len() implies precedes(
            all,
            #[trigger] whole[p],
            #[trigger] whole[q],
        ) by {
            assert(precedes(all, merged@[p] as int, merged@[q] as int));
        }
    }
    merged
}

/// The positions from `lo` up to `hi`, larger keys first and equal keys in
/// the order they came in.
fn order_range(keys: &Vec<i128>, lo: usize, hi: usize) -> (order: Vec<usize>)
    requires
        lo <= hi <= keys@.len(),
    ensures
        is_ordered_range(keys_view(keys@), lo as int, hi as int, positions_view(order@)),
    decreases hi - lo,
{
    let mut order: Vec<usize> = Vec::new();
    if hi - lo == 1 {
        order.push(lo);
        assert(positions_view(order@)[0] == lo);
    } else if hi - lo > 1 {
        let mid = lo + (hi - lo) / 2;
        let left = order_range(keys, lo, mid);
        let right = order_range(keys, mid, hi);
        order = merge(keys, &left, &right, Ghost(lo as int), Ghost(mid as int), Ghost(hi as int));
    }
    order
}

/// Arranges the positions of `keys` by descending key, keeping positions
/// with equal keys in the order they came in. A merge sort: the number of
/// comparisons grows as `n log n`.
pub fn stable_descending_order(keys: &Vec<i128>) -> (order: Vec<usize>)
    ensures
        positions_view(order@) == stable_descending(keys_view(keys@)),
        is_stable_descending(keys_view(keys@), positions_view(order@)),
{
    let order = order_range(keys, 0, keys.len());
    proof {
        lemma_order_unique(keys_view(keys@), positions_view(order@));
    }
    order
}

} // verus!
