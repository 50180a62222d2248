//! Selecting the nearest item sightings.
//!
//! The environment hands back raw sightings of dropped items; the pursuit
//! only wants the few nearest ones within scan range, ordered ascending by
//! distance. This module filters, sorts and truncates, and its contract says
//! exactly that: the result is a distance-sorted selection from the in-range
//! candidates, and anything left out lies at least as far away as everything
//! kept.

use vstd::prelude::*;
use vstd::multiset::Multiset;
use vstd::seq_lib::lemma_multiset_commutative;

use crate::pos::{dist_sq, BlockPos};
use crate::retrieve::ItemSighting;

verus! {

/// Squared distance from the query origin to a sighting.
pub open spec fn item_dist(origin: BlockPos, s: ItemSighting) -> int {
    dist_sq(origin, s.pos)
}

/// Whether a sighting lies within the scan range.
pub open spec fn in_range(origin: BlockPos, max_distance: u32, s: ItemSighting) -> bool {
    item_dist(origin, s) <= (max_distance as int) * (max_distance as int)
}

/// The candidates within scan range, in candidate order.
pub open spec fn in_range_of(
    candidates: Seq<ItemSighting>,
    origin: BlockPos,
    max_distance: u32,
) -> Seq<ItemSighting> {
    candidates.filter(|c: ItemSighting| in_range(origin, max_distance, c))
}

/// Ascending by squared distance from the origin.
pub open spec fn sorted_by_dist(origin: BlockPos, s: Seq<ItemSighting>) -> bool {
    forall|i: int, j: int|
        0 <= i < j < s.len() ==> item_dist(origin, #[trigger] s[i]) <= item_dist(
            origin,
            #[trigger] s[j],
        )
}

/// The up-to-`limit` nearest candidates within `max_distance` of `origin`,
/// ascending by distance.
///
/// The contract pins the result down: it is exactly `limit` long unless
/// fewer candidates are in range; it is sorted by distance; every element
/// is drawn from the in-range candidates (respecting multiplicity); and any
/// in-range candidate that was left out is at least as far from the origin
/// as every element kept — so the result really is the nearest ones.
pub fn nearest_items_by_distance(
    candidates: &Vec<ItemSighting>,
    origin: BlockPos,
    max_distance: u32,
    limit: usize,
) -> (r: Vec<ItemSighting>)
    ensures
        ({
            let f = in_range_of(candidates@, origin, max_distance);
            &&& r@.len() == if limit as int <= f.len() {
                limit as int
            } else {
                f.len() as int
            }
            &&& sorted_by_dist(origin, r@)
            &&& forall|x: ItemSighting| #[trigger]
                r@.to_multiset().count(x) <= f.to_multiset().count(x)
            &&& forall|x: ItemSighting|
                f.to_multiset().count(x) > #[trigger] r@.to_multiset().count(x) ==> forall|i: int|
                    0 <= i < r@.len() ==> item_dist(origin, #[trigger] r@[i]) <= item_dist(
                        origin,
                        x,
                    )
        }),
{
    let ghost f = in_range_of(candidates@, origin, max_distance);
    let filtered = filter_in_range(candidates, origin, max_distance);
    let mut sorted = sort_by_distance(origin, filtered);
    proof {
        broadcast use vstd::seq_lib::group_to_multiset_ensures;

        assert(sorted@.len() == sorted@.to_multiset().len());
        assert(f.len() == f.to_multiset().len());
    }
    let k = if limit <= sorted.len() {
        limit
    } else {
        sorted.len()
    };
    let ghost whole = sorted@;
    sorted.truncate(k);
    proof {
        broadcast use vstd::seq_lib::group_to_multiset_ensures;

        assert(whole =~= whole.subrange(0, k as int) + whole.subrange(k as int, whole.len() as int));
        lemma_multiset_commutative(
            whole.subrange(0, k as int),
            whole.subrange(k as int, whole.len() as int),
        );
        let tail = whole.subrange(k as int, whole.len() as int);
        assert forall|x: ItemSighting|
            f.to_multiset().count(x) > #[trigger] sorted@.to_multiset().count(x) implies forall|
            i: int,
        |
            0 <= i < sorted@.len() ==> item_dist(origin, #[trigger] sorted@[i]) <= item_dist(
                origin,
                x,
            ) by {
            assert(tail.to_multiset().count(x) > 0);
            assert(tail.contains(x));
            let j = choose|j: int| 0 <= j < tail.len() && tail[j] == x;
            assert(whole[k + j] == x);
            assert forall|i: int| 0 <= i < sorted@.len() implies item_dist(
                origin,
                #[trigger] sorted@[i],
            ) <= item_dist(origin, x) by {
                assert(sorted@[i] == whole[i]);
                assert(item_dist(origin, whole[i]) <= item_dist(origin, whole[k + j]));
            }
        }
    }
    sorted
}

/// Keeps the candidates within scan range, in candidate order.
fn filter_in_range(candidates: &Vec<ItemSighting>, origin: BlockPos, max_distance: u32) -> (fv:
    Vec<ItemSighting>)
    ensures
        fv@ == in_range_of(candidates@, origin, max_distance),
{
    let m = max_distance as i128;
    proof {
        assert(0 <= m * m <= 0x1_0000_0000_0000_0000) by (nonlinear_arith)
            requires
                0 <= m < 0x1_0000_0000,
        ;
    }
    let max_sq: i128 = m * m;
    let ghost pred = |c: ItemSighting| in_range(origin, max_distance, c);
    let mut fv: Vec<ItemSighting> = Vec::new();
    let mut i: usize = 0;
    proof {
        assert(candidates@.take(0).filter(pred) =~= Seq::<ItemSighting>::empty()) by {
            reveal(Seq::filter);
        }
    }
    while i < candidates.len()
        invariant
            i <= candidates@.len(),
            max_sq == (max_distance as int) * (max_distance as int),
            pred == (|c: ItemSighting| in_range(origin, max_distance, c)),
            fv@ =~= candidates@.take(i as int).filter(pred),
        decreases candidates@.len() - i,
    {
        let c = candidates[i];
        let d = origin.distance_squared_to(&c.pos);
        proof {
            reveal(Seq::filter);
            assert(candidates@.take(i as int + 1).drop_last() =~= candidates@.take(i as int));
            assert(candidates@.take(i as int + 1).last() == candidates@[i as int]);
        }
        if d <= max_sq {
            fv.push(c);
        }
        i = i + 1;
    }
    proof {
        assert(candidates@.take(candidates@.len() as int) =~= candidates@);
    }
    fv
}

/// Sorts sightings ascending by distance from `origin` (insertion sort).
fn sort_by_distance(origin: BlockPos, v: Vec<ItemSighting>) -> (s: Vec<ItemSighting>)
    ensures
        sorted_by_dist(origin, s@),
        s@.to_multiset() == v@.to_multiset(),
{
    let mut s: Vec<ItemSighting> = Vec::new();
    let mut i: usize = 0;
    proof {
        broadcast use vstd::seq_lib::group_to_multiset_ensures;

        assert(v@.take(0) =~= Seq::<ItemSighting>::empty());
        assert(s@.to_multiset() =~= v@.take(0).to_multiset());
    }
    while i < v.len()
        invariant
            i <= v@.len(),
            sorted_by_dist(origin, s@),
            s@.to_multiset() == v@.take(i as int).to_multiset(),
        decreases v@.len() - i,
    {
        proof {
            broadcast use vstd::seq_lib::group_to_multiset_ensures;

            assert(v@.take(i as int + 1) =~= v@.take(i as int).push(v@[i as int]));
        }
        sorted_insert(&mut s, origin, v[i]);
        i = i + 1;
    }
    proof {
        assert(v@.take(v@.len() as int) =~= v@);
    }
    s
}

/// Inserts one sighting into a distance-sorted list, keeping it sorted.
fn sorted_insert(s: &mut Vec<ItemSighting>, origin: BlockPos, x: ItemSighting)
    requires
        sorted_by_dist(origin, old(s)@),
    ensures
        sorted_by_dist(origin, final(s)@),
        final(s)@.to_multiset() == old(s)@.to_multiset().insert(x),
{
    let dx = origin.distance_squared_to(&x.pos);
    let mut k: usize = 0;
    while k < s.len() && origin.distance_squared_to(&s[k].pos) <= dx
        invariant
            sorted_by_dist(origin, s@),
            *s == *old(s),
            dx == item_dist(origin, x),
            k <= s@.len(),
            forall|j: int| 0 <= j < k ==> item_dist(origin, #[trigger] s@[j]) <= item_dist(
                origin,
                x,
            ),
        decreases s@.len() - k,
    {
        k = k + 1;
    }
    let ghost before = s@;
    s.insert(k, x);
    proof {
        broadcast use vstd::seq_lib::group_to_multiset_ensures;

        before.insert_ensures(k as int, x);
        assert(s@ =~= before.take(k as int) + seq![x] + before.skip(k as int));
        assert(before =~= before.take(k as int) + before.skip(k as int));
        lemma_multiset_commutative(before.take(k as int) + seq![x], before.skip(k as int));
        lemma_multiset_commutative(before.take(k as int), seq![x]);
        lemma_multiset_commutative(before.take(k as int), before.skip(k as int));
        assert(seq![x].to_multiset() =~= Multiset::<ItemSighting>::empty().insert(x)) by {
            assert(seq![x].drop_first() =~= Seq::<ItemSighting>::empty());
        }
        assert(s@.to_multiset() =~= before.to_multiset().insert(x));
        assert forall|i: int, j: int| 0 <= i < j < s@.len() implies item_dist(
            origin,
            #[trigger] s@[i],
        ) <= item_dist(origin, #[trigger] s@[j]) by {
            if j < k {
                assert(s@[i] == before[i] && s@[j] == before[j]);
            } else if i < k && j == k {
                assert(s@[i] == before[i] && s@[j] == x);
            } else if i < k && j > k {
                assert(s@[i] == before[i] && s@[j] == before[j - 1]);
            } else if i == k {
                assert(s@[i] == x && s@[j] == before[j - 1] && k < before.len());
                if j - 1 > k {
                    assert(item_dist(origin, before[k as int]) <= item_dist(
                        origin,
                        before[j - 1],
                    ));
                }
            } else {
                assert(s@[i] == before[i - 1] && s@[j] == before[j - 1]);
            }
        }
    }
}

} // verus!
