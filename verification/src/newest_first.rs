//! The order in which things with a time are listed: the newest first, and
//! those of one time in the order in which they were kept.
use vstd::prelude::*;

verus! {

/// The position before which the thing `i` goes in an order: before the first
/// that is older.
pub open spec fn place(times: Seq<u64>, order: Seq<int>, i: int, at: int) -> int
    decreases order.len() - at,
{
    if at < 0 || at >= order.len() {
        order.len() as int
    } else if times[order[at]] < times[i] {
        at
    } else {
        place(times, order, i, at + 1)
    }
}

/// The order of things by their times: the newest first, and those of one time
/// as they stand.
pub open spec fn newest_first(times: Seq<u64>, n: nat) -> Seq<int>
    decreases n,
{
    if n == 0 {
        Seq::empty()
    } else {
        let before = newest_first(times, (n - 1) as nat);
        before.insert(place(times, before, n - 1, 0), n - 1)
    }
}

/// The views of positions.
pub open spec fn positions(order: Seq<usize>) -> Seq<int> {
    order.map_values(|i: usize| i as int)
}

fn find_place(times: &Vec<u64>, order: &Vec<usize>, i: usize) -> (r: usize)
    requires
        i < times@.len(),
        forall|k: int| 0 <= k < order@.len() ==> #[trigger] order@[k] < times@.len(),
    ensures
        r == place(times@, positions(order@), i as int, 0),
        r <= order@.len(),
{
    let ghost shown = positions(order@);
    let mut at: usize = 0;
    while at < order.len()
        invariant
            at <= order@.len(),
            i < times@.len(),
            shown == positions(order@),
            forall|k: int| 0 <= k < order@.len() ==> #[trigger] order@[k] < times@.len(),
            place(times@, shown, i as int, 0) == place(times@, shown, i as int, at as int),
        decreases order@.len() - at,
    {
        proof {
            assert(shown[at as int] == order@[at as int]);
        }
        if times[order[at]] < times[i] {
            return at;
        }
        at += 1;
    }
    at
}

/// The order of things by their times: the newest first.
pub fn order_by_time(times: &Vec<u64>) -> (r: Vec<usize>)
    ensures
        positions(r@) == newest_first(times@, times@.len()),
        r@.len() == times@.len(),
        forall|k: int| 0 <= k < r@.len() ==> #[trigger] r@[k] < times@.len(),
{
    let mut order: Vec<usize> = Vec::new();
    let mut i: usize = 0;
    proof {
        assert(positions(order@) =~= Seq::empty());
    }
    while i < times.len()
        invariant
            i <= times@.len(),
            order@.len() == i,
            positions(order@) == newest_first(times@, i as nat),
            forall|k: int| 0 <= k < order@.len() ==> #[trigger] order@[k] < times@.len(),
        decreases times@.len() - i,
    {
        let at: usize = find_place(times, &order, i);
        let ghost before = positions(order@);
        order.insert(at, i);
        proof {
            assert(positions(order@) =~= before.insert(at as int, i as int));
        }
        i += 1;
    }
    order
}

/// Nothing older comes before anything newer, and of two things of one time the
/// one that was kept first comes first.
pub open spec fn listed_before(times: Seq<u64>, a: int, b: int) -> bool {
    times[a] > times[b] || (times[a] == times[b] && a < b)
}

proof fn place_bounds(times: Seq<u64>, order: Seq<int>, i: int, at: int)
    requires
        0 <= at <= order.len(),
    ensures
        at <= place(times, order, i, at) <= order.len(),
        forall|k: int| at <= k < place(times, order, i, at) ==> times[#[trigger] order[k]]
            >= times[i],
        place(times, order, i, at) < order.len() ==> times[order[place(times, order, i, at)]]
            < times[i],
    decreases order.len() - at,
{
    if at < order.len() && !(times[order[at]] < times[i]) {
        place_bounds(times, order, i, at + 1);
    }
}

/// Everything is listed, and once: the order is one of the positions from zero
/// on, and of any two of them the newer comes first, or, of one time, the one
/// that was kept first.
pub proof fn the_list_is_complete_and_ordered(times: Seq<u64>, n: nat)
    requires
        n <= times.len(),
    ensures
        newest_first(times, n).len() == n,
        forall|k: int|
            0 <= k < n ==> 0 <= #[trigger] newest_first(times, n)[k] < n,
        forall|j: int, k: int|
            0 <= j < k < n ==> listed_before(
                times,
                #[trigger] newest_first(times, n)[j],
                #[trigger] newest_first(times, n)[k],
            ),
        forall|i: int| 0 <= i < n ==> #[trigger] newest_first(times, n).contains(i),
    decreases n,
{
    if n > 0 {
        let m = (n - 1) as nat;
        the_list_is_complete_and_ordered(times, m);
        let before = newest_first(times, m);
        let i = n - 1;
        let p = place(times, before, i, 0);
        place_bounds(times, before, i, 0);
        let after = newest_first(times, n);
        assert(after == before.insert(p, i));
        assert forall|j: int, k: int| 0 <= j < k < n implies listed_before(
            times,
            #[trigger] after[j],
            #[trigger] after[k],
        ) by {
            let x = if j < p {
                j
            } else {
                j - 1
            };
            let y = if k < p {
                k
            } else {
                k - 1
            };
            if j == p {
                assert(after[k] == before[k - 1]);
                if k - 1 > p {
                    assert(listed_before(times, before[p], before[k - 1]));
                }
                assert(times[before[p]] < times[i]);
            } else if k == p {
                assert(after[j] == before[j]);
                assert(times[before[j]] >= times[i]);
            } else {
                assert(after[j] == before[x]);
                assert(after[k] == before[y]);
                assert(listed_before(times, before[x], before[y]));
            }
        }
        assert forall|t: int| 0 <= t < n implies #[trigger] after.contains(t) by {
            if t == i {
                assert(after[p] == i);
            } else {
                assert(before.contains(t));
                let k = choose|k: int| 0 <= k < before.len() && before[k] == t;
                if k < p {
                    assert(after[k] == t);
                } else {
                    assert(after[k + 1] == t);
                }
            }
        }
    }
}

} // verus!
