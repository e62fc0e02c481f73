//! The order in which listings show their rows: highest rank first, rows of
//! equal rank in the order in which they were stored.

use vstd::prelude::*;

verus! {

/// Whether the rank `a` is strictly higher than the rank `b`: the first
/// component decides, the second breaks ties.
pub open spec fn outranks(a: (i64, i64), b: (i64, i64)) -> bool {
    a.0 > b.0 || (a.0 == b.0 && a.1 > b.1)
}

/// Whether row `i` is shown before row `j`.
pub open spec fn precedes(ranks: Seq<(i64, i64)>, i: int, j: int) -> bool {
    outranks(ranks[i], ranks[j]) || (ranks[i] == ranks[j] && i < j)
}

/// Whether row `row` is among the entries of `order`.
pub open spec fn lists(order: Seq<usize>, row: int) -> bool {
    exists|k: int| 0 <= k < order.len() && (#[trigger] order[k]) == row
}

/// Whether `picks` lists rows of a table with the given ranks in the order
/// of a listing: each entry is a row of the table, and an earlier entry
/// precedes a later one. No row is listed twice, since no row precedes
/// itself.
pub open spec fn is_ranked(ranks: Seq<(i64, i64)>, picks: Seq<usize>) -> bool {
    &&& forall|k: int| 0 <= k < picks.len() ==> (#[trigger] picks[k]) < ranks.len()
    &&& forall|a: int, b: int|
        0 <= a < b < picks.len() ==> precedes(
            ranks,
            (#[trigger] picks[a]) as int,
            (#[trigger] picks[b]) as int,
        )
}

/// Whether `order` lists every row of a table with the given ranks, each
/// once, in the order of a listing.
pub open spec fn is_listing_order(ranks: Seq<(i64, i64)>, order: Seq<usize>) -> bool {
    &&& order.len() == ranks.len()
    &&& is_ranked(ranks, order)
    &&& forall|row: int| 0 <= row < ranks.len() ==> #[trigger] lists(order, row)
}

/// The rows of `table` in the sequence that `order` gives.
pub open spec fn arranged<T>(table: Seq<T>, order: Seq<usize>) -> Seq<T> {
    Seq::new(order.len(), |k: int| table[order[k] as int])
}

/// Whether the rank `a` is strictly higher than the rank `b`.
pub fn rank_above(a: (i64, i64), b: (i64, i64)) -> (above: bool)
    ensures
        above == outranks(a, b),
{
    a.0 > b.0 || (a.0 == b.0 && a.1 > b.1)
}

/// Computes the order in which a listing shows the rows with the given
/// ranks.
pub fn listing_order(ranks: &Vec<(i64, i64)>) -> (order: Vec<usize>)
    ensures
        is_listing_order(ranks@, order@),
{
    let n = ranks.len();
    let mut order: Vec<usize> = Vec::new();
    let mut i: usize = 0;
    while i < n
        invariant
            i <= n,
            n == ranks.len(),
            order.len() == i,
            forall|k: int| 0 <= k < order.len() ==> (#[trigger] order[k]) < i,
            forall|a: int, b: int|
                0 <= a < b < order.len() ==> precedes(
                    ranks@,
                    (#[trigger] order[a]) as int,
                    (#[trigger] order[b]) as int,
                ),
            forall|row: int| 0 <= row < i ==> #[trigger] lists(order@, row),
        decreases n - i,
    {
        let rank = ranks[i];
        let m = order.len();
        let mut p: usize = 0;
        let mut searching = true;
        while searching && p < m
            invariant
                p <= m,
                m == order.len(),
                i < n,
                n == ranks.len(),
                rank == ranks[i as int],
                forall|k: int| 0 <= k < order.len() ==> (#[trigger] order[k]) < i,
                forall|k: int| 0 <= k < p ==> !outranks(rank, ranks[(#[trigger] order[k]) as int]),
                !searching ==> p < m && outranks(rank, ranks[order[p as int] as int]),
            decreases m - p + if searching { 1int } else { 0int },
        {
            if rank_above(rank, ranks[order[p]]) {
                searching = false;
            } else {
                p = p + 1;
            }
        }
        let ghost before = order@;
        order.insert(p, i);
        proof {
            let after = order@;
            assert forall|a: int, b: int| 0 <= a < b < after.len() implies precedes(
                ranks@,
                (#[trigger] after[a]) as int,
                (#[trigger] after[b]) as int,
            ) by {
                if b < p {
                    assert(after[a] == before[a] && after[b] == before[b]);
                } else if b == p {
                    assert(after[a] == before[a]);
                } else if a < p {
                    assert(after[a] == before[a] && after[b] == before[b - 1]);
                } else if a == p {
                    assert(after[b] == before[b - 1]);
                    if b - 1 > p {
                        assert(precedes(ranks@, before[p as int] as int, before[b - 1] as int));
                    }
                } else {
                    assert(after[a] == before[a - 1] && after[b] == before[b - 1]);
                }
            }
            assert forall|k: int| 0 <= k < after.len() implies (#[trigger] after[k]) < i + 1 by {
                if k < p {
                    assert(after[k] == before[k]);
                } else if k > p {
                    assert(after[k] == before[k - 1]);
                }
            }
            assert forall|row: int| 0 <= row < i + 1 implies #[trigger] lists(after, row) by {
                if row == i {
                    assert(after[p as int] == i);
                } else {
                    assert(lists(before, row));
                    let k = choose|k: int| 0 <= k < before.len() && (#[trigger] before[k]) == row;
                    if k < p {
                        assert(after[k] == row);
                    } else {
                        assert(after[k + 1] == row);
                    }
                }
            }
        }
        i = i + 1;
    }
    order
}

/// Whether `picks` lists exactly the rows that `wanted` marks, each once, in
/// the order of a listing.
pub open spec fn is_selection(ranks: Seq<(i64, i64)>, wanted: Seq<bool>, picks: Seq<usize>) -> bool {
    &&& wanted.len() == ranks.len()
    &&& is_ranked(ranks, picks)
    &&& forall|k: int| 0 <= k < picks.len() ==> wanted[(#[trigger] picks[k]) as int]
    &&& forall|row: int| 0 <= row < ranks.len() && wanted[row] ==> #[trigger] lists(picks, row)
}

/// Computes the order in which a listing shows those rows that `wanted`
/// marks.
pub fn listing_selection(ranks: &Vec<(i64, i64)>, wanted: &Vec<bool>) -> (picks: Vec<usize>)
    requires
        wanted.len() == ranks.len(),
    ensures
        is_selection(ranks@, wanted@, picks@),
{
    let order = listing_order(ranks);
    let n = order.len();
    let mut picks: Vec<usize> = Vec::new();
    let ghost mut source: Seq<int> = Seq::empty();
    let mut k: usize = 0;
    while k < n
        invariant
            k <= n,
            n == order.len(),
            wanted.len() == ranks.len(),
            is_listing_order(ranks@, order@),
            source.len() == picks.len(),
            forall|a: int|
                0 <= a < picks.len() ==> 0 <= (#[trigger] source[a]) < k && picks[a]
                    == order[source[a]],
            forall|a: int, b: int|
                0 <= a < b < picks.len() ==> (#[trigger] source[a]) < (#[trigger] source[b]),
            forall|a: int| 0 <= a < picks.len() ==> wanted[(#[trigger] picks[a]) as int],
            forall|j: int|
                0 <= j < k && wanted[(#[trigger] order[j]) as int] ==> lists(
                    picks@,
                    order[j] as int,
                ),
        decreases n - k,
    {
        let row = order[k];
        if wanted[row] {
            let ghost before = picks@;
            picks.push(row);
            proof {
                source = source.push(k as int);
                assert forall|j: int|
                    0 <= j < k + 1 && wanted[(#[trigger] order[j]) as int] implies lists(
                    picks@,
                    order[j] as int,
                ) by {
                    if j < k {
                        assert(lists(before, order[j] as int));
                        let w = choose|w: int|
                            0 <= w < before.len() && (#[trigger] before[w]) == order[j];
                        assert(picks@[w] == order[j]);
                    } else {
                        assert(picks@[picks.len() - 1] == order[j]);
                    }
                }
            }
        }
        k = k + 1;
    }
    proof {
        assert forall|a: int, b: int| 0 <= a < b < picks.len() implies precedes(
            ranks@,
            (#[trigger] picks[a]) as int,
            (#[trigger] picks[b]) as int,
        ) by {
            assert(source[a] < source[b]);
            assert(precedes(ranks@, order[source[a]] as int, order[source[b]] as int));
        }
        assert forall|row: int| 0 <= row < ranks.len() && wanted[row] implies #[trigger] lists(
            picks@,
            row,
        ) by {
            assert(lists(order@, row));
            let j = choose|j: int| 0 <= j < order.len() && (#[trigger] order[j]) == row;
            assert(wanted[order[j] as int]);
        }
        assert forall|a: int| 0 <= a < picks.len() implies (#[trigger] picks[a]) < ranks.len() by {
            assert(picks[a] == order[source[a]]);
        }
    }
    picks
}

} // verus!
