//! The order in which listings show their rows: newest first.
use vstd::prelude::*;

verus! {

/// Where a row with the given instant goes into an order of rows that is
/// newest first: before the first row that is older. Rows of the same instant
/// keep the order in which they were stored.
pub open spec fn slot(order: Seq<int>, instants: Seq<i64>, instant: i64) -> int
    decreases order.len(),
{
    if order.len() == 0 {
        0
    } else if instants[order[0]] < instant {
        0
    } else {
        1 + slot(order.drop_first(), instants, instant)
    }
}

/// The positions of the first `n` rows, ordered by their instants, newest
/// first.
pub open spec fn newest_first(instants: Seq<i64>, n: nat) -> Seq<int>
    decreases n,
{
    if n == 0 {
        Seq::<int>::empty()
    } else {
        let earlier = newest_first(instants, (n - 1) as nat);
        earlier.insert(slot(earlier, instants, instants[n - 1]), n - 1)
    }
}

/// The slot lies within the order or at its end.
pub proof fn lemma_slot_in_range(order: Seq<int>, instants: Seq<i64>, instant: i64)
    ensures
        0 <= slot(order, instants, instant) <= order.len(),
    decreases order.len(),
{
    if order.len() > 0 && !(instants[order[0]] < instant) {
        lemma_slot_in_range(order.drop_first(), instants, instant);
    }
}

/// The slot is the first position whose row is older than the instant.
pub proof fn lemma_slot_is_first_older(order: Seq<int>, instants: Seq<i64>, instant: i64, k: int)
    requires
        0 <= k <= order.len(),
        forall|j: int| 0 <= j < k ==> instants[#[trigger] order[j]] >= instant,
        k < order.len() ==> instants[order[k]] < instant,
    ensures
        slot(order, instants, instant) == k,
    decreases order.len(),
{
    if order.len() > 0 {
        if k == 0 {
        } else {
            assert(instants[order[0]] >= instant);
            let rest = order.drop_first();
            assert forall|j: int| 0 <= j < k - 1 implies instants[#[trigger] rest[j]] >= instant by {
                assert(rest[j] == order[j + 1]);
            }
            if k - 1 < rest.len() {
                assert(rest[k - 1] == order[k]);
            }
            lemma_slot_is_first_older(rest, instants, instant, k - 1);
        }
    }
}

/// What lies before the slot is not older than the instant, and what lies at
/// the slot is.
pub proof fn lemma_slot_splits(order: Seq<int>, instants: Seq<i64>, instant: i64)
    ensures
        forall|j: int|
            0 <= j < slot(order, instants, instant) ==> instants[#[trigger] order[j]] >= instant,
        slot(order, instants, instant) < order.len() ==> instants[order[slot(
            order,
            instants,
            instant,
        )]] < instant,
    decreases order.len(),
{
    lemma_slot_in_range(order, instants, instant);
    if order.len() > 0 && !(instants[order[0]] < instant) {
        let rest = order.drop_first();
        lemma_slot_splits(rest, instants, instant);
        lemma_slot_in_range(rest, instants, instant);
        assert forall|j: int| 0 <= j < slot(order, instants, instant) implies instants[#[trigger] order[j]]
            >= instant by {
            if j > 0 {
                assert(order[j] == rest[j - 1]);
            }
        }
        if slot(order, instants, instant) < order.len() {
            assert(order[slot(order, instants, instant)] == rest[slot(rest, instants, instant)]);
        }
    }
}

/// Whether an order holds each of the first `n` positions, and only those.
pub open spec fn holds_positions(order: Seq<int>, n: nat) -> bool {
    &&& order.len() == n
    &&& forall|j: int| 0 <= j < order.len() ==> 0 <= #[trigger] order[j] < n
    &&& forall|p: int| 0 <= p < n ==> order.contains(p)
}

/// Whether the rows of an order are newest first.
pub open spec fn is_newest_first(order: Seq<int>, instants: Seq<i64>) -> bool {
    forall|i: int, j: int|
        0 <= i < j < order.len() ==> instants[#[trigger] order[i]] >= instants[#[trigger] order[j]]
}

/// The order that is newest first holds every row once, and its rows are
/// newest first.
pub proof fn law_newest_first_orders_all_rows(instants: Seq<i64>, n: nat)
    requires
        n <= instants.len(),
    ensures
        holds_positions(newest_first(instants, n), n),
        is_newest_first(newest_first(instants, n), instants),
        newest_first(instants, n).no_duplicates(),
    decreases n,
{
    if n > 0 {
        let earlier = newest_first(instants, (n - 1) as nat);
        law_newest_first_orders_all_rows(instants, (n - 1) as nat);
        let k = slot(earlier, instants, instants[n - 1]);
        lemma_slot_in_range(earlier, instants, instants[n - 1]);
        lemma_slot_splits(earlier, instants, instants[n - 1]);
        let order = earlier.insert(k, n - 1);
        assert(order == newest_first(instants, n));
        assert forall|p: int| 0 <= p < n implies order.contains(p) by {
            if p == n - 1 {
                assert(order[k] == p);
            } else {
                assert(earlier.contains(p));
                let j = choose|j: int| 0 <= j < earlier.len() && earlier[j] == p;
                if j < k {
                    assert(order[j] == p);
                } else {
                    assert(order[j + 1] == p);
                }
            }
        }
        assert forall|i: int, j: int| 0 <= i < j < order.len() implies instants[#[trigger] order[i]]
            >= instants[#[trigger] order[j]] by {
            if i < k && j < k {
                assert(order[i] == earlier[i] && order[j] == earlier[j]);
            } else if i < k && j == k {
                assert(order[i] == earlier[i]);
            } else if i < k && j > k {
                assert(order[i] == earlier[i] && order[j] == earlier[j - 1]);
            } else if i == k {
                assert(order[j] == earlier[j - 1]);
                assert(instants[earlier[k]] < instants[n - 1]);
                if j - 1 > k {
                    assert(instants[earlier[k]] >= instants[earlier[j - 1]]);
                }
            } else {
                assert(order[i] == earlier[i - 1] && order[j] == earlier[j - 1]);
            }
        }
        assert forall|i: int, j: int| 0 <= i < order.len() && 0 <= j < order.len() && i != j implies order[i]
            != order[j] by {
            let a = if i < k {
                i
            } else {
                i - 1
            };
            let b = if j < k {
                j
            } else {
                j - 1
            };
            if i != k && j != k {
                assert(order[i] == earlier[a] && order[j] == earlier[b]);
            } else if i == k {
                assert(order[j] == earlier[b]);
            } else {
                assert(order[i] == earlier[a]);
            }
        }
    }
}

/// The positions of the rows with the given instants, newest first.
pub fn order_newest_first(instants: &Vec<i64>) -> (order: Vec<usize>)
    ensures
        order@.map_values(|p: usize| p as int) == newest_first(instants@, instants@.len()),
{
    let mut order: Vec<usize> = Vec::new();
    let mut n: usize = 0;
    while n < instants.len()
        invariant
            n <= instants.len(),
            order@.map_values(|p: usize| p as int) == newest_first(instants@, n as nat),
        decreases instants.len() - n,
    {
        let ghost earlier = order@.map_values(|p: usize| p as int);
        proof {
            law_newest_first_orders_all_rows(instants@, n as nat);
        }
        let instant = instants[n];
        assert forall|j: int| 0 <= j < order.len() implies #[trigger] order@[j] < instants.len() by {
            assert(0 <= earlier[j] < n);
        }
        let mut k: usize = 0;
        while k < order.len() && instants[order[k]] >= instant
            invariant
                k <= order.len(),
                n < instants.len(),
                order.len() == n,
                earlier == order@.map_values(|p: usize| p as int),
                holds_positions(earlier, n as nat),
                forall|j: int| 0 <= j < order.len() ==> #[trigger] order@[j] < instants.len(),
                forall|j: int| 0 <= j < k ==> instants@[#[trigger] earlier[j]] >= instant,
            decreases order.len() - k,
        {
            assert(0 <= earlier[k as int] < n);
            k = k + 1;
        }
        proof {
            if k < order.len() {
                assert(0 <= earlier[k as int] < n);
            }
            lemma_slot_is_first_older(earlier, instants@, instant, k as int);
        }
        order.insert(k, n);
        assert(order@.map_values(|p: usize| p as int) =~= earlier.insert(k as int, n as int));
        n = n + 1;
    }
    order
}

/// The position at which a page begins in a listing of `len` rows: `offset`
/// rows are skipped, as far as there are that many.
pub open spec fn page_start(len: nat, offset: Option<i64>) -> int {
    match offset {
        Some(o) => if o <= 0 {
            0
        } else if o >= len {
            len as int
        } else {
            o as int
        },
        None => 0,
    }
}

/// The position before which a page ends in a listing of `len` rows: at most
/// `limit` rows are shown.
pub open spec fn page_end(len: nat, limit: Option<i64>, offset: Option<i64>) -> int {
    let start = page_start(len, offset);
    match limit {
        Some(l) => if l <= 0 {
            start
        } else if l >= len - start {
            len as int
        } else {
            start + l
        },
        None => len as int,
    }
}

/// The part of a listing that a page shows: `offset` rows are skipped, and at
/// most `limit` rows are shown.
pub open spec fn page<T>(rows: Seq<T>, limit: Option<i64>, offset: Option<i64>) -> Seq<T> {
    rows.subrange(page_start(rows.len(), offset), page_end(rows.len(), limit, offset))
}

/// The bounds of a page in a listing of `len` rows: the positions from the
/// first to before the second are shown.
pub fn page_bounds(len: usize, limit: Option<i64>, offset: Option<i64>) -> (bounds: (usize, usize))
    ensures
        bounds.0 <= bounds.1 <= len,
        bounds.0 == page_start(len as nat, offset),
        bounds.1 == page_end(len as nat, limit, offset),
{
    let start: usize = match offset {
        Some(o) => {
            if o <= 0 {
                0
            } else if o as u64 >= len as u64 {
                len
            } else {
                o as usize
            }
        },
        None => 0,
    };
    let end: usize = match limit {
        Some(l) => {
            if l <= 0 {
                start
            } else if l as u64 >= (len - start) as u64 {
                len
            } else {
                start + l as usize
            }
        },
        None => len,
    };
    (start, end)
}

} // verus!
