//! The slot table: one occupancy flag per worker, `true` while a ticket for
//! that worker is outstanding.
//!
//! The table is modelled as a `Seq<bool>`. Reserving flips the first `false`
//! entry, releasing flips an entry back. The proof functions at the end of the
//! file state what follows for any sequence of reservations and releases.

use crate::sync::quiet_len;
use crate::sync::quiet_store;
use vstd::prelude::*;

verus! {

/// Number of occupied entries.
pub open spec fn occupied_count(flags: Seq<bool>) -> nat
    decreases flags.len(),
{
    if flags.len() == 0 {
        0
    } else {
        occupied_count(flags.drop_last()) + if flags.last() {
            1nat
        } else {
            0nat
        }
    }
}

/// Every entry is occupied.
pub open spec fn all_occupied(flags: Seq<bool>) -> bool {
    forall|j: int| 0 <= j < flags.len() ==> flags[j]
}

/// No entry is occupied.
pub open spec fn all_free(flags: Seq<bool>) -> bool {
    forall|j: int| 0 <= j < flags.len() ==> !flags[j]
}

/// `i` is the lowest free index of the table.
pub open spec fn is_first_free(flags: Seq<bool>, i: int) -> bool {
    &&& 0 <= i < flags.len()
    &&& !flags[i]
    &&& forall|j: int| 0 <= j < i ==> flags[j]
}

/// The index that a reservation on `flags` hands out, if any.
pub open spec fn first_free(flags: Seq<bool>) -> Option<int> {
    if all_occupied(flags) {
        None
    } else {
        Some(choose|i: int| is_first_free(flags, i))
    }
}

/// The table after a reservation: unchanged where nothing is free.
pub open spec fn after_reserve(flags: Seq<bool>) -> Seq<bool> {
    match first_free(flags) {
        Some(i) => flags.update(i, true),
        None => flags,
    }
}

/// The table after the holder of `idx` gave it back.
pub open spec fn after_release(flags: Seq<bool>, idx: int) -> Seq<bool> {
    flags.update(idx, false)
}

/// The entries of the table that stand for one of `limit` workers.
pub open spec fn within(flags: Seq<bool>, limit: nat) -> Seq<bool> {
    if limit <= flags.len() {
        flags.take(limit as int)
    } else {
        flags
    }
}

/// A table of `n` free entries.
pub open spec fn fresh(n: nat) -> Seq<bool> {
    Seq::new(n, |i: int| false)
}

/// The table after `k` reservations in a row.
pub open spec fn after_reservations(flags: Seq<bool>, k: nat) -> Seq<bool>
    decreases k,
{
    if k == 0 {
        flags
    } else {
        after_reserve(after_reservations(flags, (k - 1) as nat))
    }
}

/// The indices of `tickets` are pairwise distinct, each names an occupied
/// entry of `flags`, and every occupied entry is named by one of them.
pub open spec fn tickets_match(flags: Seq<bool>, tickets: Set<int>) -> bool {
    forall|i: int| tickets.contains(i) <==> (0 <= i < flags.len() && flags[i])
}

/// A table of `n` free entries.
pub fn new_table(n: usize) -> (flags: Vec<bool>)
    ensures
        flags@ == fresh(n as nat),
{
    let mut flags: Vec<bool> = Vec::new();
    let mut i: usize = 0;
    while i < n
        invariant
            i <= n,
            flags@ == fresh(i as nat),
        decreases n - i,
    {
        flags.push(false);
        i = i + 1;
        assert(flags@ =~= fresh(i as nat));
    }
    flags
}

/// Scans for the first free entry, marks it occupied and returns its index.
/// Returns `None`, and changes nothing, when every entry is occupied.
pub fn reserve_first_free(flags: &mut Vec<bool>) -> (slot: Option<usize>)
    ensures
        match slot {
            Some(i) => is_first_free(old(flags)@, i as int),
            None => all_occupied(old(flags)@),
        },
        slot.is_some() == first_free(old(flags)@).is_some(),
        slot matches Some(i) ==> first_free(old(flags)@) == Some(i as int),
        final(flags)@ == after_reserve(old(flags)@),
{
    let n = flags.len();
    let mut i: usize = 0;
    while i < n
        invariant
            i <= n,
            n == flags.len(),
            flags@ == old(flags)@,
            forall|j: int| 0 <= j < i ==> flags[j],
        decreases n - i,
    {
        if !flags[i] {
            proof {
                lemma_first_free_is(flags@, i as int);
            }
            flags[i] = true;
            return Some(i);
        }
        i = i + 1;
    }
    None
}

/// Marks entry `idx` free again. Every other entry is left as it was.
pub fn release_slot(flags: &mut Vec<bool>, idx: usize)
    requires
        idx < old(flags).len(),
    ensures
        final(flags)@ == after_release(old(flags)@, idx as int),
    opens_invariants none
    no_unwind
{
    quiet_store(flags, idx, false);
}

/// The table after a ticket for `idx` was given back: entry `idx` is free
/// where the table has such an entry, and nothing has changed where it has
/// none.
pub open spec fn after_release_within(flags: Seq<bool>, idx: int) -> Seq<bool> {
    if 0 <= idx < flags.len() {
        after_release(flags, idx)
    } else {
        flags
    }
}

/// Marks entry `idx` free again where the table has such an entry, and
/// leaves the table as it is where it has none.
pub fn release_within(flags: &mut Vec<bool>, idx: usize)
    ensures
        final(flags)@ == after_release_within(old(flags)@, idx as int),
    opens_invariants none
    no_unwind
{
    if idx < quiet_len(flags) {
        release_slot(flags, idx);
    }
}

/// Counts the occupied entries.
pub fn count_occupied(flags: &Vec<bool>) -> (count: usize)
    ensures
        count == occupied_count(flags@),
{
    let mut count: usize = 0;
    let mut i: usize = 0;
    while i < flags.len()
        invariant
            i <= flags.len(),
            count <= i,
            count == occupied_count(flags@.take(i as int)),
        decreases flags.len() - i,
    {
        assert(flags@.take(i + 1).drop_last() =~= flags@.take(i as int));
        if flags[i] {
            count = count + 1;
        }
        i = i + 1;
    }
    assert(flags@.take(flags.len() as int) =~= flags@);
    count
}

/// Counts the occupied entries among those that stand for one of `limit`
/// workers: the first `limit` entries, or all of them where the table has
/// fewer.
pub fn count_occupied_below(flags: &Vec<bool>, limit: usize) -> (count: usize)
    ensures
        count == occupied_count(within(flags@, limit as nat)),
        count <= limit,
{
    let end = if limit <= flags.len() {
        limit
    } else {
        flags.len()
    };
    let mut count: usize = 0;
    let mut i: usize = 0;
    while i < end
        invariant
            i <= end,
            end <= flags.len(),
            count <= i,
            count == occupied_count(flags@.take(i as int)),
        decreases end - i,
    {
        assert(flags@.take(i + 1).drop_last() =~= flags@.take(i as int));
        if flags[i] {
            count = count + 1;
        }
        i = i + 1;
    }
    assert(flags@.take(flags.len() as int) =~= flags@);
    count
}

/// Copies the entries that stand for one of `limit` workers: the first
/// `limit` entries, or all of them where the table has fewer.
pub fn copy_within(flags: &Vec<bool>, limit: usize) -> (copy: Vec<bool>)
    ensures
        copy@ == within(flags@, limit as nat),
        copy@.len() <= limit,
{
    let end = if limit <= flags.len() {
        limit
    } else {
        flags.len()
    };
    let mut copy: Vec<bool> = Vec::new();
    let mut i: usize = 0;
    while i < end
        invariant
            i <= end,
            end <= flags.len(),
            copy@ == flags@.take(i as int),
        decreases end - i,
    {
        copy.push(flags[i]);
        i = i + 1;
        assert(copy@ =~= flags@.take(i as int));
    }
    assert(flags@.take(flags.len() as int) =~= flags@);
    copy
}

/// The lowest free index is unique, and it is the one `first_free` names.
pub proof fn lemma_first_free_is(flags: Seq<bool>, i: int)
    requires
        is_first_free(flags, i),
    ensures
        first_free(flags) == Some(i),
        !all_occupied(flags),
{
    assert(!flags[i]);
    let c = choose|c: int| is_first_free(flags, c);
    assert(is_first_free(flags, c));
    if c < i {
        assert(flags[c]);
    } else if i < c {
        assert(flags[i]);
    }
}

/// A table that is not full has a lowest free index.
pub proof fn lemma_first_free_exists(flags: Seq<bool>)
    requires
        !all_occupied(flags),
    ensures
        first_free(flags) matches Some(i) && is_first_free(flags, i),
{
    let j = choose|j: int| 0 <= j < flags.len() && !flags[j];
    lemma_lowest_free_below(flags, j);
    let i = choose|i: int| is_first_free(flags, i);
    lemma_first_free_is(flags, i);
}

proof fn lemma_lowest_free_below(flags: Seq<bool>, j: int)
    requires
        0 <= j < flags.len(),
        !flags[j],
    ensures
        exists|i: int| is_first_free(flags, i),
    decreases j,
{
    if forall|k: int| 0 <= k < j ==> flags[k] {
        assert(is_first_free(flags, j));
    } else {
        let k = choose|k: int| 0 <= k < j && !flags[k];
        lemma_lowest_free_below(flags, k);
    }
}

/// The count never exceeds the table's size.
pub proof fn lemma_count_bounded(flags: Seq<bool>)
    ensures
        occupied_count(flags) <= flags.len(),
    decreases flags.len(),
{
    if flags.len() > 0 {
        lemma_count_bounded(flags.drop_last());
    }
}

/// Flipping one entry moves the count by exactly one, or not at all where the
/// entry already had the new value.
pub proof fn lemma_count_update(flags: Seq<bool>, idx: int, value: bool)
    requires
        0 <= idx < flags.len(),
    ensures
        occupied_count(flags.update(idx, value)) == occupied_count(flags) + (if value {
            1int
        } else {
            0int
        }) - (if flags[idx] {
            1int
        } else {
            0int
        }),
    decreases flags.len(),
{
    let updated = flags.update(idx, value);
    if idx == flags.len() - 1 {
        assert(updated.drop_last() =~= flags.drop_last());
    } else {
        assert(updated.drop_last() =~= flags.drop_last().update(idx, value));
        lemma_count_update(flags.drop_last(), idx, value);
    }
}

/// The table is full exactly when the count equals its size, and empty
/// exactly when the count is zero.
pub proof fn lemma_count_extremes(flags: Seq<bool>)
    ensures
        all_occupied(flags) <==> occupied_count(flags) == flags.len(),
        all_free(flags) <==> occupied_count(flags) == 0,
    decreases flags.len(),
{
    if flags.len() > 0 {
        let front = flags.drop_last();
        lemma_count_extremes(front);
        lemma_count_bounded(front);
        if all_occupied(flags) {
            assert(flags.last());
            assert forall|j: int| 0 <= j < front.len() implies front[j] by {
                assert(flags[j]);
            }
        }
        if all_occupied(front) && flags.last() {
            assert forall|j: int| 0 <= j < flags.len() implies flags[j] by {
                if j < front.len() {
                    assert(front[j]);
                }
            }
        }
        if all_free(flags) {
            assert(!flags.last());
            assert forall|j: int| 0 <= j < front.len() implies !front[j] by {
                assert(!flags[j]);
            }
        }
        if all_free(front) && !flags.last() {
            assert forall|j: int| 0 <= j < flags.len() implies !flags[j] by {
                if j < front.len() {
                    assert(!front[j]);
                }
            }
        }
    }
}

/// A reservation succeeds exactly when fewer than all entries are occupied.
/// It then hands out an index that was free, raises the count by exactly
/// one and changes no other entry; otherwise it changes nothing.
pub proof fn lemma_reserve(flags: Seq<bool>)
    ensures
        first_free(flags).is_some() <==> occupied_count(flags) < flags.len(),
        first_free(flags) matches Some(i) ==> {
            &&& is_first_free(flags, i)
            &&& after_reserve(flags) == flags.update(i, true)
            &&& occupied_count(after_reserve(flags)) == occupied_count(flags) + 1
        },
        first_free(flags).is_none() ==> after_reserve(flags) == flags,
        after_reserve(flags).len() == flags.len(),
{
    lemma_count_extremes(flags);
    lemma_count_bounded(flags);
    if !all_occupied(flags) {
        lemma_first_free_exists(flags);
        let i = first_free(flags).unwrap();
        lemma_count_update(flags, i, true);
    }
}

/// A fresh table of `n` entries serves `n` reservations in a row: the
/// `k`-th of them, counted from zero, receives index `k`, and none of them
/// finds the table full.
pub proof fn lemma_fresh_table_serves_all(n: nat, k: nat)
    requires
        k < n,
    ensures
        first_free(after_reservations(fresh(n), k)) == Some(k as int),
        occupied_count(after_reservations(fresh(n), k)) == k,
{
    lemma_fresh_prefix(n, k);
    let t = after_reservations(fresh(n), k);
    assert(is_first_free(t, k as int));
    lemma_first_free_is(t, k as int);
}

/// After `n` reservations a table of `n` entries is full, and the next
/// reservation is refused without changing it.
pub proof fn lemma_full_table_refuses(n: nat)
    ensures
        all_occupied(after_reservations(fresh(n), n)),
        first_free(after_reservations(fresh(n), n)).is_none(),
        after_reserve(after_reservations(fresh(n), n)) == after_reservations(fresh(n), n),
        occupied_count(after_reservations(fresh(n), n)) == n,
{
    lemma_fresh_prefix(n, n);
}

/// After `k <= n` reservations on a fresh table of `n` entries, exactly the
/// entries below `k` are occupied.
pub proof fn lemma_fresh_prefix(n: nat, k: nat)
    requires
        k <= n,
    ensures
        after_reservations(fresh(n), k).len() == n,
        forall|j: int| 0 <= j < n ==> after_reservations(fresh(n), k)[j] == (j < k),
        occupied_count(after_reservations(fresh(n), k)) == k,
    decreases k,
{
    if k == 0 {
        assert(all_free(fresh(n)));
        lemma_count_extremes(fresh(n));
    } else {
        lemma_fresh_prefix(n, (k - 1) as nat);
        let before = after_reservations(fresh(n), (k - 1) as nat);
        assert(is_first_free(before, k - 1));
        lemma_first_free_is(before, k - 1);
        lemma_reserve(before);
    }
}

/// Releasing an occupied entry lowers the count by exactly one, frees that
/// entry, leaves every other entry as it was, and the next reservation
/// succeeds with an index no higher than the one released.
pub proof fn lemma_release(flags: Seq<bool>, idx: int)
    requires
        0 <= idx < flags.len(),
        flags[idx],
    ensures
        occupied_count(after_release(flags, idx)) == occupied_count(flags) - 1,
        !after_release(flags, idx)[idx],
        forall|j: int| 0 <= j < flags.len() && j != idx ==> after_release(flags, idx)[j] == flags[j],
        first_free(after_release(flags, idx)) matches Some(i) && i <= idx,
        all_occupied(flags) ==> first_free(after_release(flags, idx)) == Some(idx),
{
    lemma_count_update(flags, idx, false);
    let released = after_release(flags, idx);
    assert(!released[idx]);
    lemma_first_free_exists(released);
    let i = first_free(released).unwrap();
    if idx < i {
        assert(released[idx]);
    }
    if all_occupied(flags) && i < idx {
        assert(flags[i]);
    }
}

/// A reservation never hands out an index that an outstanding ticket holds:
/// if `tickets` are the outstanding tickets of `flags`, the index handed out
/// is none of them, and together with it they are the outstanding tickets of
/// the table after the reservation.
pub proof fn lemma_reserve_keeps_tickets_distinct(flags: Seq<bool>, tickets: Set<int>)
    requires
        tickets_match(flags, tickets),
    ensures
        first_free(flags) matches Some(i) ==> !tickets.contains(i) && tickets_match(
            after_reserve(flags),
            tickets.insert(i),
        ),
        first_free(flags).is_none() ==> tickets_match(after_reserve(flags), tickets),
{
    lemma_reserve(flags);
}

/// When a ticket is given back, the remaining tickets are the outstanding
/// tickets of the table after the release.
pub proof fn lemma_release_keeps_tickets_distinct(flags: Seq<bool>, tickets: Set<int>, idx: int)
    requires
        tickets_match(flags, tickets),
        tickets.contains(idx),
    ensures
        tickets_match(after_release(flags, idx), tickets.remove(idx)),
{
}

/// The outstanding tickets of a table are finitely many, as many as the
/// count of occupied entries, and never more than the table has entries.
pub proof fn lemma_tickets_counted(flags: Seq<bool>, tickets: Set<int>)
    requires
        tickets_match(flags, tickets),
    ensures
        tickets.finite(),
        tickets.len() == occupied_count(flags),
        tickets.len() <= flags.len(),
    decreases flags.len(),
{
    lemma_count_bounded(flags);
    if flags.len() == 0 {
        assert(tickets =~= Set::empty());
    } else {
        let last = flags.len() - 1;
        let front = flags.drop_last();
        let rest = tickets.remove(last);
        assert(tickets_match(front, rest)) by {
            assert forall|i: int| rest.contains(i) <==> (0 <= i < front.len() && front[i]) by {
                if 0 <= i < front.len() {
                    assert(front[i] == flags[i]);
                }
            }
        }
        lemma_tickets_counted(front, rest);
        if flags.last() {
            assert(tickets.contains(last));
            assert(tickets =~= rest.insert(last));
        } else {
            assert(!tickets.contains(last));
            assert(tickets =~= rest);
        }
    }
}

} // verus!
