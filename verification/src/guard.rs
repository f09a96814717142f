//! The shared slot table and the occupancy ticket: a reserved slot that frees
//! itself when dropped.
//!
//! The table's lock is private to [`SlotTable`]. It is taken only by the
//! functions of this file, each of which holds no guard of it when it asks
//! for one and lets go of it before it returns.

use crate::error::PoolError;
use crate::slots::after_reserve;
use crate::slots::copy_within;
use crate::slots::count_occupied_below;
use crate::slots::first_free;
use crate::slots::new_table;
use crate::slots::release_within;
use crate::slots::reserve_first_free;
use crate::sync::acquire;
use crate::sync::enter;
use crate::sync::held;
use crate::sync::new_lock;
use std::sync::Mutex;
use vstd::prelude::*;

verus! {

/// A slot table that many callers share: one occupancy flag per slot, behind
/// a lock of its own.
pub struct SlotTable {
    flags: Mutex<Vec<bool>>,
    slots: usize,
}

/// The right to use one slot of a shared slot table. Creating it marks the
/// first free slot occupied; dropping it marks that slot free again, on
/// whatever path the holder leaves.
pub struct UsingGuard<'a> {
    table: &'a SlotTable,
    idx: usize,
}

impl SlotTable {
    /// The number of slots that the table was made with.
    pub closed spec fn capacity(&self) -> nat {
        self.slots as nat
    }

    /// A table of `slots` slots, all of them free.
    pub fn new(slots: usize) -> (table: SlotTable)
        ensures
            table.capacity() == slots,
    {
        SlotTable { flags: new_lock(new_table(slots)), slots }
    }

    /// The number of slots that the table was made with.
    pub fn size(&self) -> (slots: usize)
        ensures
            slots == self.capacity(),
    {
        self.slots
    }

    /// The number of slots that are occupied at the moment of the call:
    /// never more than the table has. The table is shared, so the count
    /// holds only while the lock is held; [`count_occupied_below`] states
    /// what is counted there.
    pub fn occupancy(&self) -> (count: usize)
        ensures
            count <= self.capacity(),
    {
        let mut entered = enter(&self.flags);
        let flags = held(&mut entered);
        count_occupied_below(flags, self.slots)
    }

    /// A copy of the table's flags as they are at the moment of the call,
    /// one for each slot and never more than the table has. The table is
    /// shared, so the flags hold only while the lock is held;
    /// [`copy_within`] states what is copied there.
    pub fn snapshot(&self) -> (copy: Vec<bool>)
        ensures
            copy@.len() <= self.capacity(),
    {
        let mut entered = enter(&self.flags);
        let flags = held(&mut entered);
        copy_within(flags, self.slots)
    }
}

impl<'a> UsingGuard<'a> {
    /// The slot that this ticket holds.
    pub closed spec fn index(&self) -> usize {
        self.idx
    }

    /// The slot that this ticket holds.
    pub fn get_locked_idx(&self) -> (idx: usize)
        ensures
            idx == self.index(),
    {
        self.idx
    }

    /// Reserves the first free slot of `flags`, the flags of `table`, which
    /// the caller has entered. The ticket is for that slot; a full table is
    /// refused and left as it is.
    fn claim(table: &'a SlotTable, flags: &mut Vec<bool>) -> (ticket: Result<
        UsingGuard<'a>,
        PoolError,
    >)
        ensures
            match ticket {
                Ok(guard) => first_free(old(flags)@) == Some(guard.index() as int),
                Err(e) => e is NoSlotAvailable && first_free(old(flags)@).is_none(),
            },
            final(flags)@ == after_reserve(old(flags)@),
    {
        match reserve_first_free(flags) {
            Some(idx) => Ok(UsingGuard { table, idx }),
            None => Err(PoolError::NoSlotAvailable),
        }
    }

    /// Locks the table, reserves its first free slot and unlocks it again.
    /// Never waits for a slot: a full table is reported at once.
    ///
    /// The table is shared, so which slot is free is known only while the
    /// lock is held; [`reserve_first_free`] states which one is taken there.
    pub fn new(table: &'a SlotTable) -> (ticket: Result<UsingGuard<'a>, PoolError>)
        ensures
            ticket matches Err(e) ==> e is NoSlotAvailable || e is LockPoisoned,
    {
        match acquire(&table.flags) {
            Ok(mut guard) => UsingGuard::claim(table, held(&mut guard)),
            Err(_) => Err(PoolError::LockPoisoned),
        }
    }
}

impl<'a> Drop for UsingGuard<'a> {
    /// Marks the slot free again. A poisoned lock is entered all the same, so
    /// that the slot is not lost with it.
    fn drop(&mut self)
        opens_invariants none
        no_unwind
    {
        let mut guard = enter(&self.table.flags);
        release_within(held(&mut guard), self.idx);
    }
}

} // verus!
