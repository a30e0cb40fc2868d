//! The counter that every identifier comes from.
//!
//! One counter serves all collections. It holds the last identifier issued,
//! 0 before the first; each identifier is the one before it plus one, and is
//! written to the counter's cell before it is handed out.

use crate::error::StoreError;
use crate::region::{
    cell_get, cell_init, cell_new, cell_reload, cell_set, cell_value, IdCell, Region,
};
use ic_stable_structures::cell::{InitError, ValueError};
use vstd::prelude::*;

verus! {

/// The identifier that follows `last`: none where `last` is the largest.
pub open spec fn following(last: u64) -> Result<u64, StoreError> {
    if last == u64::MAX {
        Err(StoreError::IdsExhausted)
    } else {
        Ok((last + 1) as u64)
    }
}

/// The identifier that follows `last`.
pub fn successor(last: u64) -> (out: Result<u64, StoreError>)
    ensures
        out == following(last),
{
    if last == u64::MAX {
        Err(StoreError::IdsExhausted)
    } else {
        Ok(last + 1)
    }
}

/// What a caller is told once the cell has answered the write of
/// `candidate`: the identifier if the cell took it, the failure if not.
pub fn issued(candidate: u64, written: Result<u64, ValueError>) -> (out: Result<u64, StoreError>)
    ensures
        out == (match written {
            Ok(_) => Ok::<u64, StoreError>(candidate),
            Err(_) => Err(StoreError::CounterNotPersisted),
        }),
{
    match written {
        Ok(_) => Ok(candidate),
        Err(_) => Err(StoreError::CounterNotPersisted),
    }
}

/// The allocator of identifiers.
pub struct IdAllocator {
    cell: IdCell,
}

impl IdAllocator {
    /// The last identifier issued, 0 where none was.
    pub closed spec fn last(&self) -> u64 {
        cell_value(self.cell)
    }

    /// The allocator over the cell that was made anew, or the failure where
    /// none could be made.
    pub fn over_new_cell(made: Result<IdCell, ValueError>) -> (out: Result<IdAllocator, StoreError>)
        ensures
            match made {
                Ok(cell) => out matches Ok(ids) && ids.last() == cell_value(cell),
                Err(_) => out matches Err(e) && e == StoreError::CounterUnavailable,
            },
    {
        match made {
            Ok(cell) => Ok(IdAllocator { cell }),
            Err(_) => Err(StoreError::CounterUnavailable),
        }
    }

    /// The allocator over the cell that a region held, or the failure where
    /// the cell could not be set up.
    pub fn over_cell(found: Result<IdCell, InitError>) -> (out: Result<IdAllocator, StoreError>)
        ensures
            match found {
                Ok(cell) => out matches Ok(ids) && ids.last() == cell_value(cell),
                Err(_) => out matches Err(e) && e == StoreError::CounterUnavailable,
            },
    {
        match found {
            Ok(cell) => Ok(IdAllocator { cell }),
            Err(_) => Err(StoreError::CounterUnavailable),
        }
    }

    /// A counter that has issued nothing, in place of whatever `region` held.
    pub(crate) fn create(region: Region) -> (out: Result<IdAllocator, StoreError>)
        ensures
            match out {
                Ok(ids) => ids.last() == 0,
                Err(e) => e == StoreError::CounterUnavailable,
            },
    {
        Self::over_new_cell(cell_new(region, 0))
    }

    /// The counter that `region` holds, or one that has issued nothing where
    /// the region holds none.
    pub(crate) fn open(region: Region) -> (out: Result<IdAllocator, StoreError>)
        ensures
            out matches Err(e) ==> e == StoreError::CounterUnavailable,
    {
        Self::over_cell(cell_init(region, 0))
    }

    /// The counter as a restart finds it: it has issued what this one has.
    pub fn reopen(self) -> (out: Result<IdAllocator, StoreError>)
        ensures
            match out {
                Ok(ids) => ids.last() == self.last(),
                Err(e) => e == StoreError::CounterUnavailable,
            },
    {
        Self::over_cell(cell_reload(self.cell))
    }

    /// The last identifier issued.
    pub fn last_id(&self) -> (id: u64)
        ensures
            id == self.last(),
    {
        cell_get(&self.cell)
    }

    /// Issues the next identifier. On failure the counter is as it was; the
    /// failure is `IdsExhausted` exactly where nothing is left to issue, and
    /// `CounterNotPersisted` where the cell did not take the identifier.
    pub fn next(&mut self) -> (out: Result<u64, StoreError>)
        ensures
            match out {
                Ok(id) => {
                    &&& old(self).last() < u64::MAX
                    &&& id == old(self).last() + 1
                    &&& final(self).last() == id
                },
                Err(e) => {
                    &&& final(self).last() == old(self).last()
                    &&& e == StoreError::IdsExhausted || e == StoreError::CounterNotPersisted
                    &&& e == StoreError::IdsExhausted <==> old(self).last() == u64::MAX
                },
            },
    {
        let candidate: u64 = match successor(cell_get(&self.cell)) {
            Ok(id) => id,
            Err(e) => {
                return Err(e);
            },
        };
        let written = cell_set(&mut self.cell, candidate);
        issued(candidate, written)
    }
}

} // verus!
