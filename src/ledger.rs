use vstd::prelude::*;

use crate::address::Address;
use crate::error::ErrorCode;

verus! {

/// One deposit: its principal, net of the inbound fee, and the time from
/// which it accrues.
#[derive(Clone, Copy, Debug, PartialEq, Eq, Structural)]
pub struct StakeRecord {
    pub amount: u64,
    pub timestamp: i64,
}

/// Bytes that a stake account spends before its records: an 8-byte
/// discriminator, the owner's 32-byte address and a 4-byte length prefix.
pub const STAKE_ACCOUNT_HEADER: usize = 44;

/// Bytes per stored stake record.
pub const STAKE_RECORD_SIZE: usize = 16;

/// One participant's stake records, with the number of records that its
/// storage has room for.
#[derive(Debug)]
pub struct UserStakeAccount {
    pub authority: Address,
    pub stakes: Vec<StakeRecord>,
    pub capacity: usize,
}

/// The number of records that fit in a stake account of `space` bytes.
pub open spec fn records_fitting(space: int) -> int {
    if space < STAKE_ACCOUNT_HEADER {
        0
    } else {
        (space - STAKE_ACCOUNT_HEADER) / (STAKE_RECORD_SIZE as int)
    }
}

/// The number of records that fit in a stake account of `space` bytes.
pub fn record_capacity(space: usize) -> (r: usize)
    ensures
        r == records_fitting(space as int),
{
    if space < STAKE_ACCOUNT_HEADER {
        0
    } else {
        (space - STAKE_ACCOUNT_HEADER) / STAKE_RECORD_SIZE
    }
}

/// The space of a stake account of `space` bytes after one growth request:
/// room for one more record, short of the largest size there is.
pub fn grown_space(space: usize) -> (r: usize)
    ensures
        space + STAKE_RECORD_SIZE <= usize::MAX ==> r == space + STAKE_RECORD_SIZE,
        space + STAKE_RECORD_SIZE > usize::MAX ==> r == usize::MAX,
        records_fitting(r as int) >= records_fitting(space as int),
        space >= STAKE_ACCOUNT_HEADER && space + STAKE_RECORD_SIZE <= usize::MAX ==> records_fitting(r as int)
            == records_fitting(space as int) + 1,
{
    space.saturating_add(STAKE_RECORD_SIZE)
}

impl UserStakeAccount {
    pub open spec fn wf(&self) -> bool {
        self.stakes@.len() <= self.capacity
    }

    /// An empty account of `authority` with room for `capacity` records.
    pub fn new(authority: Address, capacity: usize) -> (r: UserStakeAccount)
        ensures
            r.authority == authority,
            r.stakes@ == Seq::<StakeRecord>::empty(),
            r.capacity == capacity,
            r.wf(),
    {
        UserStakeAccount { authority, stakes: Vec::new(), capacity }
    }

    /// Adds a record of `amount` accruing from `now`, where there is room.
    pub fn append(&mut self, amount: u64, now: i64) -> (r: Result<(), ErrorCode>)
        requires
            old(self).wf(),
        ensures
            final(self).wf(),
            final(self).authority == old(self).authority,
            final(self).capacity == old(self).capacity,
            old(self).stakes@.len() >= old(self).capacity ==> r == Err::<(), ErrorCode>(ErrorCode::CapacityExceeded)
                && *final(self) == *old(self),
            old(self).stakes@.len() < old(self).capacity ==> r == Ok::<(), ErrorCode>(())
                && final(self).stakes@ == old(self).stakes@.push(StakeRecord { amount, timestamp: now }),
    {
        if self.stakes.len() >= self.capacity {
            return Err(ErrorCode::CapacityExceeded);
        }
        self.stakes.push(StakeRecord { amount, timestamp: now });
        Ok(())
    }

    /// Removes every record.
    pub fn clear(&mut self)
        requires
            old(self).wf(),
        ensures
            final(self).wf(),
            final(self).authority == old(self).authority,
            final(self).capacity == old(self).capacity,
            final(self).stakes@ == Seq::<StakeRecord>::empty(),
    {
        self.stakes.clear();
    }
}

} // verus!
