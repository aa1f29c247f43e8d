use vstd::prelude::*;

use crate::error::StakeError;
use crate::pubkey::Pubkey;

verus! {

/// Divisor applied to `total_points` when it is shown to a person. Points are
/// accrued and stored at full resolution; only reporting divides.
pub const DISPLAY_SCALE: u64 = 1_000_000;

/// The durable record of one depositor: balance held in escrow, accrued
/// points, and the time of the last settlement.
#[derive(Clone, Copy, Debug)]
pub struct StakeAccount {
    pub owner: Pubkey,
    pub staked_amount: u64,
    pub total_points: u64,
    pub last_update_time: i64,
    pub bump: u8,
}

/// Points earned by `staked` units over the interval from `since` to `now`:
/// one point per staked unit per elapsed time unit.
pub open spec fn accrual(staked: u64, since: i64, now: i64) -> int {
    staked * (now - since)
}

/// The entry after settling accrual up to `now`, or the error that refuses it.
pub open spec fn settle_spec(acct: StakeAccount, now: i64) -> Result<StakeAccount, StakeError> {
    if now < acct.last_update_time {
        Err(StakeError::InvalidTimestamp)
    } else if acct.total_points + accrual(acct.staked_amount, acct.last_update_time, now)
        > u64::MAX {
        Err(StakeError::Overflow)
    } else {
        Ok(
            StakeAccount {
                total_points: (acct.total_points + accrual(
                    acct.staked_amount,
                    acct.last_update_time,
                    now,
                )) as u64,
                last_update_time: now,
                ..acct
            },
        )
    }
}

impl StakeAccount {
    /// A fresh entry for `owner`: nothing staked, no points, settled at `now`.
    pub fn new(owner: Pubkey, now: i64, bump: u8) -> (r: StakeAccount)
        ensures
            r.owner == owner,
            r.staked_amount == 0,
            r.total_points == 0,
            r.last_update_time == now,
            r.bump == bump,
    {
        StakeAccount { owner, staked_amount: 0, total_points: 0, last_update_time: now, bump }
    }

    /// `total_points` in the unit shown to people, truncated.
    pub fn displayed_points(&self) -> (r: u64)
        ensures
            r == self.total_points / DISPLAY_SCALE,
    {
        self.total_points / DISPLAY_SCALE
    }
}

/// Settles accrual on `acct` up to `now`: adds `staked_amount * (now -
/// last_update_time)` to `total_points` and moves `last_update_time` to `now`.
/// On error the entry is left unchanged.
pub fn update_points(acct: &mut StakeAccount, now: i64) -> (r: Result<(), StakeError>)
    ensures
        match settle_spec(*old(acct), now) {
            Ok(a) => r == Ok::<(), StakeError>(()) && *final(acct) == a,
            Err(e) => r == Err::<(), StakeError>(e) && *final(acct) == *old(acct),
        },
{
    if now < acct.last_update_time {
        return Err(StakeError::InvalidTimestamp);
    }
    let elapsed: u64 = (now as i128 - acct.last_update_time as i128) as u64;
    let accrued: u64 = match acct.staked_amount.checked_mul(elapsed) {
        Some(v) => v,
        None => {
            assert(accrual(acct.staked_amount, acct.last_update_time, now) > u64::MAX);
            return Err(StakeError::Overflow);
        },
    };
    let total: u64 = match acct.total_points.checked_add(accrued) {
        Some(v) => v,
        None => return Err(StakeError::Overflow),
    };
    acct.total_points = total;
    acct.last_update_time = now;
    Ok(())
}

} // verus!
