use vstd::prelude::*;

use crate::account::{settle_spec, update_points, StakeAccount};
use crate::context::{CreatePdaAccount, Stake, Unstake};
use crate::error::StakeError;
use crate::pubkey::Pubkey;
use crate::transfer::{EntryAuthority, Transfer};

verus! {

/// The entry after a deposit of `amount` by `user` at `now`, or the error.
/// Checks in order: ownership, a positive amount, settlement against the
/// balance before the deposit, then the checked increase of the balance.
pub open spec fn stake_spec(acct: StakeAccount, user: Pubkey, amount: u64, now: i64) -> Result<
    StakeAccount,
    StakeError,
> {
    if user@ != acct.owner@ {
        Err(StakeError::Unauthorized)
    } else if amount == 0 {
        Err(StakeError::InvalidAmount)
    } else {
        match settle_spec(acct, now) {
            Err(e) => Err(e),
            Ok(s) => if s.staked_amount + amount > u64::MAX {
                Err(StakeError::Overflow)
            } else {
                Ok(StakeAccount { staked_amount: (s.staked_amount + amount) as u64, ..s })
            },
        }
    }
}

/// The entry after a withdrawal of `amount` by `user` at `now`, or the error.
/// Checks in order: ownership, a positive amount, a sufficient balance, then
/// settlement against the balance before the withdrawal.
pub open spec fn unstake_spec(acct: StakeAccount, user: Pubkey, amount: u64, now: i64) -> Result<
    StakeAccount,
    StakeError,
> {
    if user@ != acct.owner@ {
        Err(StakeError::Unauthorized)
    } else if amount == 0 {
        Err(StakeError::InvalidAmount)
    } else if acct.staked_amount < amount {
        Err(StakeError::InsufficientStake)
    } else {
        match settle_spec(acct, now) {
            Err(e) => Err(e),
            Ok(s) => Ok(StakeAccount { staked_amount: (s.staked_amount - amount) as u64, ..s }),
        }
    }
}

/// Provisions the entry of the depositor `ctx.user`, whose slot it is (the
/// payer only funds the slot): nothing staked, no points, settled at `now`,
/// carrying the slot's addressing token.
pub fn create_pda_account(ctx: &CreatePdaAccount, now: i64) -> (r: StakeAccount)
    ensures
        r.owner == ctx.user,
        r.staked_amount == 0,
        r.total_points == 0,
        r.last_update_time == now,
        r.bump == ctx.bump,
{
    StakeAccount::new(ctx.user, now, ctx.bump)
}

/// Deposits `amount` into the requester's entry at time `now`. Accrual is
/// settled on the balance before the deposit. On success the entry holds the
/// new state and the transfer into it is returned for the caller to carry out;
/// on error the entry is unchanged.
#[allow(non_snake_case)]
pub fn Stake(ctx: &mut Stake, amount: u64, now: i64) -> (r: Result<Transfer, StakeError>)
    ensures
        final(ctx).user == old(ctx).user,
        match stake_spec(old(ctx).pda_account, old(ctx).user, amount, now) {
            Ok(a) => final(ctx).pda_account == a && r == Ok::<Transfer, StakeError>(
                (Transfer::IntoEntry { user: old(ctx).user, amount }),
            ),
            Err(e) => final(ctx).pda_account == old(ctx).pda_account && r == Err::<
                Transfer,
                StakeError,
            >(e),
        },
{
    if !ctx.user.same_as(&ctx.pda_account.owner) {
        return Err(StakeError::Unauthorized);
    }
    if amount == 0 {
        return Err(StakeError::InvalidAmount);
    }
    let mut next: StakeAccount = ctx.pda_account;
    match update_points(&mut next, now) {
        Ok(()) => {},
        Err(e) => return Err(e),
    }
    let staked: u64 = match next.staked_amount.checked_add(amount) {
        Some(v) => v,
        None => return Err(StakeError::Overflow),
    };
    next.staked_amount = staked;
    ctx.pda_account = next;
    Ok(Transfer::IntoEntry { user: ctx.user, amount })
}

/// Withdraws `amount` from the requester's entry at time `now`. Accrual is
/// settled on the balance before the withdrawal. On success the entry holds
/// the new state and the transfer out of it, signed by the entry's authority,
/// is returned for the caller to carry out; on error the entry is unchanged.
pub fn unstake(ctx: &mut Unstake, amount: u64, now: i64) -> (r: Result<Transfer, StakeError>)
    ensures
        final(ctx).user == old(ctx).user,
        match unstake_spec(old(ctx).pda_account, old(ctx).user, amount, now) {
            Ok(a) => final(ctx).pda_account == a && r == Ok::<Transfer, StakeError>(
                (Transfer::OutOfEntry {
                    user: old(ctx).user,
                    amount,
                    authority: (EntryAuthority {
                        owner: old(ctx).pda_account.owner,
                        bump: old(ctx).pda_account.bump,
                    }),
                }),
            ),
            Err(e) => final(ctx).pda_account == old(ctx).pda_account && r == Err::<
                Transfer,
                StakeError,
            >(e),
        },
{
    if !ctx.user.same_as(&ctx.pda_account.owner) {
        return Err(StakeError::Unauthorized);
    }
    if amount == 0 {
        return Err(StakeError::InvalidAmount);
    }
    if ctx.pda_account.staked_amount < amount {
        return Err(StakeError::InsufficientStake);
    }
    let mut next: StakeAccount = ctx.pda_account;
    match update_points(&mut next, now) {
        Ok(()) => {},
        Err(e) => return Err(e),
    }
    let staked: u64 = match next.staked_amount.checked_sub(amount) {
        Some(v) => v,
        None => return Err(StakeError::Underflow),
    };
    next.staked_amount = staked;
    ctx.pda_account = next;
    let authority = EntryAuthority { owner: next.owner, bump: next.bump };
    Ok(Transfer::OutOfEntry { user: ctx.user, amount, authority })
}

} // verus!
