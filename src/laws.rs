use vstd::prelude::*;

use crate::account::{accrual, settle_spec, StakeAccount};
use crate::error::StakeError;
use crate::pubkey::Pubkey;
use crate::staking::{stake_spec, unstake_spec};

verus! {

/// One request against an entry, as a step of a history.
#[derive(Clone, Copy, Debug)]
pub enum Request {
    Deposit { amount: u64, now: i64 },
    Withdraw { amount: u64, now: i64 },
}

/// The outcome of one request by `user`.
pub open spec fn apply_spec(acct: StakeAccount, user: Pubkey, req: Request) -> Result<
    StakeAccount,
    StakeError,
> {
    match req {
        Request::Deposit { amount, now } => stake_spec(acct, user, amount, now),
        Request::Withdraw { amount, now } => unstake_spec(acct, user, amount, now),
    }
}

/// The entry after the requests of `reqs` in order, or the first error.
pub open spec fn replay(acct: StakeAccount, user: Pubkey, reqs: Seq<Request>) -> Result<
    StakeAccount,
    StakeError,
>
    decreases reqs.len(),
{
    if reqs.len() == 0 {
        Ok(acct)
    } else {
        match replay(acct, user, reqs.drop_last()) {
            Err(e) => Err(e),
            Ok(a) => apply_spec(a, user, reqs.last()),
        }
    }
}

/// Sum of the amounts deposited minus the sum of the amounts withdrawn.
pub open spec fn net_deposit(reqs: Seq<Request>) -> int
    decreases reqs.len(),
{
    if reqs.len() == 0 {
        0
    } else {
        net_deposit(reqs.drop_last()) + match reqs.last() {
            Request::Deposit { amount, .. } => amount as int,
            Request::Withdraw { amount, .. } => -(amount as int),
        }
    }
}

/// A successful request settles accrual on the balance and timestamp from
/// before it: the points grow by exactly the old balance times the time
/// elapsed since the old settlement, and the settlement time becomes `now`.
pub proof fn lemma_settles_before_change(acct: StakeAccount, user: Pubkey, req: Request)
    ensures
        apply_spec(acct, user, req) matches Ok(a) ==> {
            let now = match req {
                Request::Deposit { now, .. } => now,
                Request::Withdraw { now, .. } => now,
            };
            &&& a.total_points == acct.total_points + acct.staked_amount * (now
                - acct.last_update_time)
            &&& a.last_update_time == now
            &&& a.owner == acct.owner
            &&& a.bump == acct.bump
        },
{
}

/// Points never decrease over a successful request, and they strictly grow
/// when something is staked and time has moved on since the last settlement.
pub proof fn lemma_points_grow(acct: StakeAccount, user: Pubkey, req: Request)
    ensures
        apply_spec(acct, user, req) matches Ok(a) ==> {
            let now = match req {
                Request::Deposit { now, .. } => now,
                Request::Withdraw { now, .. } => now,
            };
            &&& a.total_points >= acct.total_points
            &&& a.last_update_time >= acct.last_update_time
            &&& (acct.staked_amount > 0 && now > acct.last_update_time) ==> a.total_points
                > acct.total_points
        },
{
    let now = match req {
        Request::Deposit { now, .. } => now,
        Request::Withdraw { now, .. } => now,
    };
    if now >= acct.last_update_time {
        let s = acct.staked_amount;
        let d = now - acct.last_update_time;
        assert(s * d >= 0) by (nonlinear_arith)
            requires
                s >= 0,
                d >= 0,
        ;
        assert(s > 0 && d > 0 ==> s * d > 0) by (nonlinear_arith);
        assert(accrual(acct.staked_amount, acct.last_update_time, now) == s * d);
    }
}

/// Over any history in which no request failed, the balance equals the
/// starting balance plus everything deposited minus everything withdrawn,
/// and neither the points nor the settlement time ever went down.
pub proof fn lemma_replay(acct: StakeAccount, user: Pubkey, reqs: Seq<Request>)
    ensures
        replay(acct, user, reqs) matches Ok(a) ==> {
            &&& a.staked_amount == acct.staked_amount + net_deposit(reqs)
            &&& a.total_points >= acct.total_points
            &&& a.last_update_time >= acct.last_update_time
            &&& a.owner == acct.owner
        },
    decreases reqs.len(),
{
    if reqs.len() > 0 {
        lemma_replay(acct, user, reqs.drop_last());
        if let Ok(b) = replay(acct, user, reqs.drop_last()) {
            lemma_points_grow(b, user, reqs.last());
        }
    }
}

/// A request for zero is refused with `InvalidAmount`, for deposits and
/// withdrawals alike, when it comes from the owner.
pub proof fn lemma_zero_amount_refused(acct: StakeAccount, user: Pubkey, now: i64)
    requires
        user@ == acct.owner@,
    ensures
        stake_spec(acct, user, 0, now) == Err::<StakeAccount, StakeError>(
            StakeError::InvalidAmount,
        ),
        unstake_spec(acct, user, 0, now) == Err::<StakeAccount, StakeError>(
            StakeError::InvalidAmount,
        ),
{
}

/// Withdrawing the whole balance succeeds and leaves nothing staked, whenever
/// settlement itself succeeds; withdrawing one more than the balance is refused
/// with `InsufficientStake`.
pub proof fn lemma_withdraw_boundary(acct: StakeAccount, user: Pubkey, now: i64)
    requires
        user@ == acct.owner@,
        acct.staked_amount > 0,
    ensures
        settle_spec(acct, now) is Ok ==> (unstake_spec(
            acct,
            user,
            acct.staked_amount,
            now,
        ) matches Ok(a) && a.staked_amount == 0),
        acct.staked_amount < u64::MAX ==> unstake_spec(
            acct,
            user,
            (acct.staked_amount + 1) as u64,
            now,
        ) == Err::<StakeAccount, StakeError>(StakeError::InsufficientStake),
{
}

/// A request from anyone but the owner is refused with `Unauthorized`, for
/// deposits and withdrawals alike, whatever the amount and time.
pub proof fn lemma_stranger_refused(acct: StakeAccount, user: Pubkey, amount: u64, now: i64)
    requires
        user@ != acct.owner@,
    ensures
        stake_spec(acct, user, amount, now) == Err::<StakeAccount, StakeError>(
            StakeError::Unauthorized,
        ),
        unstake_spec(acct, user, amount, now) == Err::<StakeAccount, StakeError>(
            StakeError::Unauthorized,
        ),
{
}

/// Settling at a time before the last settlement is refused with
/// `InvalidTimestamp`.
pub proof fn lemma_clock_regression_refused(acct: StakeAccount, now: i64)
    requires
        now < acct.last_update_time,
    ensures
        settle_spec(acct, now) == Err::<StakeAccount, StakeError>(StakeError::InvalidTimestamp),
{
}

} // verus!
