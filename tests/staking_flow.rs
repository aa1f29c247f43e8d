use staking::{
    create_pda_account, unstake, update_points, CreatePdaAccount, EntryAuthority, Pubkey, Stake,
    StakeAccount, StakeError, Transfer, Unstake, DISPLAY_SCALE,
};

fn key(b: u8) -> Pubkey {
    Pubkey::new([b; 32])
}

fn fresh(owner: Pubkey, now: i64) -> StakeAccount {
    create_pda_account(&CreatePdaAccount { payer: owner, user: owner, bump: 254 }, now)
}

fn deposit(acct: &mut StakeAccount, user: Pubkey, amount: u64, now: i64) -> Result<Transfer, StakeError> {
    let mut ctx = Stake { user, pda_account: *acct };
    let r = staking::Stake(&mut ctx, amount, now);
    *acct = ctx.pda_account;
    r
}

fn withdraw(acct: &mut StakeAccount, user: Pubkey, amount: u64, now: i64) -> Result<Transfer, StakeError> {
    let mut ctx = Unstake { user, pda_account: *acct };
    let r = unstake(&mut ctx, amount, now);
    *acct = ctx.pda_account;
    r
}

fn same_state(a: &StakeAccount, b: &StakeAccount) -> bool {
    a.owner == b.owner
        && a.staked_amount == b.staked_amount
        && a.total_points == b.total_points
        && a.last_update_time == b.last_update_time
        && a.bump == b.bump
}

#[test]
fn provision_starts_empty() {
    let a = create_pda_account(&CreatePdaAccount { payer: key(1), user: key(1), bump: 7 }, 42);
    assert!(a.owner == key(1));
    assert_eq!(a.staked_amount, 0);
    assert_eq!(a.total_points, 0);
    assert_eq!(a.last_update_time, 42);
    assert_eq!(a.bump, 7);
}

#[test]
fn provision_owner_is_depositor_not_payer() {
    let payer = key(20);
    let user = key(21);
    let mut a = create_pda_account(&CreatePdaAccount { payer, user, bump: 3 }, 5);
    assert!(a.owner == user);
    assert!(!(a.owner == payer));
    assert!(deposit(&mut a, user, 10, 5).is_ok());
    assert_eq!(a.staked_amount, 10);
    assert_eq!(deposit(&mut a, payer, 10, 5).unwrap_err(), StakeError::Unauthorized);
}

#[test]
fn documented_scenario() {
    let owner = key(9);
    let mut a = fresh(owner, 0);
    assert!(deposit(&mut a, owner, 1000, 0).is_ok());
    assert_eq!(a.total_points, 0);
    assert_eq!(a.staked_amount, 1000);
    assert!(deposit(&mut a, owner, 500, 100).is_ok());
    assert_eq!(a.total_points, 100_000);
    assert_eq!(a.staked_amount, 1500);
    assert!(withdraw(&mut a, owner, 1500, 200).is_ok());
    assert_eq!(a.total_points, 250_000);
    assert_eq!(a.staked_amount, 0);
    assert_eq!(a.last_update_time, 200);
    assert_eq!(a.displayed_points(), 0);
}

#[test]
fn display_truncates() {
    let mut a = fresh(key(1), 0);
    a.total_points = 2_999_999;
    assert_eq!(a.displayed_points(), 2);
    assert_eq!(DISPLAY_SCALE, 1_000_000);
}

#[test]
fn deposit_returns_inbound_transfer() {
    let owner = key(3);
    let mut a = fresh(owner, 10);
    match deposit(&mut a, owner, 77, 10) {
        Ok(Transfer::IntoEntry { user, amount }) => {
            assert!(user == owner);
            assert_eq!(amount, 77);
        }
        other => panic!("unexpected {:?}", other),
    }
}

#[test]
fn withdraw_returns_outbound_transfer_signed_by_entry() {
    let owner = key(4);
    let mut a = fresh(owner, 0);
    deposit(&mut a, owner, 100, 0).unwrap();
    match withdraw(&mut a, owner, 40, 5) {
        Ok(Transfer::OutOfEntry { user, amount, authority }) => {
            assert!(user == owner);
            assert_eq!(amount, 40);
            assert!(authority.owner == owner);
            assert_eq!(authority.bump, 254);
        }
        other => panic!("unexpected {:?}", other),
    }
    assert_eq!(a.staked_amount, 60);
    assert_eq!(a.total_points, 500);
}

#[test]
fn signer_seeds_layout() {
    let auth = EntryAuthority { owner: key(5), bump: 251 };
    let seeds = auth.signer_seeds();
    assert_eq!(seeds.len(), 3);
    assert_eq!(seeds[0], b"client1".to_vec());
    assert_eq!(seeds[1], vec![5u8; 32]);
    assert_eq!(seeds[2], vec![251u8]);
}

#[test]
fn zero_amount_refused_and_unchanged() {
    let owner = key(2);
    let mut a = fresh(owner, 0);
    deposit(&mut a, owner, 10, 0).unwrap();
    let before = a;
    assert_eq!(deposit(&mut a, owner, 0, 50).unwrap_err(), StakeError::InvalidAmount);
    assert!(same_state(&a, &before));
    assert_eq!(withdraw(&mut a, owner, 0, 50).unwrap_err(), StakeError::InvalidAmount);
    assert!(same_state(&a, &before));
}

#[test]
fn withdraw_whole_balance_and_one_more() {
    let owner = key(6);
    let mut a = fresh(owner, 0);
    deposit(&mut a, owner, 300, 0).unwrap();
    let before = a;
    assert_eq!(withdraw(&mut a, owner, 301, 10).unwrap_err(), StakeError::InsufficientStake);
    assert!(same_state(&a, &before));
    assert!(withdraw(&mut a, owner, 300, 10).is_ok());
    assert_eq!(a.staked_amount, 0);
    assert_eq!(a.total_points, 3000);
}

#[test]
fn stranger_refused_and_unchanged() {
    let owner = key(7);
    let stranger = key(8);
    let mut a = fresh(owner, 0);
    deposit(&mut a, owner, 100, 0).unwrap();
    let before = a;
    assert_eq!(deposit(&mut a, stranger, 5, 10).unwrap_err(), StakeError::Unauthorized);
    assert!(same_state(&a, &before));
    assert_eq!(withdraw(&mut a, stranger, 5, 10).unwrap_err(), StakeError::Unauthorized);
    assert!(same_state(&a, &before));
    assert_eq!(withdraw(&mut a, stranger, 0, 10).unwrap_err(), StakeError::Unauthorized);
}

#[test]
fn stranger_differing_in_last_byte_refused() {
    let owner = key(7);
    let mut bytes = [7u8; 32];
    bytes[31] = 0;
    let stranger = Pubkey::new(bytes);
    assert!(!(owner == stranger));
    let mut a = fresh(owner, 0);
    assert_eq!(deposit(&mut a, stranger, 5, 0).unwrap_err(), StakeError::Unauthorized);
}

#[test]
fn clock_regression_refused_and_unchanged() {
    let owner = key(1);
    let mut a = fresh(owner, 100);
    deposit(&mut a, owner, 10, 100).unwrap();
    let before = a;
    assert_eq!(update_points(&mut a, 99), Err(StakeError::InvalidTimestamp));
    assert!(same_state(&a, &before));
    assert_eq!(deposit(&mut a, owner, 1, 50).unwrap_err(), StakeError::InvalidTimestamp);
    assert!(same_state(&a, &before));
    assert_eq!(withdraw(&mut a, owner, 1, 50).unwrap_err(), StakeError::InvalidTimestamp);
    assert!(same_state(&a, &before));
}

#[test]
fn update_points_accrues_on_balance() {
    let mut a = fresh(key(1), -50);
    a.staked_amount = 3;
    assert_eq!(update_points(&mut a, 50), Ok(()));
    assert_eq!(a.total_points, 300);
    assert_eq!(a.last_update_time, 50);
    assert_eq!(a.staked_amount, 3);
}

#[test]
fn update_points_full_clock_range() {
    let mut a = fresh(key(1), i64::MIN);
    a.staked_amount = 1;
    assert_eq!(update_points(&mut a, i64::MAX), Ok(()));
    assert_eq!(a.total_points, u64::MAX);
}

#[test]
fn points_overflow_refused_and_unchanged() {
    let owner = key(1);
    let mut a = fresh(owner, 0);
    a.staked_amount = u64::MAX / 2;
    let before = a;
    assert_eq!(update_points(&mut a, 3), Err(StakeError::Overflow));
    assert!(same_state(&a, &before));
    a.staked_amount = 1;
    a.total_points = u64::MAX;
    let before = a;
    assert_eq!(deposit(&mut a, owner, 1, 1).unwrap_err(), StakeError::Overflow);
    assert!(same_state(&a, &before));
}

#[test]
fn balance_overflow_refused_and_unchanged() {
    let owner = key(1);
    let mut a = fresh(owner, 0);
    deposit(&mut a, owner, u64::MAX, 0).unwrap();
    let before = a;
    assert_eq!(deposit(&mut a, owner, 1, 0).unwrap_err(), StakeError::Overflow);
    assert!(same_state(&a, &before));
}

#[test]
fn balance_tracks_net_deposits() {
    let owner = key(1);
    let mut a = fresh(owner, 0);
    let mut net: u64 = 0;
    let mut last_points = 0;
    let steps: [(bool, u64); 6] = [(true, 50), (true, 25), (false, 30), (true, 5), (false, 50), (true, 1)];
    for (i, (is_deposit, amount)) in steps.iter().enumerate() {
        let now = (i as i64) * 10;
        if *is_deposit {
            deposit(&mut a, owner, *amount, now).unwrap();
            net += amount;
        } else {
            withdraw(&mut a, owner, *amount, now).unwrap();
            net -= amount;
        }
        assert_eq!(a.staked_amount, net);
        assert!(a.total_points >= last_points);
        last_points = a.total_points;
    }
    assert_eq!(a.staked_amount, 1);
}

#[test]
fn settlement_uses_balance_before_change() {
    let owner = key(1);
    let mut a = fresh(owner, 0);
    deposit(&mut a, owner, 10, 0).unwrap();
    deposit(&mut a, owner, 1000, 7).unwrap();
    assert_eq!(a.total_points, 70);
    withdraw(&mut a, owner, 1005, 9).unwrap();
    assert_eq!(a.total_points, 70 + 1010 * 2);
}

#[test]
fn points_strictly_grow_with_stake_and_time() {
    let owner = key(1);
    let mut a = fresh(owner, 0);
    deposit(&mut a, owner, 1, 0).unwrap();
    let p = a.total_points;
    deposit(&mut a, owner, 1, 1).unwrap();
    assert!(a.total_points > p);
    let p = a.total_points;
    deposit(&mut a, owner, 1, 1).unwrap();
    assert_eq!(a.total_points, p);
}
