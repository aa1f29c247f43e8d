use vstd::prelude::*;

use crate::account::StakeAccount;
use crate::pubkey::Pubkey;

verus! {

/// What provisioning an entry is given: who pays, whose slot it is, and the
/// addressing token the slot derivation produced.
#[derive(Clone, Copy, Debug)]
pub struct CreatePdaAccount {
    pub payer: Pubkey,
    pub user: Pubkey,
    pub bump: u8,
}

/// A deposit request: the signing requester and the entry it names.
#[derive(Clone, Copy, Debug)]
pub struct Stake {
    pub user: Pubkey,
    pub pda_account: StakeAccount,
}

/// A withdrawal request: the signing requester and the entry it names.
#[derive(Clone, Copy, Debug)]
pub struct Unstake {
    pub user: Pubkey,
    pub pda_account: StakeAccount,
}

} // verus!
