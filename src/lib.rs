//! Accounting core of a custodial staking ledger: per-depositor balances and
//! points that accrue linearly in balance times elapsed time, always settled
//! on the balance from before a deposit or withdrawal changes it.

pub mod account;
pub mod context;
pub mod error;
pub mod laws;
pub mod pubkey;
pub mod staking;
pub mod transfer;

pub use account::{update_points, StakeAccount, DISPLAY_SCALE};
pub use context::{CreatePdaAccount, Stake, Unstake};
pub use error::StakeError;
pub use pubkey::Pubkey;
pub use staking::{create_pda_account, unstake, Stake};
pub use transfer::{EntryAuthority, Transfer};
