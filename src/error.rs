use vstd::prelude::*;

verus! {

/// Why a request against a ledger entry was refused. Every error leaves the
/// entry exactly as it was.
#[derive(Clone, Copy, Debug, PartialEq, Eq, Structural)]
pub enum StakeError {
    /// The amount requested is zero.
    InvalidAmount,
    /// A withdrawal asks for more than the entry holds.
    InsufficientStake,
    /// The requester is not the owner of the entry.
    Unauthorized,
    /// A checked addition or multiplication exceeded `u64`.
    Overflow,
    /// A checked subtraction went below zero.
    Underflow,
    /// The supplied time precedes the entry's last settlement.
    InvalidTimestamp,
}

} // verus!
