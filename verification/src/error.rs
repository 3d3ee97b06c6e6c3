//! The ways in which the pool turns an operation down.

use vstd::prelude::*;

verus! {

/// Why an operation was rejected. A rejected operation changes nothing.
#[derive(Clone, Copy, Debug, PartialEq, Eq, Structural)]
pub enum StakingError {
    /// The amount is below the least principal of any tier.
    AmountTooLow,
    /// The withdrawal exceeds the principal.
    InsufficientStake,
    /// The position is still locked.
    TokensLocked,
    /// There is nothing to claim or compound.
    NoRewards,
    /// The signer is not the pool's authority.
    InvalidAuthority,
    /// The named owner is not the owner of the stake record.
    InvalidOwner,
    /// The pool is paused.
    ProgramPaused,
    /// The escrow holds less than the rewards that are due.
    InsufficientEscrowBalance,
    /// No change of authority has been proposed.
    NoPendingAuthorityChange,
    /// The proposed change of authority is still under its timelock.
    TimelockNotExpired,
    /// The mint is not the pool's token.
    InvalidMint,
}

} // verus!
