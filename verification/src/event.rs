//! What an operation hands back to its caller: the token transfers to carry
//! out and the notification to publish.

use crate::identity::Identity;
use vstd::prelude::*;

verus! {

/// A token account that takes part in a transfer.
#[derive(Clone, Copy, Debug, PartialEq, Eq, Structural)]
pub enum Holding {
    /// The token account of whoever funds the escrow.
    Funder,
    /// The depositor's own token account.
    User,
    /// The pooled vault that holds all principal.
    StakeVault,
    /// The escrow's token account, out of which rewards are paid.
    EscrowVault,
}

impl Holding {
    /// Whether the account is one of the pool's own two vaults.
    pub open spec fn in_pool(self) -> bool {
        self is StakeVault || self is EscrowVault
    }
}

/// An order to move tokens from one account to another. The pool itself moves
/// nothing: its caller carries the order out, and the operation counts only
/// if the transfer succeeds.
#[derive(Clone, Copy, Debug, PartialEq, Eq, Structural)]
pub struct Transfer {
    pub source: Holding,
    pub destination: Holding,
    pub amount: u64,
}

impl Transfer {
    /// By how much the transfer changes what the pool's two vaults hold
    /// together: more by what comes in from outside, less by what goes out,
    /// and not at all by what moves from one vault to the other.
    pub open spec fn net_inflow(self) -> int {
        (if self.destination.in_pool() {
            self.amount as int
        } else {
            0
        }) - (if self.source.in_pool() {
            self.amount as int
        } else {
            0
        })
    }
}

/// A deposit was made.
#[derive(Clone, Copy, Debug, PartialEq, Eq)]
pub struct StakeEvent {
    pub user: Identity,
    /// The amount deposited.
    pub amount: u64,
    /// The tier of the position after the deposit.
    pub tier: u8,
    /// The principal of the position after the deposit.
    pub total_staked: u64,
}

/// A withdrawal was made.
#[derive(Clone, Copy, Debug, PartialEq, Eq)]
pub struct UnstakeEvent {
    pub user: Identity,
    /// The amount taken out of the principal.
    pub amount: u64,
    /// The part of it that went to the escrow as a penalty.
    pub penalty: u64,
    pub remaining_stake: u64,
    pub new_tier: u8,
}

/// Rewards were paid out.
#[derive(Clone, Copy, Debug, PartialEq, Eq)]
pub struct RewardsClaimedEvent {
    pub user: Identity,
    pub amount: u64,
    /// The escrow's lifetime total after this payment.
    pub total_distributed: u64,
}

/// The escrow was funded.
#[derive(Clone, Copy, Debug, PartialEq, Eq)]
pub struct EscrowFundedEvent {
    pub funder: Identity,
    pub amount: u64,
    pub new_balance: u64,
}

/// A change of authority was proposed or accepted.
#[derive(Clone, Copy, Debug, PartialEq, Eq)]
pub struct AuthorityUpdatedEvent {
    pub old_authority: Identity,
    pub new_authority: Identity,
    pub timestamp: i64,
}

/// The pool was paused or resumed.
#[derive(Clone, Copy, Debug, PartialEq, Eq)]
pub struct ProgramPausedEvent {
    pub authority: Identity,
    pub paused: bool,
    pub timestamp: i64,
}

/// Rewards were added to the principal.
#[derive(Clone, Copy, Debug, PartialEq, Eq)]
pub struct RewardsCompoundedEvent {
    pub user: Identity,
    pub amount_compounded: u64,
    pub new_stake_amount: u64,
    pub old_tier: u8,
    pub new_tier: u8,
    pub timestamp: i64,
}

} // verus!
