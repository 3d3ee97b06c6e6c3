//! Setting up and funding the reward escrow.

use crate::account::{ProgramState, RewardEscrow};
use crate::error::StakingError;
use crate::event::{EscrowFundedEvent, Holding, Transfer};
use crate::identity::Identity;
use vstd::prelude::*;

verus! {

/// The accounts of setting up the escrow.
#[derive(Clone, Copy, Debug, PartialEq, Eq)]
pub struct InitializeEscrow {
    pub program_state: ProgramState,
    /// The address of the pool state.
    pub program_state_key: Identity,
    /// The escrow record, blank so far.
    pub reward_escrow: RewardEscrow,
    /// Who signed.
    pub authority: Identity,
    /// Address bump found for the escrow record.
    pub reward_escrow_bump: u8,
    /// Address bump found for the escrow's token account.
    pub escrow_vault_bump: u8,
}

impl InitializeEscrow {
    /// Why setting up the escrow is turned down, if it is: the signer is not
    /// the pool's authority.
    pub open spec fn rejection(self) -> Option<StakingError> {
        if self.authority != self.program_state.authority {
            Some(StakingError::InvalidAuthority)
        } else {
            None
        }
    }

    /// The accounts after the escrow is set up: it is empty and belongs to
    /// the pool state, which records the two address bumps.
    pub open spec fn applied(self) -> InitializeEscrow {
        InitializeEscrow {
            program_state: ProgramState {
                reward_escrow_bump: self.reward_escrow_bump,
                escrow_vault_bump: self.escrow_vault_bump,
                ..self.program_state
            },
            reward_escrow: RewardEscrow {
                authority: self.program_state_key,
                total_balance: 0,
                total_distributed: 0,
                bump: self.reward_escrow_bump,
            },
            ..self
        }
    }
}

/// Sets up the reward escrow of a pool. Only the pool's authority may.
pub fn initialize_escrow(ctx: &mut InitializeEscrow) -> (r: Result<(), StakingError>)
    ensures
        match old(ctx).rejection() {
            Some(e) => r == Err::<(), StakingError>(e) && *final(ctx) == *old(ctx),
            None => r == Ok::<(), StakingError>(()) && *final(ctx) == old(ctx).applied(),
        },
{
    if ctx.authority != ctx.program_state.authority {
        return Err(StakingError::InvalidAuthority);
    }
    ctx.program_state.reward_escrow_bump = ctx.reward_escrow_bump;
    ctx.program_state.escrow_vault_bump = ctx.escrow_vault_bump;
    ctx.reward_escrow.authority = ctx.program_state_key;
    ctx.reward_escrow.total_balance = 0;
    ctx.reward_escrow.total_distributed = 0;
    ctx.reward_escrow.bump = ctx.reward_escrow_bump;
    Ok(())
}

/// The accounts of funding the escrow.
#[derive(Clone, Copy, Debug, PartialEq, Eq)]
pub struct FundEscrow {
    pub program_state: ProgramState,
    pub reward_escrow: RewardEscrow,
    /// Who signed and pays.
    pub funder: Identity,
    /// The mint of the tokens presented.
    pub defai_mint: Identity,
}

impl FundEscrow {
    /// Why a funding is turned down, if it is. The first of these that
    /// holds decides: the mint is not the pool's; the pool is paused.
    pub open spec fn rejection(self) -> Option<StakingError> {
        if self.defai_mint != self.program_state.defai_mint {
            Some(StakingError::InvalidMint)
        } else if self.program_state.paused {
            Some(StakingError::ProgramPaused)
        } else {
            None
        }
    }

    /// Whether a funding that is not turned down leaves the escrow's balance
    /// within 64 bits.
    pub open spec fn in_range(self, amount: u64) -> bool {
        self.rejection() is None ==> self.reward_escrow.total_balance + amount <= u64::MAX
    }

    /// The accounts after a funding of `amount`: the escrow's balance is more
    /// by the amount.
    pub open spec fn applied(self, amount: u64) -> FundEscrow {
        FundEscrow {
            reward_escrow: RewardEscrow {
                total_balance: (self.reward_escrow.total_balance + amount) as u64,
                ..self.reward_escrow
            },
            ..self
        }
    }

    /// The transfer that brings the funds from the funder into the escrow.
    pub open spec fn deposit(self, amount: u64) -> Transfer {
        Transfer { source: Holding::Funder, destination: Holding::EscrowVault, amount }
    }

    /// The notification of a funding of `amount`.
    pub open spec fn event(self, amount: u64) -> EscrowFundedEvent {
        EscrowFundedEvent {
            funder: self.funder,
            amount,
            new_balance: self.applied(amount).reward_escrow.total_balance,
        }
    }

    /// Tests `in_range`.
    pub fn check_range(&self, amount: u64) -> (ok: bool)
        ensures
            ok == self.in_range(amount),
    {
        self.defai_mint != self.program_state.defai_mint || self.program_state.paused || amount
            <= u64::MAX - self.reward_escrow.total_balance
    }
}

/// Adds `amount` of the funder's tokens to the rewards that the escrow can
/// pay. Anyone may fund the escrow, but nobody while the pool is paused.
/// Returns the transfer into the escrow and the notification. A funding that
/// is turned down changes nothing.
pub fn fund_escrow(ctx: &mut FundEscrow, amount: u64) -> (r: Result<
    (Transfer, EscrowFundedEvent),
    StakingError,
>)
    requires
        old(ctx).in_range(amount),
    ensures
        match old(ctx).rejection() {
            Some(e) => r == Err::<(Transfer, EscrowFundedEvent), StakingError>(e) && *final(ctx)
                == *old(ctx),
            None => r == Ok::<(Transfer, EscrowFundedEvent), StakingError>(
                (old(ctx).deposit(amount), old(ctx).event(amount)),
            ) && *final(ctx) == old(ctx).applied(amount),
        },
        r is Ok ==> final(ctx).reward_escrow.total_balance == old(ctx).reward_escrow.total_balance
            + amount,
{
    if ctx.defai_mint != ctx.program_state.defai_mint {
        return Err(StakingError::InvalidMint);
    }
    if ctx.program_state.paused {
        return Err(StakingError::ProgramPaused);
    }
    ctx.reward_escrow.total_balance = ctx.reward_escrow.total_balance + amount;
    let event = EscrowFundedEvent {
        funder: ctx.funder,
        amount,
        new_balance: ctx.reward_escrow.total_balance,
    };
    Ok((Transfer { source: Holding::Funder, destination: Holding::EscrowVault, amount }, event))
}

} // verus!
