//! Deposits and withdrawals.

use crate::account::{ProgramState, RewardEscrow, UserStake};
use crate::accrual::{calculate_unstake_penalty, unstake_penalty};
use crate::error::StakingError;
use crate::event::{Holding, StakeEvent, Transfer, UnstakeEvent};
use crate::identity::Identity;
use crate::params::{GOLD_MIN, STAKE_LOCK_DURATION};
use crate::tier::{get_tier, tier_of};
use vstd::prelude::*;

verus! {

/// The accounts of a deposit.
#[derive(Clone, Copy, Debug, PartialEq, Eq)]
pub struct StakeTokens {
    pub program_state: ProgramState,
    /// The depositor's stake record, blank before the first deposit.
    pub user_stake: UserStake,
    /// The mint of the tokens presented.
    pub defai_mint: Identity,
    /// Who signed the deposit.
    pub user: Identity,
}

impl StakeTokens {
    /// Why a deposit of `amount` is turned down, if it is. The first of
    /// these that holds decides: the mint is not the pool's; the pool is
    /// paused; the amount is below the Gold minimum.
    pub open spec fn rejection(self, amount: u64) -> Option<StakingError> {
        if self.defai_mint != self.program_state.defai_mint {
            Some(StakingError::InvalidMint)
        } else if self.program_state.paused {
            Some(StakingError::ProgramPaused)
        } else if amount < GOLD_MIN {
            Some(StakingError::AmountTooLow)
        } else {
            None
        }
    }

    /// Whether a deposit that is not turned down stays within 64 bits: the
    /// lock time and the pool's total do, and so does the count of records
    /// for a new record, or the settled rewards and the principal for one
    /// that exists.
    pub open spec fn in_range(self, amount: u64, now: i64) -> bool {
        self.rejection(amount) is None ==> {
            &&& now + STAKE_LOCK_DURATION <= i64::MAX
            &&& self.program_state.total_staked + amount <= u64::MAX
            &&& if self.user_stake.is_new() {
                self.program_state.total_users + 1 <= u64::MAX
            } else {
                &&& self.user_stake.settles_at(now)
                &&& self.user_stake.staked_amount + amount <= u64::MAX
            }
        }
    }

    /// The stake record after a deposit of `amount` at `now`. A new record
    /// starts with the amount as its principal, the signer as its owner and
    /// every time at `now`. On one that exists the rewards are settled at the
    /// principal before the deposit, and the amount is added. Either way the
    /// whole position is locked for seven days from `now`, and the tier is
    /// that of the new principal.
    pub open spec fn staked(self, amount: u64, now: i64) -> UserStake {
        if self.user_stake.is_new() {
            UserStake {
                owner: self.user,
                staked_amount: amount,
                rewards_earned: 0,
                rewards_claimed: 0,
                tier: tier_of(amount),
                stake_timestamp: now,
                last_stake_timestamp: now,
                last_claim_timestamp: now,
                locked_until: (now + STAKE_LOCK_DURATION) as i64,
            }
        } else {
            let principal = (self.user_stake.staked_amount + amount) as u64;
            UserStake {
                staked_amount: principal,
                tier: tier_of(principal),
                last_stake_timestamp: now,
                locked_until: (now + STAKE_LOCK_DURATION) as i64,
                ..self.user_stake.settled(now)
            }
        }
    }

    /// The accounts after a deposit of `amount` at `now`: the stake record
    /// as `staked` gives it, the pool's total more by the amount, and its
    /// count of records more by one if the record is new.
    pub open spec fn applied(self, amount: u64, now: i64) -> StakeTokens {
        StakeTokens {
            program_state: ProgramState {
                total_staked: (self.program_state.total_staked + amount) as u64,
                total_users: if self.user_stake.is_new() {
                    (self.program_state.total_users + 1) as u64
                } else {
                    self.program_state.total_users
                },
                ..self.program_state
            },
            user_stake: self.staked(amount, now),
            ..self
        }
    }

    /// The transfer that brings the deposit from the depositor into the
    /// stake vault.
    pub open spec fn deposit(self, amount: u64) -> Transfer {
        Transfer { source: Holding::User, destination: Holding::StakeVault, amount }
    }

    /// The notification of a deposit of `amount` at `now`.
    pub open spec fn event(self, amount: u64, now: i64) -> StakeEvent {
        StakeEvent {
            user: self.user,
            amount,
            tier: self.staked(amount, now).tier,
            total_staked: self.staked(amount, now).staked_amount,
        }
    }

    /// Tests `in_range`.
    pub fn check_range(&self, amount: u64, now: i64) -> (ok: bool)
        ensures
            ok == self.in_range(amount, now),
    {
        if self.defai_mint != self.program_state.defai_mint || self.program_state.paused || amount
            < GOLD_MIN {
            return true;
        }
        let fits = now <= i64::MAX - STAKE_LOCK_DURATION && amount <= u64::MAX
            - self.program_state.total_staked;
        if self.user_stake.owner.is_default() {
            fits && self.program_state.total_users < u64::MAX
        } else {
            fits && self.user_stake.check_settles_at(now) && amount <= u64::MAX
                - self.user_stake.staked_amount
        }
    }
}

/// Deposits `amount` into a position at time `now`.
///
/// The first deposit creates the stake record; a later one settles the
/// rewards at the principal before the deposit and adds to it. Every deposit
/// locks the whole position for seven days and restarts the decay of the
/// withdrawal penalty. Returns the transfer into the stake vault and the
/// notification. A deposit that is turned down changes nothing.
pub fn stake_tokens(ctx: &mut StakeTokens, amount: u64, now: i64) -> (r: Result<
    (Transfer, StakeEvent),
    StakingError,
>)
    requires
        old(ctx).in_range(amount, now),
    ensures
        match old(ctx).rejection(amount) {
            Some(e) => r == Err::<(Transfer, StakeEvent), StakingError>(e)
                && *final(ctx) == *old(ctx),
            None => r == Ok::<(Transfer, StakeEvent), StakingError>(
                (old(ctx).deposit(amount), old(ctx).event(amount, now)),
            ) && *final(ctx) == old(ctx).applied(amount, now),
        },
        r is Ok ==> {
            &&& final(ctx).program_state.total_staked == old(ctx).program_state.total_staked
                + amount
            &&& final(ctx).user_stake.locked_until == now + STAKE_LOCK_DURATION
            &&& final(ctx).user_stake.last_stake_timestamp == now
            &&& final(ctx).user_stake.tier == tier_of(final(ctx).user_stake.staked_amount)
            &&& !old(ctx).user_stake.is_new() ==> final(ctx).user_stake.staked_amount
                == old(ctx).user_stake.staked_amount + amount
        },
        old(ctx).user_stake.wf() ==> final(ctx).user_stake.wf(),
{
    if ctx.defai_mint != ctx.program_state.defai_mint {
        return Err(StakingError::InvalidMint);
    }
    if ctx.program_state.paused {
        return Err(StakingError::ProgramPaused);
    }
    if amount < GOLD_MIN {
        return Err(StakingError::AmountTooLow);
    }
    if ctx.user_stake.owner.is_default() {
        ctx.user_stake.owner = ctx.user;
        ctx.user_stake.staked_amount = amount;
        ctx.user_stake.stake_timestamp = now;
        ctx.user_stake.last_stake_timestamp = now;
        ctx.user_stake.last_claim_timestamp = now;
        ctx.user_stake.locked_until = now + STAKE_LOCK_DURATION;
        ctx.user_stake.rewards_earned = 0;
        ctx.user_stake.rewards_claimed = 0;
        ctx.program_state.total_users = ctx.program_state.total_users + 1;
    } else {
        let pending_rewards = ctx.user_stake.pending_rewards(now)?;
        ctx.user_stake.rewards_earned = ctx.user_stake.rewards_earned + pending_rewards;
        ctx.user_stake.staked_amount = ctx.user_stake.staked_amount + amount;
        ctx.user_stake.last_claim_timestamp = now;
        ctx.user_stake.last_stake_timestamp = now;
        ctx.user_stake.locked_until = now + STAKE_LOCK_DURATION;
    }
    ctx.user_stake.tier = get_tier(ctx.user_stake.staked_amount)?;
    ctx.program_state.total_staked = ctx.program_state.total_staked + amount;

    let event = StakeEvent {
        user: ctx.user,
        amount,
        tier: ctx.user_stake.tier,
        total_staked: ctx.user_stake.staked_amount,
    };
    Ok((Transfer { source: Holding::User, destination: Holding::StakeVault, amount }, event))
}

/// The accounts of a withdrawal.
#[derive(Clone, Copy, Debug, PartialEq, Eq)]
pub struct UnstakeTokens {
    pub program_state: ProgramState,
    /// The stake record to withdraw from.
    pub user_stake: UserStake,
    pub reward_escrow: RewardEscrow,
    /// The mint of the tokens presented.
    pub defai_mint: Identity,
    /// Who signed the withdrawal.
    pub user: Identity,
    /// Who is named as the owner of the stake record.
    pub owner: Identity,
}

impl UnstakeTokens {
    /// Why a withdrawal of `amount` at `now` is turned down, if it is. The
    /// first of these that holds decides: the named owner is not the
    /// record's; the mint is not the pool's; the pool is paused; the lock has
    /// not run out; the amount exceeds the principal.
    pub open spec fn rejection(self, amount: u64, now: i64) -> Option<StakingError> {
        if self.user_stake.owner != self.owner {
            Some(StakingError::InvalidOwner)
        } else if self.defai_mint != self.program_state.defai_mint {
            Some(StakingError::InvalidMint)
        } else if self.program_state.paused {
            Some(StakingError::ProgramPaused)
        } else if now < self.user_stake.locked_until {
            Some(StakingError::TokensLocked)
        } else if self.user_stake.staked_amount < amount {
            Some(StakingError::InsufficientStake)
        } else {
            None
        }
    }

    /// The penalty on a withdrawal of `amount` at `now`, which decays from
    /// the time of the latest deposit.
    pub open spec fn penalty(self, amount: u64, now: i64) -> int {
        unstake_penalty(self.user_stake.last_stake_timestamp, now, amount)
    }

    /// Whether a withdrawal that is not turned down stays within 64 bits: the
    /// rewards can be settled, the escrow can take the penalty, and the
    /// pool's total covers the amount.
    pub open spec fn in_range(self, amount: u64, now: i64) -> bool {
        self.rejection(amount, now) is None ==> {
            &&& self.user_stake.settles_at(now)
            &&& self.reward_escrow.total_balance + self.penalty(amount, now) <= u64::MAX
            &&& amount <= self.program_state.total_staked
        }
    }

    /// The accounts after a withdrawal of `amount` at `now`: the rewards are
    /// settled, the principal and the pool's total are less by the whole
    /// amount, the tier is that of what remains, and the escrow has the
    /// penalty.
    pub open spec fn applied(self, amount: u64, now: i64) -> UnstakeTokens {
        let remaining = (self.user_stake.staked_amount - amount) as u64;
        UnstakeTokens {
            program_state: ProgramState {
                total_staked: (self.program_state.total_staked - amount) as u64,
                ..self.program_state
            },
            user_stake: UserStake {
                staked_amount: remaining,
                tier: tier_of(remaining),
                ..self.user_stake.settled(now)
            },
            reward_escrow: RewardEscrow {
                total_balance: (self.reward_escrow.total_balance + self.penalty(
                    amount,
                    now,
                )) as u64,
                ..self.reward_escrow
            },
            ..self
        }
    }

    /// The transfer that pays the depositor: the amount less the penalty, out
    /// of the stake vault.
    pub open spec fn payout(self, amount: u64, now: i64) -> Transfer {
        Transfer {
            source: Holding::StakeVault,
            destination: Holding::User,
            amount: (amount - self.penalty(amount, now)) as u64,
        }
    }

    /// The transfer that moves the penalty from the stake vault to the
    /// escrow; none where there is no penalty.
    pub open spec fn forfeit(self, amount: u64, now: i64) -> Option<Transfer> {
        if self.penalty(amount, now) > 0 {
            Some(
                Transfer {
                    source: Holding::StakeVault,
                    destination: Holding::EscrowVault,
                    amount: self.penalty(amount, now) as u64,
                },
            )
        } else {
            None
        }
    }

    /// The notification of a withdrawal of `amount` at `now`.
    pub open spec fn event(self, amount: u64, now: i64) -> UnstakeEvent {
        UnstakeEvent {
            user: self.user,
            amount,
            penalty: self.penalty(amount, now) as u64,
            remaining_stake: self.applied(amount, now).user_stake.staked_amount,
            new_tier: self.applied(amount, now).user_stake.tier,
        }
    }

    /// Tests `in_range`.
    pub fn check_range(&self, amount: u64, now: i64) -> (ok: bool)
        ensures
            ok == self.in_range(amount, now),
    {
        if self.user_stake.owner != self.owner || self.defai_mint != self.program_state.defai_mint
            || self.program_state.paused || now < self.user_stake.locked_until
            || self.user_stake.staked_amount < amount {
            return true;
        }
        if !self.user_stake.check_settles_at(now) {
            return false;
        }
        match calculate_unstake_penalty(self.user_stake.last_stake_timestamp, now, amount) {
            Ok(penalty) => penalty <= u64::MAX - self.reward_escrow.total_balance && amount
                <= self.program_state.total_staked,
            Err(_) => true,
        }
    }
}

/// Withdraws `amount` from a position at time `now`.
///
/// The rewards are settled first. A penalty that decays from the time of the
/// latest deposit is taken out of what the depositor receives and goes to the
/// escrow; the principal and the pool's total go down by the whole amount.
/// Returns the transfer to the depositor, the transfer of the penalty where
/// there is one, and the notification. A withdrawal that is turned down
/// changes nothing.
pub fn unstake_tokens(ctx: &mut UnstakeTokens, amount: u64, now: i64) -> (r: Result<
    (Transfer, Option<Transfer>, UnstakeEvent),
    StakingError,
>)
    requires
        old(ctx).in_range(amount, now),
    ensures
        match old(ctx).rejection(amount, now) {
            Some(e) => r == Err::<(Transfer, Option<Transfer>, UnstakeEvent), StakingError>(e)
                && *final(ctx) == *old(ctx),
            None => r == Ok::<(Transfer, Option<Transfer>, UnstakeEvent), StakingError>(
                (
                    old(ctx).payout(amount, now),
                    old(ctx).forfeit(amount, now),
                    old(ctx).event(amount, now),
                ),
            ) && *final(ctx) == old(ctx).applied(amount, now),
        },
        r matches Ok((payout, forfeit, event)) ==> {
            &&& payout.amount + event.penalty == amount
            &&& final(ctx).user_stake.staked_amount == old(ctx).user_stake.staked_amount - amount
            &&& final(ctx).program_state.total_staked == old(ctx).program_state.total_staked
                - amount
            &&& final(ctx).reward_escrow.total_balance == old(ctx).reward_escrow.total_balance
                + event.penalty
            &&& final(ctx).user_stake.rewards_earned >= old(ctx).user_stake.rewards_earned
        },
        old(ctx).user_stake.wf() ==> final(ctx).user_stake.wf(),
{
    if ctx.user_stake.owner != ctx.owner {
        return Err(StakingError::InvalidOwner);
    }
    if ctx.defai_mint != ctx.program_state.defai_mint {
        return Err(StakingError::InvalidMint);
    }
    if ctx.program_state.paused {
        return Err(StakingError::ProgramPaused);
    }
    if now < ctx.user_stake.locked_until {
        return Err(StakingError::TokensLocked);
    }
    if ctx.user_stake.staked_amount < amount {
        return Err(StakingError::InsufficientStake);
    }
    let pending_rewards = ctx.user_stake.pending_rewards(now)?;
    let penalty = calculate_unstake_penalty(ctx.user_stake.last_stake_timestamp, now, amount)?;
    let amount_after_penalty = amount - penalty;
    let payout = Transfer {
        source: Holding::StakeVault,
        destination: Holding::User,
        amount: amount_after_penalty,
    };
    let forfeit = if penalty > 0 {
        Some(
            Transfer {
                source: Holding::StakeVault,
                destination: Holding::EscrowVault,
                amount: penalty,
            },
        )
    } else {
        None
    };

    ctx.user_stake.rewards_earned = ctx.user_stake.rewards_earned + pending_rewards;
    ctx.user_stake.last_claim_timestamp = now;
    ctx.reward_escrow.total_balance = ctx.reward_escrow.total_balance + penalty;
    ctx.user_stake.staked_amount = ctx.user_stake.staked_amount - amount;
    ctx.user_stake.tier = get_tier(ctx.user_stake.staked_amount)?;
    ctx.program_state.total_staked = ctx.program_state.total_staked - amount;

    let event = UnstakeEvent {
        user: ctx.user,
        amount,
        penalty,
        remaining_stake: ctx.user_stake.staked_amount,
        new_tier: ctx.user_stake.tier,
    };
    Ok((payout, forfeit, event))
}

} // verus!
