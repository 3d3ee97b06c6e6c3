//! Claiming rewards and adding them to the principal.

use crate::account::{lemma_pending_nonnegative, ProgramState, RewardEscrow, UserStake};
use crate::error::StakingError;
use crate::event::{Holding, RewardsClaimedEvent, RewardsCompoundedEvent, Transfer};
use crate::identity::Identity;
use crate::tier::{get_tier, tier_of};
use vstd::prelude::*;

verus! {

/// The accounts of a claim.
#[derive(Clone, Copy, Debug, PartialEq, Eq)]
pub struct ClaimRewards {
    pub program_state: ProgramState,
    /// The stake record whose rewards are claimed.
    pub user_stake: UserStake,
    pub reward_escrow: RewardEscrow,
    /// The mint of the tokens presented.
    pub defai_mint: Identity,
    /// Who signed the claim.
    pub user: Identity,
    /// Who is named as the owner of the stake record.
    pub owner: Identity,
}

impl ClaimRewards {
    /// Why a claim is turned down before any reward is computed, if it is.
    /// The first of these that holds decides: the named owner is not the
    /// record's; the mint is not the pool's; the pool is paused.
    pub open spec fn refusal(self) -> Option<StakingError> {
        if self.user_stake.owner != self.owner {
            Some(StakingError::InvalidOwner)
        } else if self.defai_mint != self.program_state.defai_mint {
            Some(StakingError::InvalidMint)
        } else if self.program_state.paused {
            Some(StakingError::ProgramPaused)
        } else {
            None
        }
    }

    /// What a claim at `now` pays: all rewards accrued up to `now` and not
    /// yet paid out or compounded.
    pub open spec fn claimable(self, now: i64) -> int {
        self.user_stake.unclaimed_by(now)
    }

    /// Why a claim at `now` is turned down, if it is: for one of the reasons
    /// of `refusal`; else because nothing is claimable; else because the
    /// escrow holds less than what is claimable.
    pub open spec fn rejection(self, now: i64) -> Option<StakingError> {
        if self.refusal() is Some {
            self.refusal()
        } else if self.claimable(now) == 0 {
            Some(StakingError::NoRewards)
        } else if self.reward_escrow.total_balance < self.claimable(now) {
            Some(StakingError::InsufficientEscrowBalance)
        } else {
            None
        }
    }

    /// Whether a claim stays within 64 bits. Where it is not refused at
    /// once, the rewards can be settled and are no less than what was
    /// claimed before; where it is not turned down at all, the escrow's
    /// lifetime total can take the payment.
    pub open spec fn in_range(self, now: i64) -> bool {
        &&& self.refusal() is None ==> {
            &&& self.user_stake.settles_at(now)
            &&& self.user_stake.rewards_claimed <= self.user_stake.earned_by(now)
        }
        &&& self.rejection(now) is None ==> self.reward_escrow.total_distributed + self.claimable(
            now,
        ) <= u64::MAX
    }

    /// The accounts after a claim at `now`: the rewards are settled and all
    /// of them count as claimed; the escrow's balance is less and its
    /// lifetime total more by what was paid.
    pub open spec fn applied(self, now: i64) -> ClaimRewards {
        ClaimRewards {
            user_stake: UserStake {
                rewards_claimed: self.user_stake.earned_by(now) as u64,
                ..self.user_stake.settled(now)
            },
            reward_escrow: RewardEscrow {
                total_balance: (self.reward_escrow.total_balance - self.claimable(now)) as u64,
                total_distributed: (self.reward_escrow.total_distributed + self.claimable(
                    now,
                )) as u64,
                ..self.reward_escrow
            },
            ..self
        }
    }

    /// The transfer that pays the rewards out of the escrow.
    pub open spec fn payout(self, now: i64) -> Transfer {
        Transfer {
            source: Holding::EscrowVault,
            destination: Holding::User,
            amount: self.claimable(now) as u64,
        }
    }

    /// The notification of a claim at `now`.
    pub open spec fn event(self, now: i64) -> RewardsClaimedEvent {
        RewardsClaimedEvent {
            user: self.user,
            amount: self.claimable(now) as u64,
            total_distributed: self.applied(now).reward_escrow.total_distributed,
        }
    }

    /// Tests `in_range`.
    pub fn check_range(&self, now: i64) -> (ok: bool)
        ensures
            ok == self.in_range(now),
    {
        if self.user_stake.owner != self.owner || self.defai_mint != self.program_state.defai_mint
            || self.program_state.paused {
            return true;
        }
        match self.user_stake.checked_earned_by(now) {
            Some(earned) => {
                if earned < self.user_stake.rewards_claimed {
                    return false;
                }
                let claimable = earned - self.user_stake.rewards_claimed;
                claimable == 0 || self.reward_escrow.total_balance < claimable || claimable
                    <= u64::MAX - self.reward_escrow.total_distributed
            },
            None => false,
        }
    }
}

/// Pays out at time `now` all rewards of a position that are accrued and not
/// yet claimed.
///
/// The rewards are settled and paid out of the escrow, never in part: a
/// claim that the escrow cannot cover is turned down. Returns the transfer
/// to the depositor and the notification. A claim that is turned down
/// changes nothing.
pub fn claim_rewards(ctx: &mut ClaimRewards, now: i64) -> (r: Result<
    (Transfer, RewardsClaimedEvent),
    StakingError,
>)
    requires
        old(ctx).in_range(now),
    ensures
        match old(ctx).rejection(now) {
            Some(e) => r == Err::<(Transfer, RewardsClaimedEvent), StakingError>(e) && *final(ctx)
                == *old(ctx),
            None => r == Ok::<(Transfer, RewardsClaimedEvent), StakingError>(
                (old(ctx).payout(now), old(ctx).event(now)),
            ) && *final(ctx) == old(ctx).applied(now),
        },
        r matches Ok((payout, event)) ==> {
            &&& payout.amount == old(ctx).claimable(now) > 0
            &&& final(ctx).user_stake.rewards_claimed == final(ctx).user_stake.rewards_earned
            &&& final(ctx).user_stake.rewards_claimed == old(ctx).user_stake.rewards_claimed
                + payout.amount
            &&& final(ctx).reward_escrow.total_balance == old(ctx).reward_escrow.total_balance
                - payout.amount
            &&& final(ctx).reward_escrow.total_distributed
                == old(ctx).reward_escrow.total_distributed + payout.amount
        },
        old(ctx).user_stake.wf() ==> final(ctx).user_stake.wf(),
{
    if ctx.user_stake.owner != ctx.owner {
        return Err(StakingError::InvalidOwner);
    }
    if ctx.defai_mint != ctx.program_state.defai_mint {
        return Err(StakingError::InvalidMint);
    }
    if ctx.program_state.paused {
        return Err(StakingError::ProgramPaused);
    }
    let pending_rewards = ctx.user_stake.pending_rewards(now)?;
    let total_claimable = ctx.user_stake.rewards_earned + pending_rewards
        - ctx.user_stake.rewards_claimed;
    if total_claimable == 0 {
        return Err(StakingError::NoRewards);
    }
    if ctx.reward_escrow.total_balance < total_claimable {
        return Err(StakingError::InsufficientEscrowBalance);
    }
    ctx.user_stake.rewards_earned = ctx.user_stake.rewards_earned + pending_rewards;
    ctx.user_stake.rewards_claimed = ctx.user_stake.rewards_claimed + total_claimable;
    ctx.user_stake.last_claim_timestamp = now;
    ctx.reward_escrow.total_balance = ctx.reward_escrow.total_balance - total_claimable;
    ctx.reward_escrow.total_distributed = ctx.reward_escrow.total_distributed + total_claimable;

    let event = RewardsClaimedEvent {
        user: ctx.user,
        amount: total_claimable,
        total_distributed: ctx.reward_escrow.total_distributed,
    };
    Ok(
        (
            Transfer {
                source: Holding::EscrowVault,
                destination: Holding::User,
                amount: total_claimable,
            },
            event,
        ),
    )
}

/// A claim that follows a claim at the same time finds nothing to pay: it
/// stays within 64 bits and is turned down with `NoRewards`.
pub proof fn lemma_second_claim_finds_nothing(ctx: ClaimRewards, now: i64)
    requires
        ctx.in_range(now),
        ctx.rejection(now) is None,
    ensures
        ctx.applied(now).claimable(now) == 0,
        ctx.applied(now).in_range(now),
        ctx.applied(now).rejection(now) == Some(StakingError::NoRewards),
{
    lemma_pending_nonnegative(ctx.user_stake, now);
    lemma_pending_nonnegative(ctx.applied(now).user_stake, now);
}

/// The accounts of a compounding.
#[derive(Clone, Copy, Debug, PartialEq, Eq)]
pub struct CompoundRewards {
    pub program_state: ProgramState,
    /// The stake record whose rewards are compounded.
    pub user_stake: UserStake,
    pub reward_escrow: RewardEscrow,
    /// Who signed the compounding.
    pub user: Identity,
    /// Who is named as the owner of the stake record.
    pub owner: Identity,
}

impl CompoundRewards {
    /// Why a compounding is turned down before any reward is computed, if
    /// it is. The first of these that holds decides: the named owner is not
    /// the record's; the pool is paused.
    pub open spec fn refusal(self) -> Option<StakingError> {
        if self.user_stake.owner != self.owner {
            Some(StakingError::InvalidOwner)
        } else if self.program_state.paused {
            Some(StakingError::ProgramPaused)
        } else {
            None
        }
    }

    /// What a compounding at `now` adds to the principal: all rewards
    /// accrued up to `now` and not yet paid out or compounded.
    pub open spec fn compoundable(self, now: i64) -> int {
        self.user_stake.unclaimed_by(now)
    }

    /// Why a compounding at `now` is turned down, if it is: for one of the
    /// reasons of `refusal`; else because there is nothing to compound; else
    /// because the escrow holds less than that.
    pub open spec fn rejection(self, now: i64) -> Option<StakingError> {
        if self.refusal() is Some {
            self.refusal()
        } else if self.compoundable(now) == 0 {
            Some(StakingError::NoRewards)
        } else if self.reward_escrow.total_balance < self.compoundable(now) {
            Some(StakingError::InsufficientEscrowBalance)
        } else {
            None
        }
    }

    /// Whether a compounding stays within 64 bits. Where it is not refused
    /// at once, the rewards can be settled and are no less than what was
    /// claimed before; where it is not turned down at all, the principal,
    /// the pool's total and the escrow's lifetime total can take the
    /// rewards.
    pub open spec fn in_range(self, now: i64) -> bool {
        &&& self.refusal() is None ==> {
            &&& self.user_stake.settles_at(now)
            &&& self.user_stake.rewards_claimed <= self.user_stake.earned_by(now)
        }
        &&& self.rejection(now) is None ==> {
            &&& self.user_stake.staked_amount + self.compoundable(now) <= u64::MAX
            &&& self.program_state.total_staked + self.compoundable(now) <= u64::MAX
            &&& self.reward_escrow.total_distributed + self.compoundable(now) <= u64::MAX
        }
    }

    /// The accounts after a compounding at `now`: the rewards are settled,
    /// all of them count as claimed, and what was unclaimed is added to the
    /// principal and to the pool's total; the tier is that of the new
    /// principal; the escrow's balance is less and its lifetime total more
    /// by the same amount.
    pub open spec fn applied(self, now: i64) -> CompoundRewards {
        let principal = (self.user_stake.staked_amount + self.compoundable(now)) as u64;
        CompoundRewards {
            program_state: ProgramState {
                total_staked: (self.program_state.total_staked + self.compoundable(now)) as u64,
                ..self.program_state
            },
            user_stake: UserStake {
                staked_amount: principal,
                tier: tier_of(principal),
                rewards_claimed: self.user_stake.earned_by(now) as u64,
                ..self.user_stake.settled(now)
            },
            reward_escrow: RewardEscrow {
                total_balance: (self.reward_escrow.total_balance - self.compoundable(now)) as u64,
                total_distributed: (self.reward_escrow.total_distributed + self.compoundable(
                    now,
                )) as u64,
                ..self.reward_escrow
            },
            ..self
        }
    }

    /// The notification of a compounding at `now`.
    pub open spec fn event(self, now: i64) -> RewardsCompoundedEvent {
        RewardsCompoundedEvent {
            user: self.user,
            amount_compounded: self.compoundable(now) as u64,
            new_stake_amount: self.applied(now).user_stake.staked_amount,
            old_tier: self.user_stake.tier,
            new_tier: self.applied(now).user_stake.tier,
            timestamp: now,
        }
    }

    /// Tests `in_range`.
    pub fn check_range(&self, now: i64) -> (ok: bool)
        ensures
            ok == self.in_range(now),
    {
        if self.user_stake.owner != self.owner || self.program_state.paused {
            return true;
        }
        match self.user_stake.checked_earned_by(now) {
            Some(earned) => {
                if earned < self.user_stake.rewards_claimed {
                    return false;
                }
                let unclaimed = earned - self.user_stake.rewards_claimed;
                unclaimed == 0 || self.reward_escrow.total_balance < unclaimed || (unclaimed
                    <= u64::MAX - self.user_stake.staked_amount && unclaimed <= u64::MAX
                    - self.program_state.total_staked && unclaimed <= u64::MAX
                    - self.reward_escrow.total_distributed)
            },
            None => false,
        }
    }
}

/// Adds to the principal at time `now` all rewards of a position that are
/// accrued and not yet claimed.
///
/// No tokens leave the pool: the rewards pass from the escrow's balance into
/// the principal and the pool's total. A compounding that the escrow cannot
/// cover is turned down. Returns the notification. A compounding that is
/// turned down changes nothing.
pub fn compound_rewards(ctx: &mut CompoundRewards, now: i64) -> (r: Result<
    RewardsCompoundedEvent,
    StakingError,
>)
    requires
        old(ctx).in_range(now),
    ensures
        match old(ctx).rejection(now) {
            Some(e) => r == Err::<RewardsCompoundedEvent, StakingError>(e)
                && *final(ctx) == *old(ctx),
            None => r == Ok::<RewardsCompoundedEvent, StakingError>(old(ctx).event(now))
                && *final(ctx) == old(ctx).applied(now),
        },
        r matches Ok(event) ==> {
            &&& event.amount_compounded == old(ctx).compoundable(now) > 0
            &&& final(ctx).user_stake.rewards_claimed == final(ctx).user_stake.rewards_earned
            &&& final(ctx).user_stake.staked_amount == old(ctx).user_stake.staked_amount
                + event.amount_compounded
            &&& final(ctx).program_state.total_staked == old(ctx).program_state.total_staked
                + event.amount_compounded
            &&& final(ctx).reward_escrow.total_balance == old(ctx).reward_escrow.total_balance
                - event.amount_compounded
            &&& final(ctx).reward_escrow.total_distributed
                == old(ctx).reward_escrow.total_distributed + event.amount_compounded
            &&& final(ctx).user_stake.wf()
        },
        old(ctx).user_stake.wf() ==> final(ctx).user_stake.wf(),
{
    if ctx.user_stake.owner != ctx.owner {
        return Err(StakingError::InvalidOwner);
    }
    if ctx.program_state.paused {
        return Err(StakingError::ProgramPaused);
    }
    let pending_rewards = ctx.user_stake.pending_rewards(now)?;
    let total_unclaimed = ctx.user_stake.rewards_earned + pending_rewards
        - ctx.user_stake.rewards_claimed;
    if total_unclaimed == 0 {
        return Err(StakingError::NoRewards);
    }
    if ctx.reward_escrow.total_balance < total_unclaimed {
        return Err(StakingError::InsufficientEscrowBalance);
    }
    ctx.user_stake.staked_amount = ctx.user_stake.staked_amount + total_unclaimed;
    let old_tier = ctx.user_stake.tier;
    ctx.user_stake.tier = get_tier(ctx.user_stake.staked_amount)?;
    ctx.user_stake.rewards_earned = ctx.user_stake.rewards_earned + pending_rewards;
    ctx.user_stake.rewards_claimed = ctx.user_stake.rewards_earned;
    ctx.user_stake.last_claim_timestamp = now;
    ctx.reward_escrow.total_balance = ctx.reward_escrow.total_balance - total_unclaimed;
    ctx.reward_escrow.total_distributed = ctx.reward_escrow.total_distributed + total_unclaimed;
    ctx.program_state.total_staked = ctx.program_state.total_staked + total_unclaimed;

    Ok(
        RewardsCompoundedEvent {
            user: ctx.user,
            amount_compounded: total_unclaimed,
            new_stake_amount: ctx.user_stake.staked_amount,
            old_tier,
            new_tier: ctx.user_stake.tier,
            timestamp: now,
        },
    )
}

} // verus!
