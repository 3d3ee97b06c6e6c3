//! The records that the pool keeps: its own state, the reward escrow, and one
//! stake record for each depositor.

use crate::accrual::{
    accrued_reward, calculate_rewards, checked_rewards, lemma_reward_nonnegative, reward_fits,
};
use crate::error::StakingError;
use crate::identity::Identity;
use crate::params::GOLD_MIN;
use crate::tier::{get_tier_apy, rate_of, tier_of};
use vstd::prelude::*;

verus! {

/// The state of the pool, of which there is one.
#[derive(Clone, Copy, Debug, PartialEq, Eq)]
pub struct ProgramState {
    /// Who may pause the pool and propose a new authority.
    pub authority: Identity,
    /// The token that the pool accepts.
    pub defai_mint: Identity,
    /// The sum of the principal of all stake records.
    pub total_staked: u64,
    /// The number of stake records ever created.
    pub total_users: u64,
    /// While set, no tokens move.
    pub paused: bool,
    /// Address bump of the stake vault.
    pub vault_bump: u8,
    /// Address bump of the reward escrow record.
    pub reward_escrow_bump: u8,
    /// Address bump of the escrow's token account.
    pub escrow_vault_bump: u8,
    /// The authority that has been proposed, if a change is under way.
    pub pending_authority: Option<Identity>,
    /// The time from which the proposed authority can be accepted; 0 while
    /// no change is under way.
    pub authority_change_timestamp: i64,
}

impl ProgramState {
    /// The state before the pool is set up: every field zero.
    pub open spec fn blank() -> ProgramState {
        ProgramState {
            authority: Identity::null(),
            defai_mint: Identity::null(),
            total_staked: 0,
            total_users: 0,
            paused: false,
            vault_bump: 0,
            reward_escrow_bump: 0,
            escrow_vault_bump: 0,
            pending_authority: None,
            authority_change_timestamp: 0,
        }
    }

    /// While no change of authority is under way the change time is 0.
    pub open spec fn wf(self) -> bool {
        self.pending_authority is None ==> self.authority_change_timestamp == 0
    }
}

impl Default for ProgramState {
    fn default() -> (state: ProgramState)
        ensures
            state == ProgramState::blank(),
            state.wf(),
    {
        ProgramState {
            authority: Identity::default(),
            defai_mint: Identity::default(),
            total_staked: 0,
            total_users: 0,
            paused: false,
            vault_bump: 0,
            reward_escrow_bump: 0,
            escrow_vault_bump: 0,
            pending_authority: None,
            authority_change_timestamp: 0,
        }
    }
}

/// The reward escrow, of which there is one. It records the reward tokens
/// that are there to be paid out.
#[derive(Clone, Copy, Debug, PartialEq, Eq)]
pub struct RewardEscrow {
    /// The address of the pool state that the escrow belongs to.
    pub authority: Identity,
    /// The reward tokens that are available.
    pub total_balance: u64,
    /// The rewards paid out or compounded since the escrow was set up.
    pub total_distributed: u64,
    /// Address bump of the escrow record.
    pub bump: u8,
}

impl RewardEscrow {
    /// The escrow before it is set up: every field zero.
    pub open spec fn blank() -> RewardEscrow {
        RewardEscrow {
            authority: Identity::null(),
            total_balance: 0,
            total_distributed: 0,
            bump: 0,
        }
    }
}

impl Default for RewardEscrow {
    fn default() -> (escrow: RewardEscrow)
        ensures
            escrow == RewardEscrow::blank(),
    {
        RewardEscrow {
            authority: Identity::default(),
            total_balance: 0,
            total_distributed: 0,
            bump: 0,
        }
    }
}

/// The stake record of one depositor. It is created by the depositor's first
/// deposit and never removed; a record whose owner is the null identity has
/// not been created yet.
#[derive(Clone, Copy, Debug, PartialEq, Eq)]
pub struct UserStake {
    /// The depositor.
    pub owner: Identity,
    /// The principal that is locked now.
    pub staked_amount: u64,
    /// All rewards accrued up to the last settlement.
    pub rewards_earned: u64,
    /// All rewards paid out or compounded.
    pub rewards_claimed: u64,
    /// The tier of the principal, 0 to 3.
    pub tier: u8,
    /// Time of the first deposit.
    pub stake_timestamp: i64,
    /// Time of the latest deposit, from which the withdrawal penalty decays.
    pub last_stake_timestamp: i64,
    /// Time of the last settlement of rewards.
    pub last_claim_timestamp: i64,
    /// Time before which nothing can be withdrawn.
    pub locked_until: i64,
}

impl UserStake {
    /// The record before its first deposit: null owner, every other field zero.
    pub open spec fn blank() -> UserStake {
        UserStake {
            owner: Identity::null(),
            staked_amount: 0,
            rewards_earned: 0,
            rewards_claimed: 0,
            tier: 0,
            stake_timestamp: 0,
            last_stake_timestamp: 0,
            last_claim_timestamp: 0,
            locked_until: 0,
        }
    }

    /// Whether the record has not been created yet.
    pub open spec fn is_new(self) -> bool {
        self.owner.is_null()
    }

    /// The tier is that of the principal, and no more has been claimed than
    /// was earned.
    pub open spec fn wf(self) -> bool {
        &&& self.tier == tier_of(self.staked_amount)
        &&& self.rewards_claimed <= self.rewards_earned
    }

    /// The rewards accrued since the last settlement: those of the principal
    /// at the rate of its tier, and nothing where it has none.
    pub open spec fn pending(self, now: i64) -> int {
        match rate_of(self.staked_amount) {
            Some(bps) => accrued_reward(self.staked_amount, bps, self.last_claim_timestamp, now),
            None => 0,
        }
    }

    /// All rewards accrued up to `now`.
    pub open spec fn earned_by(self, now: i64) -> int {
        self.rewards_earned + self.pending(now)
    }

    /// The rewards accrued up to `now` and not yet paid out or compounded.
    pub open spec fn unclaimed_by(self, now: i64) -> int {
        self.earned_by(now) - self.rewards_claimed
    }

    /// Whether the rewards can be settled at `now` within 64 bits: where the
    /// principal has a tier, time has not run back behind the last settlement,
    /// and the rewards accrued since, alone and added to those before, are at
    /// most `u64::MAX`.
    pub open spec fn settles_at(self, now: i64) -> bool {
        match rate_of(self.staked_amount) {
            Some(bps) => {
                &&& reward_fits(self.staked_amount, bps, self.last_claim_timestamp, now)
                &&& self.earned_by(now) <= u64::MAX
            },
            None => true,
        }
    }

    /// The record with its rewards settled at `now`.
    pub open spec fn settled(self, now: i64) -> UserStake {
        UserStake {
            rewards_earned: self.earned_by(now) as u64,
            last_claim_timestamp: now,
            ..self
        }
    }

    /// The rewards accrued since the last settlement. A principal below the
    /// Gold minimum has no yield rate and has accrued nothing; the rate is
    /// not looked up for it.
    pub fn pending_rewards(&self, now: i64) -> (r: Result<u64, StakingError>)
        requires
            self.settles_at(now),
        ensures
            r == Ok::<u64, StakingError>(self.pending(now) as u64),
            0 <= self.pending(now),
            self.earned_by(now) <= u64::MAX,
    {
        if self.staked_amount < GOLD_MIN {
            return Ok(0);
        }
        let bps = get_tier_apy(self.staked_amount)?;
        proof {
            lemma_reward_nonnegative(self.staked_amount, bps, self.last_claim_timestamp, now);
        }
        calculate_rewards(self.staked_amount, bps, self.last_claim_timestamp, now)
    }

    /// All rewards accrued up to `now`, or nothing where they cannot be
    /// settled at `now` within 64 bits.
    pub fn checked_earned_by(&self, now: i64) -> (r: Option<u64>)
        ensures
            r is Some <==> self.settles_at(now),
            r matches Some(earned) ==> earned == self.earned_by(now),
    {
        match get_tier_apy(self.staked_amount) {
            Ok(bps) => match checked_rewards(
                self.staked_amount,
                bps,
                self.last_claim_timestamp,
                now,
            ) {
                Some(pending) => self.rewards_earned.checked_add(pending),
                None => None,
            },
            Err(_) => Some(self.rewards_earned),
        }
    }

    /// Tests `settles_at`.
    pub fn check_settles_at(&self, now: i64) -> (ok: bool)
        ensures
            ok == self.settles_at(now),
    {
        self.checked_earned_by(now).is_some()
    }
}

/// Rewards that can be settled are not negative: settling takes nothing away.
pub proof fn lemma_pending_nonnegative(stake: UserStake, now: i64)
    requires
        stake.settles_at(now),
    ensures
        0 <= stake.pending(now),
        stake.rewards_earned <= stake.earned_by(now) <= u64::MAX,
        now == stake.last_claim_timestamp ==> stake.pending(now) == 0,
{
    match rate_of(stake.staked_amount) {
        Some(bps) => {
            lemma_reward_nonnegative(stake.staked_amount, bps, stake.last_claim_timestamp, now);
        },
        None => {},
    }
}

impl Default for UserStake {
    fn default() -> (stake: UserStake)
        ensures
            stake == UserStake::blank(),
            stake.is_new(),
            stake.wf(),
    {
        UserStake {
            owner: Identity::default(),
            staked_amount: 0,
            rewards_earned: 0,
            rewards_claimed: 0,
            tier: 0,
            stake_timestamp: 0,
            last_stake_timestamp: 0,
            last_claim_timestamp: 0,
            locked_until: 0,
        }
    }
}

} // verus!
