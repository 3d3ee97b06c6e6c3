//! A tiered token-staking and reward-accrual ledger.
//!
//! Depositors lock tokens in a pooled vault, earn time-proportional yield at a
//! rate set by the tier of their principal, pay a decaying penalty on early
//! withdrawal, and claim or compound the yield out of a pre-funded escrow. An
//! administrator pauses the pool and hands the authority over through a
//! timelocked two-step change.
//!
//! The crate holds the accounting only. Token movements are returned to the
//! caller as [`Transfer`] values and notifications as event values; the caller
//! supplies the account records, the identities that signed and the time.

pub mod account;
pub mod accrual;
pub mod admin;
pub mod error;
pub mod escrow;
pub mod event;
pub mod identity;
pub mod ledger;
pub mod params;
pub mod reward;
pub mod staking;
pub mod tier;

pub use account::{ProgramState, RewardEscrow, UserStake};
pub use accrual::{calculate_rewards, calculate_unstake_penalty, checked_rewards};
pub use admin::{
    accept_authority_change, initialize_program, pause_program, propose_authority_change,
    InitializeProgram, PauseProgram, UpdateAuthority,
};
pub use error::StakingError;
pub use escrow::{fund_escrow, initialize_escrow, FundEscrow, InitializeEscrow};
pub use event::{
    AuthorityUpdatedEvent, EscrowFundedEvent, Holding, ProgramPausedEvent, RewardsClaimedEvent,
    RewardsCompoundedEvent, StakeEvent, Transfer, UnstakeEvent,
};
pub use identity::Identity;
pub use params::{
    ADMIN_TIMELOCK_DURATION, BASIS_POINTS, FULL_PENALTY_BPS, FULL_PENALTY_DAYS, GOLD_APY_BPS,
    GOLD_MAX, GOLD_MIN, INFINITE_APY_BPS, INFINITE_MIN, REDUCED_PENALTY_BPS, REDUCED_PENALTY_DAYS,
    SECONDS_PER_DAY, SECONDS_PER_YEAR, STAKE_LOCK_DURATION, TITANIUM_APY_BPS, TITANIUM_MAX,
    TITANIUM_MIN,
};
pub use reward::{claim_rewards, compound_rewards, ClaimRewards, CompoundRewards};
pub use staking::{stake_tokens, unstake_tokens, StakeTokens, UnstakeTokens};
pub use tier::{get_tier, get_tier_apy};
