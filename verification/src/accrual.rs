//! Reward accrual and the penalty on early withdrawal.

use crate::error::StakingError;
use crate::params::{
    BASIS_POINTS, FULL_PENALTY_BPS, FULL_PENALTY_DAYS, REDUCED_PENALTY_BPS, REDUCED_PENALTY_DAYS,
    SECONDS_PER_DAY, SECONDS_PER_YEAR,
};
use vstd::arithmetic::div_mod::lemma_div_denominator;
use vstd::prelude::*;

verus! {

/// The yield of a principal at a yearly rate in basis points over the time
/// from `last` to `now`: the principal times the rate times the seconds that
/// passed, over the seconds of a year times 10,000, rounded down. It grows
/// linearly in time and does not compound.
pub open spec fn accrued_reward(staked: u64, bps: u16, last: i64, now: i64) -> int {
    (staked * bps * (now - last)) / (SECONDS_PER_YEAR * BASIS_POINTS)
}

/// Whether the yield over the time from `last` to `now` is defined and fits in
/// 64 bits: time has not run backwards, and the amount is at most `u64::MAX`.
pub open spec fn reward_fits(staked: u64, bps: u16, last: i64, now: i64) -> bool {
    last <= now && accrued_reward(staked, bps, last, now) <= u64::MAX
}

/// While time does not run backwards no yield is negative, and over no time
/// there is none.
pub proof fn lemma_reward_nonnegative(staked: u64, bps: u16, last: i64, now: i64)
    requires
        last <= now,
    ensures
        0 <= staked * bps * (now - last),
        0 <= accrued_reward(staked, bps, last, now),
        now == last ==> accrued_reward(staked, bps, last, now) == 0,
{
    let elapsed = now - last;
    assert(0 <= staked * bps * elapsed) by (nonlinear_arith)
        requires
            0 <= elapsed,
    ;
    assert(elapsed == 0 ==> staked * bps * elapsed == 0) by (nonlinear_arith);
}

/// The yield grows with the principal, with the rate and with time.
pub proof fn lemma_reward_monotonic(
    staked: u64,
    more_staked: u64,
    bps: u16,
    higher_bps: u16,
    last: i64,
    now: i64,
    later: i64,
)
    requires
        staked <= more_staked,
        bps <= higher_bps,
        last <= now <= later,
    ensures
        accrued_reward(staked, bps, last, now) <= accrued_reward(
            more_staked,
            higher_bps,
            last,
            later,
        ),
{
    let elapsed = now - last;
    let longer = later - last;
    assert(staked * bps * elapsed <= more_staked * higher_bps * longer) by (nonlinear_arith)
        requires
            0 <= staked <= more_staked,
            0 <= bps <= higher_bps,
            0 <= elapsed <= longer,
    ;
    assert(SECONDS_PER_YEAR * BASIS_POINTS == 315_360_000_000);
}

/// Rounding two quotients down loses less than one unit against rounding
/// their sum down, and gains nothing.
proof fn lemma_quotients_of_a_sum(x: int, y: int, d: int)
    by (nonlinear_arith)
    requires
        0 < d,
    ensures
        x / d + y / d <= (x + y) / d <= x / d + y / d + 1,
{
}

/// The yield is linear in time, up to rounding: settling in between never
/// gives more than settling once at the end, and gives at most one unit less.
pub proof fn lemma_reward_of_split_time(staked: u64, bps: u16, last: i64, between: i64, now: i64)
    requires
        last <= between <= now,
    ensures
        accrued_reward(staked, bps, last, between) + accrued_reward(staked, bps, between, now)
            <= accrued_reward(staked, bps, last, now),
        accrued_reward(staked, bps, last, now) <= accrued_reward(staked, bps, last, between)
            + accrued_reward(staked, bps, between, now) + 1,
{
    let yearly = staked * bps;
    let first = between - last;
    let second = now - between;
    assert(yearly * (now - last) == yearly * first + yearly * second) by (nonlinear_arith)
        requires
            now - last == first + second,
    ;
    lemma_quotients_of_a_sum(
        yearly * first,
        yearly * second,
        SECONDS_PER_YEAR as int * BASIS_POINTS as int,
    );
}

/// A yield that fits in 64 bits comes of a product that fits in 128.
proof fn lemma_fitting_reward_has_small_product(staked: u64, bps: u16, last: i64, now: i64)
    requires
        reward_fits(staked, bps, last, now),
    ensures
        0 <= staked * bps * (now - last) <= u128::MAX,
{
    lemma_reward_nonnegative(staked, bps, last, now);
    let product = staked * bps * (now - last);
    assert(product < 0x1_0000_0000_0000_0000 * 315_360_000_000) by (nonlinear_arith)
        requires
            product / 315_360_000_000 <= 0xffff_ffff_ffff_ffff,
    ;
}

/// The principal times the rate, which always fits in 128 bits.
fn yearly_product(staked_amount: u64, tier_apy_bps: u16) -> (yearly: u128)
    ensures
        yearly == staked_amount * tier_apy_bps,
{
    assert(staked_amount * tier_apy_bps <= 0xffff_ffff_ffff_ffff * 0xffff) by (nonlinear_arith)
        requires
            staked_amount <= 0xffff_ffff_ffff_ffff,
            tier_apy_bps <= 0xffff,
    ;
    staked_amount as u128 * tier_apy_bps as u128
}

/// The yield over the time from `last` to `now`, or nothing where it is not
/// defined or does not fit in 64 bits.
pub fn checked_rewards(staked_amount: u64, tier_apy_bps: u16, last: i64, now: i64) -> (r: Option<
    u64,
>)
    ensures
        r is Some <==> reward_fits(staked_amount, tier_apy_bps, last, now),
        r matches Some(reward) ==> reward == accrued_reward(staked_amount, tier_apy_bps, last, now),
{
    if now < last {
        return None;
    }
    let time_elapsed: u128 = (now as i128 - last as i128) as u128;
    let yearly: u128 = yearly_product(staked_amount, tier_apy_bps);
    proof {
        lemma_reward_nonnegative(staked_amount, tier_apy_bps, last, now);
        if reward_fits(staked_amount, tier_apy_bps, last, now) {
            lemma_fitting_reward_has_small_product(staked_amount, tier_apy_bps, last, now);
        }
    }
    match yearly.checked_mul(time_elapsed) {
        Some(product) => {
            proof {
                lemma_div_denominator(
                    product as int,
                    SECONDS_PER_YEAR as int,
                    BASIS_POINTS as int,
                );
            }
            let rewards: u128 = product / (SECONDS_PER_YEAR as u128) / (BASIS_POINTS as u128);
            if rewards <= u64::MAX as u128 {
                Some(rewards as u64)
            } else {
                None
            }
        },
        None => None,
    }
}

/// The yield of a principal at a yearly rate in basis points over the time
/// from `last_claim_timestamp` to `current_timestamp`.
pub fn calculate_rewards(
    staked_amount: u64,
    tier_apy_bps: u16,
    last_claim_timestamp: i64,
    current_timestamp: i64,
) -> (r: Result<u64, StakingError>)
    requires
        reward_fits(staked_amount, tier_apy_bps, last_claim_timestamp, current_timestamp),
    ensures
        r matches Ok(reward) && reward == accrued_reward(
            staked_amount,
            tier_apy_bps,
            last_claim_timestamp,
            current_timestamp,
        ),
{
    let time_elapsed: u128 = (current_timestamp as i128 - last_claim_timestamp as i128) as u128;
    let yearly: u128 = yearly_product(staked_amount, tier_apy_bps);
    proof {
        lemma_fitting_reward_has_small_product(
            staked_amount,
            tier_apy_bps,
            last_claim_timestamp,
            current_timestamp,
        );
        lemma_div_denominator(
            yearly * time_elapsed,
            SECONDS_PER_YEAR as int,
            BASIS_POINTS as int,
        );
    }
    let rewards: u128 = yearly * time_elapsed / (SECONDS_PER_YEAR as u128) / (BASIS_POINTS as u128);
    Ok(rewards as u64)
}

/// The whole days from `since` to `now`, rounded down.
pub open spec fn whole_days(since: i64, now: i64) -> int {
    (now - since) / (SECONDS_PER_DAY as int)
}

/// The penalty rate in basis points on a withdrawal at `now` from a position
/// whose last deposit was at `since`: 2% before 30 whole days have passed, 1%
/// before 90 have, nothing after that.
pub open spec fn penalty_bps(since: i64, now: i64) -> int {
    if whole_days(since, now) < FULL_PENALTY_DAYS {
        FULL_PENALTY_BPS as int
    } else if whole_days(since, now) < REDUCED_PENALTY_DAYS {
        REDUCED_PENALTY_BPS as int
    } else {
        0
    }
}

/// The penalty on withdrawing `amount` at `now` from a position whose last
/// deposit was at `since`: the amount times the penalty rate over 10,000,
/// rounded down.
pub open spec fn unstake_penalty(since: i64, now: i64, amount: u64) -> int {
    (amount * penalty_bps(since, now)) / (BASIS_POINTS as int)
}

/// No penalty is negative or more than what is withdrawn.
pub proof fn lemma_penalty_bounded(since: i64, now: i64, amount: u64)
    ensures
        0 <= unstake_penalty(since, now, amount) <= amount,
        amount == 0 ==> unstake_penalty(since, now, amount) == 0,
{
    let bps = penalty_bps(since, now);
    assert(0 <= amount * bps <= amount * 10_000) by (nonlinear_arith)
        requires
            0 <= bps <= 200,
    ;
    assert(amount == 0 ==> amount * bps == 0) by (nonlinear_arith);
}

/// The penalty decays: of two withdrawals of the same amount the later one
/// pays no more, and from 90 whole days after the deposit nothing is paid.
pub proof fn lemma_penalty_decays(since: i64, now: i64, later: i64, amount: u64)
    requires
        now <= later,
    ensures
        unstake_penalty(since, later, amount) <= unstake_penalty(since, now, amount),
        whole_days(since, now) >= REDUCED_PENALTY_DAYS ==> unstake_penalty(since, now, amount)
            == 0,
{
    let rate = penalty_bps(since, now);
    let later_rate = penalty_bps(since, later);
    assert(amount * later_rate <= amount * rate) by (nonlinear_arith)
        requires
            0 <= later_rate <= rate,
    ;
    assert(rate == 0 ==> amount * rate == 0) by (nonlinear_arith);
}

/// The penalty on withdrawing `amount` at `current_timestamp` from a position
/// whose last deposit was at `stake_timestamp`.
pub fn calculate_unstake_penalty(stake_timestamp: i64, current_timestamp: i64, amount: u64) -> (r:
    Result<u64, StakingError>)
    ensures
        r matches Ok(penalty) && penalty == unstake_penalty(
            stake_timestamp,
            current_timestamp,
            amount,
        ),
        r matches Ok(penalty) && penalty <= amount,
{
    let days_staked: i128 = (current_timestamp as i128 - stake_timestamp as i128)
        / SECONDS_PER_DAY as i128;
    let rate: u64 = if days_staked < FULL_PENALTY_DAYS as i128 {
        FULL_PENALTY_BPS
    } else if days_staked < REDUCED_PENALTY_DAYS as i128 {
        REDUCED_PENALTY_BPS
    } else {
        0
    };
    assert(amount * rate <= 0xffff_ffff_ffff_ffff * 200) by (nonlinear_arith)
        requires
            amount <= 0xffff_ffff_ffff_ffff,
            rate <= 200,
    ;
    proof {
        lemma_penalty_bounded(stake_timestamp, current_timestamp, amount);
    }
    let penalty: u128 = amount as u128 * rate as u128 / BASIS_POINTS as u128;
    Ok(penalty as u64)
}

} // verus!
