use defai_staking::{
    calculate_rewards, calculate_unstake_penalty, checked_rewards, get_tier, get_tier_apy,
    Identity, StakingError, BASIS_POINTS, GOLD_APY_BPS, GOLD_MIN, INFINITE_APY_BPS, INFINITE_MIN,
    SECONDS_PER_DAY, SECONDS_PER_YEAR, TITANIUM_APY_BPS, TITANIUM_MIN,
};

const TOKEN: u64 = 1_000_000;

#[test]
fn thresholds_are_whole_token_amounts() {
    assert_eq!(GOLD_MIN, 10_000_000 * TOKEN);
    assert_eq!(TITANIUM_MIN, 100_000_000 * TOKEN);
    assert_eq!(INFINITE_MIN, 1_000_000_000 * TOKEN);
    assert_eq!(SECONDS_PER_YEAR, 365 * 24 * 60 * 60);
    assert_eq!(BASIS_POINTS, 10_000);
    assert_eq!(SECONDS_PER_DAY, 24 * 60 * 60);
}

#[test]
fn tier_is_zero_below_gold() {
    assert_eq!(get_tier(0), Ok(0));
    assert_eq!(get_tier(1), Ok(0));
    assert_eq!(get_tier(GOLD_MIN - 1), Ok(0));
}

#[test]
fn tier_intervals_are_half_open() {
    assert_eq!(get_tier(GOLD_MIN), Ok(1));
    assert_eq!(get_tier(TITANIUM_MIN - 1), Ok(1));
    assert_eq!(get_tier(TITANIUM_MIN), Ok(2));
    assert_eq!(get_tier(INFINITE_MIN - 1), Ok(2));
    assert_eq!(get_tier(INFINITE_MIN), Ok(3));
    assert_eq!(get_tier(u64::MAX), Ok(3));
}

#[test]
fn rate_follows_tier() {
    assert_eq!(get_tier_apy(GOLD_MIN), Ok(50));
    assert_eq!(get_tier_apy(TITANIUM_MIN - 1), Ok(GOLD_APY_BPS));
    assert_eq!(get_tier_apy(TITANIUM_MIN), Ok(75));
    assert_eq!(get_tier_apy(INFINITE_MIN - 1), Ok(TITANIUM_APY_BPS));
    assert_eq!(get_tier_apy(INFINITE_MIN), Ok(100));
    assert_eq!(get_tier_apy(u64::MAX), Ok(INFINITE_APY_BPS));
}

#[test]
fn rate_lookup_fails_below_gold() {
    assert_eq!(get_tier_apy(0), Err(StakingError::AmountTooLow));
    assert_eq!(get_tier_apy(GOLD_MIN - 1), Err(StakingError::AmountTooLow));
}

#[test]
fn one_year_of_gold_yield() {
    let year = SECONDS_PER_YEAR as i64;
    assert_eq!(calculate_rewards(50_000_000 * TOKEN, 50, 0, year), Ok(250_000 * TOKEN));
}

#[test]
fn yield_is_linear_in_time() {
    let year = SECONDS_PER_YEAR as i64;
    assert_eq!(calculate_rewards(100_000_000 * TOKEN, 75, 0, year), Ok(750_000 * TOKEN));
    assert_eq!(calculate_rewards(100_000_000 * TOKEN, 75, 0, 2 * year), Ok(1_500_000 * TOKEN));
    assert_eq!(calculate_rewards(100_000_000 * TOKEN, 75, year, 2 * year), Ok(750_000 * TOKEN));
    assert_eq!(calculate_rewards(100_000_000 * TOKEN, 75, 0, year / 2), Ok(375_000 * TOKEN));
}

#[test]
fn yield_rounds_down() {
    // 10^13 * 50 * 1 / 315_360_000_000 = 1585.48...
    assert_eq!(calculate_rewards(GOLD_MIN, 50, 0, 1), Ok(1_585));
    // 7 * 100 * 3 / 315_360_000_000 is below one unit
    assert_eq!(calculate_rewards(7, 100, 10, 13), Ok(0));
    assert_eq!(calculate_rewards(315_360_000_000, 1, 0, 1), Ok(1));
    assert_eq!(calculate_rewards(315_359_999_999, 1, 0, 1), Ok(0));
}

#[test]
fn no_time_no_yield() {
    assert_eq!(calculate_rewards(INFINITE_MIN, 100, 1_700_000_000, 1_700_000_000), Ok(0));
    assert_eq!(calculate_rewards(0, 100, 0, 1_000_000), Ok(0));
    assert_eq!(calculate_rewards(INFINITE_MIN, 0, 0, 1_000_000), Ok(0));
}

#[test]
fn yield_before_negative_time_origin() {
    assert_eq!(calculate_rewards(GOLD_MIN, 50, -10, -9), Ok(1_585));
    assert_eq!(calculate_rewards(GOLD_MIN, 50, -1, 1), Ok(3_170));
}

#[test]
fn checked_yield_agrees_where_defined() {
    let year = SECONDS_PER_YEAR as i64;
    assert_eq!(checked_rewards(50_000_000 * TOKEN, 50, 0, year), Some(250_000 * TOKEN));
    assert_eq!(checked_rewards(GOLD_MIN, 50, 0, 1), Some(1_585));
    assert_eq!(checked_rewards(GOLD_MIN, 50, 5, 5), Some(0));
}

#[test]
fn checked_yield_refuses_time_running_back() {
    assert_eq!(checked_rewards(GOLD_MIN, 50, 1, 0), None);
    assert_eq!(checked_rewards(0, 0, i64::MAX, i64::MIN), None);
}

#[test]
fn checked_yield_refuses_what_does_not_fit() {
    // u64::MAX * 65535 * (2^64 - 1) does not fit in 128 bits
    assert_eq!(checked_rewards(u64::MAX, u16::MAX, i64::MIN, i64::MAX), None);
    // fits in 128 bits, but the yield is above u64::MAX
    assert_eq!(checked_rewards(u64::MAX, 10_000, 0, 2 * SECONDS_PER_YEAR as i64), None);
    // the yield of a whole year at 100% is the principal itself
    assert_eq!(checked_rewards(u64::MAX, 10_000, 0, SECONDS_PER_YEAR as i64), Some(u64::MAX));
}

#[test]
fn penalty_is_two_percent_before_thirty_days() {
    assert_eq!(calculate_unstake_penalty(0, 0, 1_000_000), Ok(20_000));
    assert_eq!(calculate_unstake_penalty(0, 7 * SECONDS_PER_DAY, 1_000_000), Ok(20_000));
    assert_eq!(calculate_unstake_penalty(0, 30 * SECONDS_PER_DAY - 1, 1_000_000), Ok(20_000));
}

#[test]
fn penalty_is_one_percent_from_thirty_days() {
    assert_eq!(calculate_unstake_penalty(0, 30 * SECONDS_PER_DAY, 1_000_000), Ok(10_000));
    assert_eq!(calculate_unstake_penalty(0, 90 * SECONDS_PER_DAY - 1, 1_000_000), Ok(10_000));
}

#[test]
fn no_penalty_from_ninety_days() {
    assert_eq!(calculate_unstake_penalty(0, 90 * SECONDS_PER_DAY, 1_000_000), Ok(0));
    assert_eq!(calculate_unstake_penalty(0, i64::MAX, u64::MAX), Ok(0));
}

#[test]
fn penalty_counts_from_the_given_time() {
    let start = 1_700_000_000;
    assert_eq!(calculate_unstake_penalty(start, start + 29 * SECONDS_PER_DAY, 500), Ok(10));
    assert_eq!(calculate_unstake_penalty(start, start + 30 * SECONDS_PER_DAY, 500), Ok(5));
    assert_eq!(calculate_unstake_penalty(start, start + 90 * SECONDS_PER_DAY, 500), Ok(0));
}

#[test]
fn penalty_rounds_down() {
    assert_eq!(calculate_unstake_penalty(0, 0, 49), Ok(0));
    assert_eq!(calculate_unstake_penalty(0, 0, 50), Ok(1));
    assert_eq!(calculate_unstake_penalty(0, 0, 99), Ok(1));
    assert_eq!(calculate_unstake_penalty(0, 30 * SECONDS_PER_DAY, 99), Ok(0));
    assert_eq!(calculate_unstake_penalty(0, 30 * SECONDS_PER_DAY, 199), Ok(1));
    assert_eq!(calculate_unstake_penalty(0, 0, 0), Ok(0));
}

#[test]
fn penalty_of_the_largest_amount() {
    // floor((2^64 - 1) * 200 / 10_000)
    assert_eq!(calculate_unstake_penalty(0, 0, u64::MAX), Ok(368_934_881_474_191_032));
}

#[test]
fn penalty_is_full_when_the_deposit_lies_ahead() {
    assert_eq!(calculate_unstake_penalty(100, 0, 1_000_000), Ok(20_000));
    assert_eq!(calculate_unstake_penalty(i64::MAX, i64::MIN, 1_000_000), Ok(20_000));
}

#[test]
fn null_identity_is_the_default() {
    let null = Identity::default();
    assert_eq!(null.bytes, [0u8; 32]);
    assert!(null.is_default());
    assert_eq!(null, Identity::new([0u8; 32]));
}

#[test]
fn identities_compare_by_their_bytes() {
    let mut bytes = [0u8; 32];
    bytes[31] = 1;
    let last = Identity::new(bytes);
    assert!(!last.is_default());
    assert_ne!(last, Identity::default());
    assert_eq!(last, Identity { bytes });
    let mut other = bytes;
    other[0] = 1;
    assert_ne!(last, Identity::new(other));
    assert_eq!(Identity::new([7u8; 32]), Identity::new([7u8; 32]));
}
