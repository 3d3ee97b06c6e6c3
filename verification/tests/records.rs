use defai_staking::{
    stake_tokens, Identity, ProgramState, StakeTokens, UserStake, GOLD_MIN, INFINITE_MIN,
    SECONDS_PER_YEAR, TITANIUM_MIN,
};

const YEAR: i64 = SECONDS_PER_YEAR as i64;

fn holder(n: u8) -> Identity {
    Identity::new([n; 32])
}

fn record(staked_amount: u64, tier: u8, last_claim_timestamp: i64) -> UserStake {
    UserStake {
        owner: holder(1),
        staked_amount,
        rewards_earned: 0,
        rewards_claimed: 0,
        tier,
        stake_timestamp: 0,
        last_stake_timestamp: 0,
        last_claim_timestamp,
        locked_until: 0,
    }
}

#[test]
fn pending_rewards_follow_the_rate_of_the_tier() {
    // one year: 50, 75 and 100 basis points of the principal
    assert_eq!(record(GOLD_MIN, 1, 0).pending_rewards(YEAR), Ok(GOLD_MIN / 200));
    assert_eq!(record(TITANIUM_MIN, 2, 0).pending_rewards(YEAR), Ok(TITANIUM_MIN / 400 * 3));
    assert_eq!(record(INFINITE_MIN, 3, 0).pending_rewards(YEAR), Ok(INFINITE_MIN / 100));
}

#[test]
fn pending_rewards_go_by_the_principal_not_the_stored_tier() {
    assert_eq!(record(TITANIUM_MIN, 0, 0).pending_rewards(YEAR), Ok(TITANIUM_MIN / 400 * 3));
    assert_eq!(record(GOLD_MIN, 3, 0).pending_rewards(YEAR), Ok(GOLD_MIN / 200));
}

#[test]
fn pending_rewards_count_from_the_last_settlement() {
    assert_eq!(record(GOLD_MIN, 1, YEAR).pending_rewards(YEAR), Ok(0));
    assert_eq!(record(GOLD_MIN, 1, YEAR).pending_rewards(YEAR + 1), Ok(1_585));
    assert_eq!(record(GOLD_MIN, 1, YEAR).pending_rewards(3 * YEAR), Ok(GOLD_MIN / 100));
}

#[test]
fn empty_record_accrues_nothing() {
    assert_eq!(record(0, 0, 0).pending_rewards(10 * YEAR), Ok(0));
    assert_eq!(UserStake::default().pending_rewards(i64::MAX), Ok(0));
    // time behind the last settlement does not matter where nothing accrues
    assert!(record(0, 0, 100).check_settles_at(0));
    assert_eq!(record(0, 0, 100).pending_rewards(0), Ok(0));
}

#[test]
fn principal_below_gold_accrues_nothing() {
    assert_eq!(record(1, 0, 0).pending_rewards(YEAR), Ok(0));
    assert_eq!(record(5_000_000_000_000, 0, 0).pending_rewards(YEAR), Ok(0));
    assert_eq!(record(GOLD_MIN - 1, 0, 0).pending_rewards(100 * YEAR), Ok(0));
    assert_eq!(record(GOLD_MIN, 1, 0).pending_rewards(100 * YEAR), Ok(GOLD_MIN / 2));
    // it settles at any time, also one behind the last settlement
    assert!(record(GOLD_MIN - 1, 0, 0).check_settles_at(YEAR));
    assert!(record(GOLD_MIN - 1, 0, 100).check_settles_at(0));
    let mut kept = record(GOLD_MIN - 1, 0, 0);
    kept.rewards_earned = u64::MAX;
    assert_eq!(kept.checked_earned_by(YEAR), Some(u64::MAX));
}

#[test]
fn earnings_up_to_a_time_add_what_is_pending() {
    let mut earning = record(GOLD_MIN, 1, 0);
    earning.rewards_earned = 7;
    assert_eq!(earning.checked_earned_by(0), Some(7));
    assert_eq!(earning.checked_earned_by(1), Some(7 + 1_585));
    assert_eq!(earning.checked_earned_by(YEAR), Some(7 + GOLD_MIN / 200));
    assert_eq!(earning.checked_earned_by(-1), None);
    earning.rewards_earned = u64::MAX - 1_585;
    assert_eq!(earning.checked_earned_by(1), Some(u64::MAX));
    earning.rewards_earned = u64::MAX - 1_584;
    assert_eq!(earning.checked_earned_by(1), None);
    assert_eq!(UserStake::default().checked_earned_by(i64::MIN), Some(0));
}

#[test]
fn settlement_needs_time_to_go_forward() {
    assert!(record(GOLD_MIN, 1, 100).check_settles_at(100));
    assert!(record(GOLD_MIN, 1, 100).check_settles_at(101));
    assert!(!record(GOLD_MIN, 1, 100).check_settles_at(99));
    // the span may be long, as long as the rewards of it fit in 64 bits
    assert!(record(GOLD_MIN, 1, -5_000_000_000_000_000).check_settles_at(5_000_000_000_000_000));
    assert!(!record(GOLD_MIN, 1, -6_000_000_000_000_000).check_settles_at(6_000_000_000_000_000));
    assert!(!record(GOLD_MIN, 1, i64::MIN).check_settles_at(i64::MAX));
}

#[test]
fn settlement_needs_the_rewards_to_fit() {
    let mut rich = record(GOLD_MIN, 1, 0);
    rich.rewards_earned = u64::MAX - 1_585;
    assert!(rich.check_settles_at(1));
    assert_eq!(rich.pending_rewards(1), Ok(1_585));
    rich.rewards_earned = u64::MAX - 1_584;
    assert!(!rich.check_settles_at(1));
    // 100 basis points a year on the largest principal, for two hundred years
    assert!(!record(u64::MAX, 3, 0).check_settles_at(200 * YEAR));
    assert!(record(u64::MAX, 3, 0).check_settles_at(100 * YEAR));
    assert_eq!(record(u64::MAX, 3, 0).pending_rewards(100 * YEAR), Ok(u64::MAX));
}

#[test]
fn deposit_by_the_null_identity_starts_over() {
    let null = Identity::default();
    let mut state = ProgramState::default();
    state.defai_mint = holder(100);
    let mut accounts = StakeTokens {
        program_state: state,
        user_stake: UserStake::default(),
        defai_mint: holder(100),
        user: null,
    };
    stake_tokens(&mut accounts, GOLD_MIN, 0).unwrap();
    assert!(accounts.user_stake.owner.is_default());
    assert_eq!(accounts.user_stake.staked_amount, GOLD_MIN);
    // the record still counts as not created, so the next deposit replaces it
    stake_tokens(&mut accounts, TITANIUM_MIN, YEAR).unwrap();
    assert_eq!(accounts.user_stake.staked_amount, TITANIUM_MIN);
    assert_eq!(accounts.user_stake.rewards_earned, 0);
    assert_eq!(accounts.user_stake.stake_timestamp, YEAR);
    assert_eq!(accounts.program_state.total_users, 2);
    assert_eq!(accounts.program_state.total_staked, GOLD_MIN + TITANIUM_MIN);
}

#[test]
fn deposit_goes_to_the_record_whoever_owns_it() {
    let mut state = ProgramState::default();
    state.defai_mint = holder(100);
    let mut accounts = StakeTokens {
        program_state: state,
        user_stake: record(GOLD_MIN, 1, 0),
        defai_mint: holder(100),
        user: holder(2),
    };
    let (_, event) = stake_tokens(&mut accounts, GOLD_MIN, 0).unwrap();
    assert_eq!(event.user, holder(2));
    assert_eq!(accounts.user_stake.owner, holder(1));
    assert_eq!(accounts.user_stake.staked_amount, 2 * GOLD_MIN);
    assert_eq!(accounts.program_state.total_users, 0);
}
