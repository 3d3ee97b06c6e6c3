use defai_staking::{
    claim_rewards, compound_rewards, fund_escrow, get_tier, initialize_escrow,
    initialize_program, pause_program, stake_tokens, unstake_tokens, ClaimRewards,
    CompoundRewards, FundEscrow, Holding, Identity, InitializeEscrow, InitializeProgram,
    PauseProgram, ProgramState, RewardEscrow, StakeTokens, Transfer, UnstakeTokens, UserStake,
    GOLD_MIN, SECONDS_PER_DAY,
};

const TOKEN: u64 = 1_000_000;

struct Dice(u64);

impl Dice {
    fn roll(&mut self, sides: u64) -> u64 {
        self.0 ^= self.0 << 13;
        self.0 ^= self.0 >> 7;
        self.0 ^= self.0 << 17;
        self.0 % sides
    }
}

struct World {
    state: ProgramState,
    escrow: RewardEscrow,
    records: Vec<UserStake>,
    // what the transfers have left in each vault
    stake_vault: i128,
    escrow_vault: i128,
    now: i64,
}

fn member(n: usize) -> Identity {
    Identity::new([n as u8 + 1; 32])
}

fn currency() -> Identity {
    Identity::new([100; 32])
}

fn governor() -> Identity {
    Identity::new([200; 32])
}

impl World {
    fn new(members: usize) -> World {
        let mut start = InitializeProgram {
            program_state: ProgramState::default(),
            authority: governor(),
            stake_vault_bump: 255,
        };
        initialize_program(&mut start, currency()).unwrap();
        let mut escrow = InitializeEscrow {
            program_state: start.program_state,
            program_state_key: Identity::new([50; 32]),
            reward_escrow: RewardEscrow::default(),
            authority: governor(),
            reward_escrow_bump: 254,
            escrow_vault_bump: 253,
        };
        initialize_escrow(&mut escrow).unwrap();
        World {
            state: escrow.program_state,
            escrow: escrow.reward_escrow,
            records: vec![UserStake::default(); members],
            stake_vault: 0,
            escrow_vault: 0,
            now: 1_700_000_000,
        }
    }

    fn carry_out(&mut self, transfer: Transfer) {
        let amount = transfer.amount as i128;
        match transfer.source {
            Holding::StakeVault => self.stake_vault -= amount,
            Holding::EscrowVault => self.escrow_vault -= amount,
            Holding::Funder | Holding::User => {}
        }
        match transfer.destination {
            Holding::StakeVault => self.stake_vault += amount,
            Holding::EscrowVault => self.escrow_vault += amount,
            Holding::Funder | Holding::User => {}
        }
    }

    fn assert_sound(&self, distributed_before: u64) {
        let mut principal = 0i128;
        for (n, record) in self.records.iter().enumerate() {
            principal += record.staked_amount as i128;
            assert_eq!(Ok(record.tier), get_tier(record.staked_amount));
            assert!(record.rewards_claimed <= record.rewards_earned);
            assert!(record.owner.is_default() || record.owner == member(n));
        }
        assert_eq!(self.state.total_staked as i128, principal);
        let created = self.records.iter().filter(|r| !r.owner.is_default()).count();
        assert_eq!(self.state.total_users, created as u64);
        assert!(self.escrow.total_distributed >= distributed_before);
        // what the records say is held is what the transfers have left in the two vaults
        assert_eq!(
            self.state.total_staked as i128 + self.escrow.total_balance as i128,
            self.stake_vault + self.escrow_vault
        );
    }
}

// Plays `rounds` operations at random, each at a later time than the one
// before. An operation that would leave 64 bits is not made at all. Returns
// how many operations succeeded, were turned down, and were not made.
fn play(seed: u64, rounds: usize) -> (u64, u64, u64) {
    let mut dice = Dice(seed);
    let mut world = World::new(4);
    let mut taken = 0u64;
    let mut refused = 0u64;
    let mut aborted = 0u64;
    for _ in 0..rounds {
        world.now += dice.roll(20 * SECONDS_PER_DAY as u64) as i64;
        let now = world.now;
        let who = dice.roll(4) as usize;
        let user = member(who);
        let distributed_before = world.escrow.total_distributed;
        let amount = match dice.roll(4) {
            0 => dice.roll(GOLD_MIN),
            1 => GOLD_MIN + dice.roll(200_000_000 * TOKEN),
            2 => world.records[who].staked_amount,
            _ => dice.roll(2_000_000_000 * TOKEN),
        };
        let ok = match dice.roll(7) {
            0 => {
                let mut accounts = FundEscrow {
                    program_state: world.state,
                    reward_escrow: world.escrow,
                    funder: user,
                    defai_mint: currency(),
                };
                if !accounts.check_range(amount) {
                    aborted += 1;
                    continue;
                }
                let result = fund_escrow(&mut accounts, amount);
                if let Ok((deposit, _)) = result {
                    world.carry_out(deposit);
                }
                world.escrow = accounts.reward_escrow;
                result.is_ok()
            }
            1 | 2 => {
                let mut accounts = StakeTokens {
                    program_state: world.state,
                    user_stake: world.records[who],
                    defai_mint: currency(),
                    user,
                };
                if !accounts.check_range(amount, now) {
                    aborted += 1;
                    continue;
                }
                let result = stake_tokens(&mut accounts, amount, now);
                if let Ok((deposit, _)) = result {
                    world.carry_out(deposit);
                }
                world.state = accounts.program_state;
                world.records[who] = accounts.user_stake;
                result.is_ok()
            }
            3 => {
                if world.records[who].owner.is_default() {
                    continue;
                }
                let mut accounts = UnstakeTokens {
                    program_state: world.state,
                    user_stake: world.records[who],
                    reward_escrow: world.escrow,
                    defai_mint: currency(),
                    user,
                    owner: user,
                };
                if !accounts.check_range(amount, now) {
                    aborted += 1;
                    continue;
                }
                let result = unstake_tokens(&mut accounts, amount, now);
                if let Ok((payout, forfeit, event)) = result {
                    assert_eq!(payout.amount + event.penalty, amount);
                    world.carry_out(payout);
                    if let Some(forfeit) = forfeit {
                        world.carry_out(forfeit);
                    }
                }
                world.state = accounts.program_state;
                world.escrow = accounts.reward_escrow;
                world.records[who] = accounts.user_stake;
                result.is_ok()
            }
            4 => {
                if world.records[who].owner.is_default() {
                    continue;
                }
                let mut accounts = ClaimRewards {
                    program_state: world.state,
                    user_stake: world.records[who],
                    reward_escrow: world.escrow,
                    defai_mint: currency(),
                    user,
                    owner: user,
                };
                if !accounts.check_range(now) {
                    aborted += 1;
                    continue;
                }
                let result = claim_rewards(&mut accounts, now);
                if let Ok((payout, _)) = result {
                    world.carry_out(payout);
                }
                world.escrow = accounts.reward_escrow;
                world.records[who] = accounts.user_stake;
                result.is_ok()
            }
            5 => {
                if world.records[who].owner.is_default() {
                    continue;
                }
                let mut accounts = CompoundRewards {
                    program_state: world.state,
                    user_stake: world.records[who],
                    reward_escrow: world.escrow,
                    user,
                    owner: user,
                };
                if !accounts.check_range(now) {
                    aborted += 1;
                    continue;
                }
                let result = compound_rewards(&mut accounts, now);
                world.state = accounts.program_state;
                world.escrow = accounts.reward_escrow;
                world.records[who] = accounts.user_stake;
                result.is_ok()
            }
            _ => {
                let signer = if dice.roll(3) == 0 { user } else { governor() };
                let mut accounts = PauseProgram { program_state: world.state, authority: signer };
                let result = pause_program(&mut accounts, dice.roll(5) == 0, now);
                world.state = accounts.program_state;
                result.is_ok()
            }
        };
        if ok {
            taken += 1;
        } else {
            refused += 1;
        }
        world.assert_sound(distributed_before);
    }
    (taken, refused, aborted)
}

#[test]
fn long_runs_keep_the_books_balanced() {
    let mut taken = 0;
    let mut refused = 0;
    let mut aborted = 0;
    for seed in 1..=20u64 {
        let (t, r, a) = play(seed.wrapping_mul(0x9e37_79b9_7f4a_7c15), 2_000);
        taken += t;
        refused += r;
        aborted += a;
    }
    println!("{taken} taken, {refused} turned down, {aborted} not made");
    // the runs are no idle ones: operations both succeed and are turned down
    assert!(taken > 5_000);
    assert!(refused > 5_000);
}
