//! The pool as a whole: its state, its escrow and all stake records, and
//! what every sequence of operations keeps true of them.

use crate::account::{lemma_pending_nonnegative, ProgramState, RewardEscrow, UserStake};
use crate::accrual::lemma_penalty_bounded;
use crate::admin::{InitializeProgram, PauseProgram, UpdateAuthority};
use crate::escrow::FundEscrow;
use crate::identity::Identity;
use crate::reward::{ClaimRewards, CompoundRewards};
use crate::staking::{StakeTokens, UnstakeTokens};
use vstd::prelude::*;

verus! {

/// The sum of the principal of all the given stake records.
pub open spec fn total_principal(stakes: Map<Identity, UserStake>) -> int
    decreases stakes.dom().len(),
{
    if stakes.dom().finite() && stakes.dom().len() > 0 {
        let user = stakes.dom().choose();
        stakes[user].staked_amount + total_principal(stakes.remove(user))
    } else {
        0
    }
}

/// The sum of the principal is that of any one record plus the sum over the
/// others.
pub proof fn lemma_total_principal_remove(stakes: Map<Identity, UserStake>, user: Identity)
    requires
        stakes.dom().finite(),
        stakes.contains_key(user),
    ensures
        total_principal(stakes) == stakes[user].staked_amount + total_principal(
            stakes.remove(user),
        ),
    decreases stakes.dom().len(),
{
    let chosen = stakes.dom().choose();
    if chosen != user {
        lemma_total_principal_remove(stakes.remove(chosen), user);
        lemma_total_principal_remove(stakes.remove(user), chosen);
        assert(stakes.remove(chosen).remove(user) =~= stakes.remove(user).remove(chosen));
    }
}

/// Writing a record changes the sum of the principal by the difference
/// between the principal written and the one that the depositor had before,
/// which is 0 if there was no record.
pub proof fn lemma_total_principal_insert(
    stakes: Map<Identity, UserStake>,
    user: Identity,
    record: UserStake,
)
    requires
        stakes.dom().finite(),
    ensures
        total_principal(stakes.insert(user, record)) == total_principal(stakes)
            + record.staked_amount - (if stakes.contains_key(user) {
            stakes[user].staked_amount as int
        } else {
            0
        }),
{
    let written = stakes.insert(user, record);
    lemma_total_principal_remove(written, user);
    assert(written.remove(user) =~= stakes.remove(user));
    if stakes.contains_key(user) {
        lemma_total_principal_remove(stakes, user);
    } else {
        assert(stakes.remove(user) =~= stakes);
    }
}

/// The sum of the principal is not negative.
pub proof fn lemma_total_principal_nonnegative(stakes: Map<Identity, UserStake>)
    ensures
        0 <= total_principal(stakes),
    decreases stakes.dom().len(),
{
    if stakes.dom().finite() && stakes.dom().len() > 0 {
        lemma_total_principal_nonnegative(stakes.remove(stakes.dom().choose()));
    }
}

/// No record holds more than the sum of the principal.
pub proof fn lemma_record_within_total(stakes: Map<Identity, UserStake>, user: Identity)
    requires
        stakes.dom().finite(),
        stakes.contains_key(user),
    ensures
        stakes[user].staked_amount <= total_principal(stakes),
{
    lemma_total_principal_remove(stakes, user);
    lemma_total_principal_nonnegative(stakes.remove(user));
}

/// Everything that a pool records: its state, its escrow, and the stake
/// record of every depositor that has one.
pub struct Pool {
    pub state: ProgramState,
    pub escrow: RewardEscrow,
    pub stakes: Map<Identity, UserStake>,
}

/// An operation on a pool that has been set up, with the identities that
/// come with it: who signed, the mint presented, and who is named as owner
/// of the stake record.
pub enum Operation {
    FundEscrow { funder: Identity, mint: Identity, amount: u64 },
    Stake { user: Identity, mint: Identity, amount: u64 },
    Unstake { user: Identity, owner: Identity, mint: Identity, amount: u64 },
    Claim { user: Identity, owner: Identity, mint: Identity },
    Compound { user: Identity, owner: Identity },
    ProposeAuthority { signer: Identity, new_authority: Identity },
    AcceptAuthority { signer: Identity },
    SetPaused { signer: Identity, paused: bool },
}

impl Operation {
    /// Whether the operation is no deposit signed by the null identity.
    /// The null identity marks a stake record as not yet created, so a
    /// record that it owned would be created anew by each deposit.
    pub open spec fn signed(self) -> bool {
        self matches Operation::Stake { user, .. } ==> !user.is_null()
    }
}

impl Pool {
    /// A depositor's stake record, blank if there is none yet.
    pub open spec fn record(self, user: Identity) -> UserStake {
        if self.stakes.contains_key(user) {
            self.stakes[user]
        } else {
            UserStake::blank()
        }
    }

    /// What holds of the records of a pool at all times. No change of
    /// authority is under way without a time, and each stake record has the
    /// tier of its principal and has claimed no more than it earned.
    pub open spec fn sound(self) -> bool {
        &&& self.state.wf()
        &&& forall|user: Identity| #[trigger]
            self.stakes.contains_key(user) ==> self.stakes[user].wf()
    }

    /// What holds of a pool at all times, as long as the null identity
    /// deposits nothing. The records are sound and finitely many, each is
    /// kept under its owner, who is not the null identity; the pool's total
    /// is the sum of the principal of all records, and its count of records
    /// is their number.
    pub open spec fn consistent(self) -> bool {
        &&& self.sound()
        &&& self.stakes.dom().finite()
        &&& forall|user: Identity| #[trigger]
            self.stakes.contains_key(user) ==> !user.is_null() && self.stakes[user].owner == user
        &&& self.state.total_staked == total_principal(self.stakes)
        &&& self.state.total_users == self.stakes.dom().len()
    }

    /// What the pool's records say its two vaults hold together: all
    /// principal and the rewards that the escrow can pay.
    pub open spec fn owed(self) -> int {
        self.state.total_staked + self.escrow.total_balance
    }

    /// The accounts of a funding of the pool's escrow.
    pub open spec fn funding(self, funder: Identity, mint: Identity) -> FundEscrow {
        FundEscrow {
            program_state: self.state,
            reward_escrow: self.escrow,
            funder,
            defai_mint: mint,
        }
    }

    /// The accounts of a deposit by `user`.
    pub open spec fn deposit(self, user: Identity, mint: Identity) -> StakeTokens {
        StakeTokens {
            program_state: self.state,
            user_stake: self.record(user),
            defai_mint: mint,
            user,
        }
    }

    /// The accounts of a withdrawal by `user`.
    pub open spec fn withdrawal(self, user: Identity, owner: Identity, mint: Identity)
        -> UnstakeTokens {
        UnstakeTokens {
            program_state: self.state,
            user_stake: self.record(user),
            reward_escrow: self.escrow,
            defai_mint: mint,
            user,
            owner,
        }
    }

    /// The accounts of a claim by `user`.
    pub open spec fn claim(self, user: Identity, owner: Identity, mint: Identity) -> ClaimRewards {
        ClaimRewards {
            program_state: self.state,
            user_stake: self.record(user),
            reward_escrow: self.escrow,
            defai_mint: mint,
            user,
            owner,
        }
    }

    /// The accounts of a compounding by `user`.
    pub open spec fn compounding(self, user: Identity, owner: Identity) -> CompoundRewards {
        CompoundRewards {
            program_state: self.state,
            user_stake: self.record(user),
            reward_escrow: self.escrow,
            user,
            owner,
        }
    }

    /// Whether the operation, offered at `now`, changes the pool: it is not
    /// turned down and stays within 64 bits, and where it works on a stake
    /// record that a deposit must have created, the record is there.
    pub open spec fn takes(self, op: Operation, now: i64) -> bool {
        match op {
            Operation::FundEscrow { funder, mint, amount } => {
                &&& self.funding(funder, mint).rejection() is None
                &&& self.funding(funder, mint).in_range(amount)
            },
            Operation::Stake { user, mint, amount } => {
                &&& self.deposit(user, mint).rejection(amount) is None
                &&& self.deposit(user, mint).in_range(amount, now)
            },
            Operation::Unstake { user, owner, mint, amount } => {
                &&& self.stakes.contains_key(user)
                &&& self.withdrawal(user, owner, mint).rejection(amount, now) is None
                &&& self.withdrawal(user, owner, mint).in_range(amount, now)
            },
            Operation::Claim { user, owner, mint } => {
                &&& self.stakes.contains_key(user)
                &&& self.claim(user, owner, mint).rejection(now) is None
                &&& self.claim(user, owner, mint).in_range(now)
            },
            Operation::Compound { user, owner } => {
                &&& self.stakes.contains_key(user)
                &&& self.compounding(user, owner).rejection(now) is None
                &&& self.compounding(user, owner).in_range(now)
            },
            Operation::ProposeAuthority { signer, new_authority } => {
                let accounts = UpdateAuthority { program_state: self.state, authority: signer };
                accounts.proposal_rejection() is None && accounts.proposal_in_range(now)
            },
            Operation::AcceptAuthority { signer } => (UpdateAuthority {
                program_state: self.state,
                authority: signer,
            }).acceptance_rejection(now) is None,
            Operation::SetPaused { signer, paused } => (PauseProgram {
                program_state: self.state,
                authority: signer,
            }).rejection() is None,
        }
    }

    /// The pool after one operation is offered at `now`. An operation that
    /// is turned down, or that would not stay within 64 bits, leaves the
    /// pool as it was.
    pub open spec fn step(self, op: Operation, now: i64) -> Pool {
        if !self.takes(op, now) {
            self
        } else {
            match op {
                Operation::FundEscrow { funder, mint, amount } => Pool {
                    escrow: self.funding(funder, mint).applied(amount).reward_escrow,
                    ..self
                },
                Operation::Stake { user, mint, amount } => {
                    let after = self.deposit(user, mint).applied(amount, now);
                    Pool {
                        state: after.program_state,
                        stakes: self.stakes.insert(user, after.user_stake),
                        ..self
                    }
                },
                Operation::Unstake { user, owner, mint, amount } => {
                    let after = self.withdrawal(user, owner, mint).applied(amount, now);
                    Pool {
                        state: after.program_state,
                        escrow: after.reward_escrow,
                        stakes: self.stakes.insert(user, after.user_stake),
                    }
                },
                Operation::Claim { user, owner, mint } => {
                    let after = self.claim(user, owner, mint).applied(now);
                    Pool {
                        state: after.program_state,
                        escrow: after.reward_escrow,
                        stakes: self.stakes.insert(user, after.user_stake),
                    }
                },
                Operation::Compound { user, owner } => {
                    let after = self.compounding(user, owner).applied(now);
                    Pool {
                        state: after.program_state,
                        escrow: after.reward_escrow,
                        stakes: self.stakes.insert(user, after.user_stake),
                    }
                },
                Operation::ProposeAuthority { signer, new_authority } => Pool {
                    state: (UpdateAuthority {
                        program_state: self.state,
                        authority: signer,
                    }).proposed(new_authority, now).program_state,
                    ..self
                },
                Operation::AcceptAuthority { signer } => Pool {
                    state: (UpdateAuthority {
                        program_state: self.state,
                        authority: signer,
                    }).accepted().program_state,
                    ..self
                },
                Operation::SetPaused { signer, paused } => Pool {
                    state: (PauseProgram { program_state: self.state, authority: signer }).applied(
                        paused,
                    ).program_state,
                    ..self
                },
            }
        }
    }

    /// By how much the transfers that the operation orders change what the
    /// pool's two vaults hold together; 0 for an operation that does not
    /// change the pool.
    pub open spec fn net_inflow(self, op: Operation, now: i64) -> int {
        if !self.takes(op, now) {
            0
        } else {
            match op {
                Operation::FundEscrow { funder, mint, amount } => self.funding(
                    funder,
                    mint,
                ).deposit(amount).net_inflow(),
                Operation::Stake { user, mint, amount } => self.deposit(user, mint).deposit(
                    amount,
                ).net_inflow(),
                Operation::Unstake { user, owner, mint, amount } => {
                    let accounts = self.withdrawal(user, owner, mint);
                    accounts.payout(amount, now).net_inflow() + match accounts.forfeit(
                        amount,
                        now,
                    ) {
                        Some(forfeit) => forfeit.net_inflow(),
                        None => 0,
                    }
                },
                Operation::Claim { user, owner, mint } => self.claim(user, owner, mint).payout(
                    now,
                ).net_inflow(),
                _ => 0,
            }
        }
    }

    /// The pool after a sequence of operations, each offered at its own
    /// time.
    pub open spec fn run(self, ops: Seq<(Operation, i64)>) -> Pool
        decreases ops.len(),
    {
        if ops.len() == 0 {
            self
        } else {
            self.run(ops.drop_last()).step(ops.last().0, ops.last().1)
        }
    }

    /// By how much the transfers ordered in the course of a sequence of
    /// operations change what the pool's two vaults hold together.
    pub open spec fn run_net_inflow(self, ops: Seq<(Operation, i64)>) -> int
        decreases ops.len(),
    {
        if ops.len() == 0 {
            0
        } else {
            self.run_net_inflow(ops.drop_last()) + self.run(ops.drop_last()).net_inflow(
                ops.last().0,
                ops.last().1,
            )
        }
    }
}

/// A pool that has just been set up, with no stake records, is as
/// `Pool::consistent` says, and so as `Pool::sound` says, whatever its escrow
/// holds.
pub proof fn lemma_new_pool_consistent(
    accounts: InitializeProgram,
    defai_mint: Identity,
    escrow: RewardEscrow,
)
    ensures
        (Pool {
            state: accounts.initial_state(defai_mint),
            escrow,
            stakes: Map::<Identity, UserStake>::empty(),
        }).consistent(),
{
}

/// No operation breaks what `Pool::sound` says: after every operation each
/// stake record has the tier of its principal and has claimed no more than it
/// earned.
pub proof fn lemma_step_keeps_sound(pool: Pool, op: Operation, now: i64)
    requires
        pool.sound(),
    ensures
        pool.step(op, now).sound(),
{
    if pool.takes(op, now) {
        match op {
            Operation::Stake { user, .. } => {
                if !pool.record(user).is_new() {
                    lemma_pending_nonnegative(pool.record(user), now);
                }
            },
            Operation::Unstake { user, .. } => {
                lemma_pending_nonnegative(pool.record(user), now);
            },
            Operation::Claim { user, .. } => {
                lemma_pending_nonnegative(pool.record(user), now);
            },
            Operation::Compound { user, .. } => {
                lemma_pending_nonnegative(pool.record(user), now);
            },
            _ => {},
        }
    }
}

/// No operation breaks what `Pool::consistent` says, unless the null identity
/// makes a deposit: after every operation the pool's total is the sum of the
/// principal of all records, and its count of records is their number.
pub proof fn lemma_step_keeps_consistent(pool: Pool, op: Operation, now: i64)
    requires
        pool.consistent(),
        op.signed(),
    ensures
        pool.step(op, now).consistent(),
{
    lemma_step_keeps_sound(pool, op, now);
    if pool.takes(op, now) {
        match op {
            Operation::Stake { user, .. } => {
                lemma_total_principal_insert(pool.stakes, user, pool.step(op, now).stakes[user]);
            },
            Operation::Unstake { user, .. } => {
                lemma_total_principal_insert(pool.stakes, user, pool.step(op, now).stakes[user]);
            },
            Operation::Claim { user, .. } => {
                lemma_total_principal_insert(pool.stakes, user, pool.step(op, now).stakes[user]);
            },
            Operation::Compound { user, .. } => {
                lemma_total_principal_insert(pool.stakes, user, pool.step(op, now).stakes[user]);
            },
            _ => {},
        }
    }
}

/// No operation removes a stake record, changes its owner or the time of its
/// first deposit, or takes away from what it has earned or claimed, unless
/// the null identity makes a deposit.
pub proof fn lemma_step_keeps_history(pool: Pool, op: Operation, now: i64, user: Identity)
    requires
        pool.consistent(),
        op.signed(),
        pool.stakes.contains_key(user),
    ensures
        pool.step(op, now).stakes.contains_key(user),
        pool.step(op, now).stakes[user].owner == pool.stakes[user].owner,
        pool.step(op, now).stakes[user].stake_timestamp == pool.stakes[user].stake_timestamp,
        pool.step(op, now).stakes[user].rewards_earned >= pool.stakes[user].rewards_earned,
        pool.step(op, now).stakes[user].rewards_claimed >= pool.stakes[user].rewards_claimed,
{
    if pool.takes(op, now) {
        match op {
            Operation::Stake { user: depositor, .. } => {
                if depositor == user {
                    lemma_pending_nonnegative(pool.record(user), now);
                }
            },
            Operation::Unstake { user: depositor, .. } => {
                lemma_pending_nonnegative(pool.record(depositor), now);
            },
            Operation::Claim { user: depositor, .. } => {
                lemma_pending_nonnegative(pool.record(depositor), now);
            },
            Operation::Compound { user: depositor, .. } => {
                lemma_pending_nonnegative(pool.record(depositor), now);
            },
            _ => {},
        }
    }
}

/// No operation takes away from what the escrow has paid out, and none takes
/// more out of its balance than it adds to what has been paid out: the
/// balance pays for every reward and is never overdrawn.
pub proof fn lemma_step_pays_out_of_the_balance(pool: Pool, op: Operation, now: i64)
    ensures
        pool.step(op, now).escrow.total_distributed >= pool.escrow.total_distributed,
        pool.step(op, now).escrow.total_balance + pool.step(op, now).escrow.total_distributed
            >= pool.escrow.total_balance + pool.escrow.total_distributed,
{
    if pool.takes(op, now) {
        match op {
            Operation::Unstake { user, amount, .. } => {
                lemma_penalty_bounded(pool.record(user).last_stake_timestamp, now, amount);
            },
            Operation::Claim { user, .. } => {
                lemma_pending_nonnegative(pool.record(user), now);
            },
            Operation::Compound { user, .. } => {
                lemma_pending_nonnegative(pool.record(user), now);
            },
            _ => {},
        }
    }
}

/// No operation makes or loses tokens: what the records say the vaults hold
/// changes by exactly what the ordered transfers bring into the vaults or
/// take out of them. Rewards that are compounded pass from the escrow's
/// balance into the principal without a transfer.
pub proof fn lemma_step_conserves_tokens(pool: Pool, op: Operation, now: i64)
    ensures
        pool.step(op, now).owed() == pool.owed() + pool.net_inflow(op, now),
{
    match op {
        Operation::Unstake { user, owner, mint, amount } => {
            lemma_penalty_bounded(pool.record(user).last_stake_timestamp, now, amount);
        },
        Operation::Claim { user, owner, mint } => {
            if pool.takes(op, now) {
                lemma_pending_nonnegative(pool.record(user), now);
            }
        },
        Operation::Compound { user, owner } => {
            if pool.takes(op, now) {
                lemma_pending_nonnegative(pool.record(user), now);
            }
        },
        _ => {},
    }
}

/// No sequence of operations makes or loses tokens.
pub proof fn lemma_run_conserves_tokens(pool: Pool, ops: Seq<(Operation, i64)>)
    ensures
        pool.run(ops).owed() == pool.owed() + pool.run_net_inflow(ops),
    decreases ops.len(),
{
    if ops.len() > 0 {
        lemma_run_conserves_tokens(pool, ops.drop_last());
        lemma_step_conserves_tokens(pool.run(ops.drop_last()), ops.last().0, ops.last().1);
    }
}

/// No sequence of operations breaks what `Pool::sound` says.
pub proof fn lemma_run_keeps_sound(pool: Pool, ops: Seq<(Operation, i64)>)
    requires
        pool.sound(),
    ensures
        pool.run(ops).sound(),
    decreases ops.len(),
{
    if ops.len() > 0 {
        lemma_run_keeps_sound(pool, ops.drop_last());
        lemma_step_keeps_sound(pool.run(ops.drop_last()), ops.last().0, ops.last().1);
    }
}

/// No sequence of operations breaks what `Pool::consistent` says, unless the
/// null identity makes a deposit in it.
pub proof fn lemma_run_keeps_consistent(pool: Pool, ops: Seq<(Operation, i64)>)
    requires
        pool.consistent(),
        forall|i: int| 0 <= i < ops.len() ==> (#[trigger] ops[i]).0.signed(),
    ensures
        pool.run(ops).consistent(),
    decreases ops.len(),
{
    if ops.len() > 0 {
        lemma_run_keeps_consistent(pool, ops.drop_last());
        lemma_step_keeps_consistent(pool.run(ops.drop_last()), ops.last().0, ops.last().1);
    }
}

/// No sequence of operations removes a stake record, changes its owner or
/// the time of its first deposit, or takes away from what it has earned or
/// claimed, unless the null identity makes a deposit in it.
pub proof fn lemma_run_keeps_history(pool: Pool, ops: Seq<(Operation, i64)>, user: Identity)
    requires
        pool.consistent(),
        forall|i: int| 0 <= i < ops.len() ==> (#[trigger] ops[i]).0.signed(),
        pool.stakes.contains_key(user),
    ensures
        pool.run(ops).stakes.contains_key(user),
        pool.run(ops).stakes[user].owner == pool.stakes[user].owner,
        pool.run(ops).stakes[user].stake_timestamp == pool.stakes[user].stake_timestamp,
        pool.run(ops).stakes[user].rewards_earned >= pool.stakes[user].rewards_earned,
        pool.run(ops).stakes[user].rewards_claimed >= pool.stakes[user].rewards_claimed,
    decreases ops.len(),
{
    if ops.len() > 0 {
        lemma_run_keeps_history(pool, ops.drop_last(), user);
        lemma_run_keeps_consistent(pool, ops.drop_last());
        lemma_step_keeps_history(pool.run(ops.drop_last()), ops.last().0, ops.last().1, user);
    }
}

/// No sequence of operations takes away from what the escrow has paid out,
/// or takes more out of its balance than it adds to what has been paid out.
pub proof fn lemma_run_pays_out_of_the_balance(pool: Pool, ops: Seq<(Operation, i64)>)
    ensures
        pool.run(ops).escrow.total_distributed >= pool.escrow.total_distributed,
        pool.run(ops).escrow.total_balance + pool.run(ops).escrow.total_distributed
            >= pool.escrow.total_balance + pool.escrow.total_distributed,
    decreases ops.len(),
{
    if ops.len() > 0 {
        lemma_run_pays_out_of_the_balance(pool, ops.drop_last());
        lemma_step_pays_out_of_the_balance(pool.run(ops.drop_last()), ops.last().0, ops.last().1);
    }
}

} // verus!
