//! Setting the pool up, pausing it, and handing its authority over.

use crate::account::ProgramState;
use crate::error::StakingError;
use crate::event::{AuthorityUpdatedEvent, ProgramPausedEvent};
use crate::identity::Identity;
use crate::params::ADMIN_TIMELOCK_DURATION;
use vstd::prelude::*;

verus! {

/// The accounts of setting up the pool.
#[derive(Clone, Copy, Debug, PartialEq, Eq)]
pub struct InitializeProgram {
    /// The pool state, blank so far.
    pub program_state: ProgramState,
    /// Who signed, and becomes the pool's authority.
    pub authority: Identity,
    /// Address bump found for the stake vault.
    pub stake_vault_bump: u8,
}

impl InitializeProgram {
    /// The state of a pool that has just been set up for the token
    /// `defai_mint`: the signer is its authority, nothing is staked, nobody
    /// has a record, it is not paused, and no change of authority is under
    /// way. The bumps of the escrow stay 0 until the escrow is set up.
    pub open spec fn initial_state(self, defai_mint: Identity) -> ProgramState {
        ProgramState {
            authority: self.authority,
            defai_mint,
            total_staked: 0,
            total_users: 0,
            paused: false,
            vault_bump: self.stake_vault_bump,
            reward_escrow_bump: 0,
            escrow_vault_bump: 0,
            pending_authority: None,
            authority_change_timestamp: 0,
        }
    }

    /// The accounts after the pool is set up for the token `defai_mint`.
    pub open spec fn applied(self, defai_mint: Identity) -> InitializeProgram {
        InitializeProgram { program_state: self.initial_state(defai_mint), ..self }
    }
}

/// Sets up a pool for the token `defai_mint`, with the signer as its
/// authority.
pub fn initialize_program(ctx: &mut InitializeProgram, defai_mint: Identity) -> (r: Result<
    (),
    StakingError,
>)
    ensures
        r == Ok::<(), StakingError>(()),
        *final(ctx) == old(ctx).applied(defai_mint),
        final(ctx).program_state.wf(),
{
    ctx.program_state.authority = ctx.authority;
    ctx.program_state.defai_mint = defai_mint;
    ctx.program_state.total_staked = 0;
    ctx.program_state.total_users = 0;
    ctx.program_state.paused = false;
    ctx.program_state.vault_bump = ctx.stake_vault_bump;
    ctx.program_state.reward_escrow_bump = 0;
    ctx.program_state.escrow_vault_bump = 0;
    ctx.program_state.pending_authority = None;
    ctx.program_state.authority_change_timestamp = 0;
    Ok(())
}

/// The accounts of proposing or accepting a change of authority.
#[derive(Clone, Copy, Debug, PartialEq, Eq)]
pub struct UpdateAuthority {
    pub program_state: ProgramState,
    /// Who signed.
    pub authority: Identity,
}

impl UpdateAuthority {
    /// Whether the signer is the pool's authority.
    pub open spec fn authorized(self) -> bool {
        self.authority == self.program_state.authority
    }

    /// Why a proposal is turned down, if it is: the signer is not the pool's
    /// authority.
    pub open spec fn proposal_rejection(self) -> Option<StakingError> {
        if !self.authorized() {
            Some(StakingError::InvalidAuthority)
        } else {
            None
        }
    }

    /// Whether the time from which a proposal made at `now` can be accepted
    /// fits in 64 bits.
    pub open spec fn proposal_in_range(self, now: i64) -> bool {
        self.proposal_rejection() is None ==> now + ADMIN_TIMELOCK_DURATION <= i64::MAX
    }

    /// The accounts after `new_authority` is proposed at `now`: the proposal
    /// replaces any earlier one and can be accepted 48 hours from `now`.
    pub open spec fn proposed(self, new_authority: Identity, now: i64) -> UpdateAuthority {
        UpdateAuthority {
            program_state: ProgramState {
                pending_authority: Some(new_authority),
                authority_change_timestamp: (now + ADMIN_TIMELOCK_DURATION) as i64,
                ..self.program_state
            },
            ..self
        }
    }

    /// The notification of a proposal of `new_authority` at `now`.
    pub open spec fn proposal_event(self, new_authority: Identity, now: i64)
        -> AuthorityUpdatedEvent {
        AuthorityUpdatedEvent {
            old_authority: self.program_state.authority,
            new_authority,
            timestamp: now,
        }
    }

    /// Why an acceptance at `now` is turned down, if it is. The first of
    /// these that holds decides: the signer is not the pool's authority;
    /// nothing is proposed; the timelock has not run out.
    pub open spec fn acceptance_rejection(self, now: i64) -> Option<StakingError> {
        if !self.authorized() {
            Some(StakingError::InvalidAuthority)
        } else if self.program_state.pending_authority is None {
            Some(StakingError::NoPendingAuthorityChange)
        } else if now < self.program_state.authority_change_timestamp {
            Some(StakingError::TimelockNotExpired)
        } else {
            None
        }
    }

    /// The accounts after the proposal is accepted: the proposed authority is
    /// the pool's authority, and no change is under way.
    pub open spec fn accepted(self) -> UpdateAuthority {
        UpdateAuthority {
            program_state: ProgramState {
                authority: self.program_state.pending_authority->0,
                pending_authority: None,
                authority_change_timestamp: 0,
                ..self.program_state
            },
            ..self
        }
    }

    /// The notification of an acceptance at `now`.
    pub open spec fn acceptance_event(self, now: i64) -> AuthorityUpdatedEvent {
        AuthorityUpdatedEvent {
            old_authority: self.program_state.authority,
            new_authority: self.program_state.pending_authority->0,
            timestamp: now,
        }
    }

    /// Tests `proposal_in_range`.
    pub fn check_proposal_range(&self, now: i64) -> (ok: bool)
        ensures
            ok == self.proposal_in_range(now),
    {
        self.authority != self.program_state.authority || now <= i64::MAX
            - ADMIN_TIMELOCK_DURATION
    }
}

/// Proposes `new_authority` as the pool's authority at time `now`. Only the
/// authority may. The proposal replaces any earlier one and can be accepted
/// once 48 hours have passed. Returns the notification.
pub fn propose_authority_change(ctx: &mut UpdateAuthority, new_authority: Identity, now: i64) -> (r:
    Result<AuthorityUpdatedEvent, StakingError>)
    requires
        old(ctx).proposal_in_range(now),
    ensures
        match old(ctx).proposal_rejection() {
            Some(e) => r == Err::<AuthorityUpdatedEvent, StakingError>(e)
                && *final(ctx) == *old(ctx),
            None => r == Ok::<AuthorityUpdatedEvent, StakingError>(
                old(ctx).proposal_event(new_authority, now),
            ) && *final(ctx) == old(ctx).proposed(new_authority, now),
        },
        r is Ok ==> {
            &&& final(ctx).program_state.authority == old(ctx).program_state.authority
            &&& final(ctx).program_state.authority_change_timestamp == now
                + ADMIN_TIMELOCK_DURATION
        },
        old(ctx).program_state.wf() ==> final(ctx).program_state.wf(),
{
    if ctx.authority != ctx.program_state.authority {
        return Err(StakingError::InvalidAuthority);
    }
    ctx.program_state.pending_authority = Some(new_authority);
    ctx.program_state.authority_change_timestamp = now + ADMIN_TIMELOCK_DURATION;
    Ok(
        AuthorityUpdatedEvent {
            old_authority: ctx.program_state.authority,
            new_authority,
            timestamp: now,
        },
    )
}

/// Accepts at time `now` the authority that was proposed. Only the present
/// authority may, and only once the timelock has run out; the proposed
/// authority then replaces it. Returns the notification.
pub fn accept_authority_change(ctx: &mut UpdateAuthority, now: i64) -> (r: Result<
    AuthorityUpdatedEvent,
    StakingError,
>)
    ensures
        match old(ctx).acceptance_rejection(now) {
            Some(e) => r == Err::<AuthorityUpdatedEvent, StakingError>(e)
                && *final(ctx) == *old(ctx),
            None => r == Ok::<AuthorityUpdatedEvent, StakingError>(old(ctx).acceptance_event(now))
                && *final(ctx) == old(ctx).accepted(),
        },
        r is Ok ==> final(ctx).program_state.wf(),
        old(ctx).program_state.wf() ==> final(ctx).program_state.wf(),
{
    if ctx.authority != ctx.program_state.authority {
        return Err(StakingError::InvalidAuthority);
    }
    let new_authority = match ctx.program_state.pending_authority {
        Some(pending) => pending,
        None => {
            return Err(StakingError::NoPendingAuthorityChange);
        },
    };
    if now < ctx.program_state.authority_change_timestamp {
        return Err(StakingError::TimelockNotExpired);
    }
    let old_authority = ctx.program_state.authority;
    ctx.program_state.authority = new_authority;
    ctx.program_state.pending_authority = None;
    ctx.program_state.authority_change_timestamp = 0;
    Ok(AuthorityUpdatedEvent { old_authority, new_authority, timestamp: now })
}

/// The accounts of pausing or resuming the pool.
#[derive(Clone, Copy, Debug, PartialEq, Eq)]
pub struct PauseProgram {
    pub program_state: ProgramState,
    /// Who signed.
    pub authority: Identity,
}

impl PauseProgram {
    /// Why pausing or resuming is turned down, if it is: the signer is not
    /// the pool's authority.
    pub open spec fn rejection(self) -> Option<StakingError> {
        if self.authority != self.program_state.authority {
            Some(StakingError::InvalidAuthority)
        } else {
            None
        }
    }

    /// The accounts after the pool is paused, or resumed.
    pub open spec fn applied(self, paused: bool) -> PauseProgram {
        PauseProgram { program_state: ProgramState { paused, ..self.program_state }, ..self }
    }

    /// The notification of pausing, or resuming, at `now`.
    pub open spec fn event(self, paused: bool, now: i64) -> ProgramPausedEvent {
        ProgramPausedEvent { authority: self.authority, paused, timestamp: now }
    }
}

/// Pauses the pool, or resumes it, at time `now`. Only the authority may.
/// While the pool is paused nothing can be deposited, withdrawn, claimed,
/// compounded or added to the escrow; the authority can still be handed
/// over. Returns the notification.
pub fn pause_program(ctx: &mut PauseProgram, paused: bool, now: i64) -> (r: Result<
    ProgramPausedEvent,
    StakingError,
>)
    ensures
        match old(ctx).rejection() {
            Some(e) => r == Err::<ProgramPausedEvent, StakingError>(e) && *final(ctx) == *old(ctx),
            None => r == Ok::<ProgramPausedEvent, StakingError>(old(ctx).event(paused, now))
                && *final(ctx) == old(ctx).applied(paused),
        },
        old(ctx).program_state.wf() ==> final(ctx).program_state.wf(),
{
    if ctx.authority != ctx.program_state.authority {
        return Err(StakingError::InvalidAuthority);
    }
    ctx.program_state.paused = paused;
    Ok(ProgramPausedEvent { authority: ctx.authority, paused, timestamp: now })
}

/// A proposal can be accepted from 48 hours after it was made, and not
/// before.
pub proof fn lemma_proposal_waits_out_the_timelock(
    ctx: UpdateAuthority,
    new_authority: Identity,
    now: i64,
    at: i64,
)
    requires
        ctx.proposal_rejection() is None,
        ctx.proposal_in_range(now),
    ensures
        ctx.proposed(new_authority, now).acceptance_rejection(at) == if at < now
            + ADMIN_TIMELOCK_DURATION {
            Some(StakingError::TimelockNotExpired)
        } else {
            None
        },
{
}

/// Once a change of authority is accepted, the authority is the one that
/// was proposed, and whoever held it before can no longer propose, accept or
/// pause, unless the same identity was proposed.
pub proof fn lemma_accepted_authority_takes_over(ctx: UpdateAuthority, now: i64)
    requires
        ctx.acceptance_rejection(now) is None,
    ensures
        ctx.program_state.pending_authority matches Some(proposed)
            && ctx.accepted().program_state.authority == proposed,
        ctx.accepted().program_state.authority != ctx.authority ==> {
            &&& ctx.accepted().proposal_rejection() == Some(StakingError::InvalidAuthority)
            &&& ctx.accepted().acceptance_rejection(now) == Some(StakingError::InvalidAuthority)
            &&& (PauseProgram {
                program_state: ctx.accepted().program_state,
                authority: ctx.authority,
            }).rejection() == Some(StakingError::InvalidAuthority)
        },
{
}

} // verus!
