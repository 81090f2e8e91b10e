//! The five operations of the escrow lifecycle.
//!
//! Each takes what the caller presents (the signer's identity, the stored
//! record) and the clock reading, checks authorization and status before
//! anything else, and on success returns the new record, the transfers that
//! the token ledger must perform and the event to emit. A refused operation
//! changes nothing and asks for no transfer.

use vstd::prelude::*;
use crate::error::EscrowError;
use crate::events::{TaskCancelled, TaskClaimed, TaskCompleted, TaskCreated, WorkSubmitted};
use crate::fee::{agent_share_of, fee_of, split_bounty};
use crate::key::Pubkey;
use crate::state::{TaskEscrow, TaskStatus};
use crate::transfer::{Party, TokenTransfer, TransferAuthority};

verus! {

/// What a poster presents to open a task.
#[derive(Clone, Copy, Debug)]
pub struct CreateTask {
    /// The poster, who signs and funds the escrow.
    pub authority: Pubkey,
    /// The bump seed found for the new record's address.
    pub escrow_bump: u8,
}

/// What an agent presents to claim a task.
#[derive(Clone, Copy, Debug)]
pub struct ClaimTask {
    pub agent: Pubkey,
    pub escrow: TaskEscrow,
}

/// What an agent presents to hand in work.
#[derive(Clone, Copy, Debug)]
pub struct SubmitWork {
    pub agent: Pubkey,
    pub escrow: TaskEscrow,
}

/// What a poster presents to release the bounty.
#[derive(Clone, Copy, Debug)]
pub struct ApproveAndRelease {
    pub authority: Pubkey,
    pub escrow: TaskEscrow,
    /// The owner of the token account that is to receive the agent's payment.
    pub agent_account_owner: Pubkey,
}

/// What a poster presents to withdraw a task.
#[derive(Clone, Copy, Debug)]
pub struct CancelTask {
    pub authority: Pubkey,
    pub escrow: TaskEscrow,
}

/// The record as a claim by `agent` at time `now` leaves it.
pub open spec fn claimed(e: TaskEscrow, agent: Pubkey, now: i64) -> TaskEscrow {
    TaskEscrow { status: TaskStatus::Claimed, assigned_agent: Some(agent), claimed_at: Some(now), ..e }
}

/// The record as a submission of `work_hash` at time `now` leaves it.
pub open spec fn submitted(e: TaskEscrow, work_hash: [u8; 32], now: i64) -> TaskEscrow {
    TaskEscrow {
        status: TaskStatus::Submitted,
        work_hash: Some(work_hash),
        submitted_at: Some(now),
        ..e
    }
}

/// The authority with which the record debits its own vault.
pub open spec fn record_authority(e: TaskEscrow) -> TransferAuthority {
    TransferAuthority::Escrow { task_id: e.task_id, bump: e.bump }
}

/// The transfer that funds a new record's vault from the poster's account.
pub open spec fn deposit_transfer(authority: Pubkey, bounty_amount: u64) -> TokenTransfer {
    TokenTransfer {
        from: Party::Poster,
        to: Party::Vault,
        amount: bounty_amount,
        authority: TransferAuthority::Signer(authority),
    }
}

/// The transfers that release a record's bounty: the agent's payment first,
/// then the platform fee, both out of the vault.
pub open spec fn release_transfers(e: TaskEscrow) -> Seq<TokenTransfer> {
    seq![
        TokenTransfer {
            from: Party::Vault,
            to: Party::Agent,
            amount: agent_share_of(e.bounty_amount as int) as u64,
            authority: record_authority(e),
        },
        TokenTransfer {
            from: Party::Vault,
            to: Party::Platform,
            amount: fee_of(e.bounty_amount as int) as u64,
            authority: record_authority(e),
        },
    ]
}

/// The transfer that hands a cancelled record's bounty back to the poster.
pub open spec fn refund_transfer(e: TaskEscrow) -> TokenTransfer {
    TokenTransfer {
        from: Party::Vault,
        to: Party::Poster,
        amount: e.bounty_amount,
        authority: record_authority(e),
    }
}

/// Opens a task: a new record in `Open`, the deposit of the whole bounty from
/// the poster into the vault, on the poster's signature, and the event.
pub fn create_task(
    ctx: &CreateTask,
    task_id: [u8; 32],
    bounty_amount: u64,
    task_hash: [u8; 32],
    now: i64,
) -> (r: (TaskEscrow, TokenTransfer, TaskCreated))
    ensures
        r.0 == (TaskEscrow {
            authority: ctx.authority,
            task_id,
            bounty_amount,
            task_hash,
            status: TaskStatus::Open,
            assigned_agent: None,
            work_hash: None,
            created_at: now,
            claimed_at: None,
            submitted_at: None,
            bump: ctx.escrow_bump,
        }),
        r.0.wf(),
        r.1 == deposit_transfer(ctx.authority, bounty_amount),
        r.2 == (TaskCreated { task_id, authority: ctx.authority, bounty_amount, task_hash }),
{
    let escrow = TaskEscrow {
        authority: ctx.authority,
        task_id,
        bounty_amount,
        task_hash,
        status: TaskStatus::Open,
        assigned_agent: None,
        work_hash: None,
        created_at: now,
        claimed_at: None,
        submitted_at: None,
        bump: ctx.escrow_bump,
    };
    let deposit = TokenTransfer {
        from: Party::Poster,
        to: Party::Vault,
        amount: bounty_amount,
        authority: TransferAuthority::Signer(ctx.authority),
    };
    let event = TaskCreated { task_id, authority: ctx.authority, bounty_amount, task_hash };
    (escrow, deposit, event)
}

/// Claims an open task for the signing agent. A record that already names
/// an agent is not open for claiming, so an agent once assigned is never
/// replaced.
pub fn claim_task(ctx: &mut ClaimTask, now: i64) -> (r: Result<TaskClaimed, EscrowError>)
    ensures
        final(ctx).agent == old(ctx).agent,
        old(ctx).escrow.status == TaskStatus::Open && old(ctx).escrow.assigned_agent is None ==> {
            &&& r == Ok::<TaskClaimed, EscrowError>(
                TaskClaimed { task_id: old(ctx).escrow.task_id, agent: old(ctx).agent },
            )
            &&& final(ctx).escrow == claimed(old(ctx).escrow, old(ctx).agent, now)
        },
        old(ctx).escrow.status != TaskStatus::Open || old(ctx).escrow.assigned_agent is Some ==> {
            &&& r == Err::<TaskClaimed, EscrowError>(EscrowError::TaskNotOpen)
            &&& *final(ctx) == *old(ctx)
        },
{
    if ctx.escrow.status != TaskStatus::Open || ctx.escrow.assigned_agent.is_some() {
        return Err(EscrowError::TaskNotOpen);
    }
    ctx.escrow.status = TaskStatus::Claimed;
    ctx.escrow.assigned_agent = Some(ctx.agent);
    ctx.escrow.claimed_at = Some(now);
    Ok(TaskClaimed { task_id: ctx.escrow.task_id, agent: ctx.agent })
}

/// The record names an agent, and it is not `agent`.
pub open spec fn names_other_agent(e: TaskEscrow, agent: Pubkey) -> bool {
    e.assigned_agent is Some && e.assigned_agent != Some(agent)
}

/// The record is claimed and holds no work yet.
pub open spec fn awaits_work(e: TaskEscrow) -> bool {
    e.status == TaskStatus::Claimed && e.work_hash is None
}

/// Records the assigned agent's proof of work on a claimed task.
///
/// A caller other than the agent the record names is refused as such,
/// whatever the status; otherwise a record that is not claimed, or that
/// already holds work, is refused as not claimed. The work hash is therefore
/// set at most once.
pub fn submit_work(ctx: &mut SubmitWork, work_hash: [u8; 32], now: i64) -> (r: Result<
    WorkSubmitted,
    EscrowError,
>)
    ensures
        final(ctx).agent == old(ctx).agent,
        names_other_agent(old(ctx).escrow, old(ctx).agent) ==> {
            &&& r == Err::<WorkSubmitted, EscrowError>(EscrowError::NotAssignedAgent)
            &&& *final(ctx) == *old(ctx)
        },
        !names_other_agent(old(ctx).escrow, old(ctx).agent) && !awaits_work(old(ctx).escrow) ==> {
            &&& r == Err::<WorkSubmitted, EscrowError>(EscrowError::TaskNotClaimed)
            &&& *final(ctx) == *old(ctx)
        },
        awaits_work(old(ctx).escrow) && old(ctx).escrow.assigned_agent is None ==> {
            &&& r == Err::<WorkSubmitted, EscrowError>(EscrowError::NotAssignedAgent)
            &&& *final(ctx) == *old(ctx)
        },
        awaits_work(old(ctx).escrow) && old(ctx).escrow.assigned_agent == Some(old(ctx).agent) ==> {
            &&& r == Ok::<WorkSubmitted, EscrowError>(
                WorkSubmitted { task_id: old(ctx).escrow.task_id, agent: old(ctx).agent, work_hash },
            )
            &&& final(ctx).escrow == submitted(old(ctx).escrow, work_hash, now)
        },
{
    let assigned = match ctx.escrow.assigned_agent {
        Some(a) => {
            if a != ctx.agent {
                return Err(EscrowError::NotAssignedAgent);
            }
            true
        },
        None => false,
    };
    if ctx.escrow.status != TaskStatus::Claimed || ctx.escrow.work_hash.is_some() {
        return Err(EscrowError::TaskNotClaimed);
    }
    if !assigned {
        return Err(EscrowError::NotAssignedAgent);
    }
    ctx.escrow.status = TaskStatus::Submitted;
    ctx.escrow.work_hash = Some(work_hash);
    ctx.escrow.submitted_at = Some(now);
    Ok(WorkSubmitted { task_id: ctx.escrow.task_id, agent: ctx.agent, work_hash })
}

/// Releases a submitted task's bounty: the agent's payment and the platform
/// fee, both debited from the vault on the record's own authority. The
/// agent's payment goes only to a token account that the assigned agent
/// owns. The record and the vault are closed afterwards.
pub fn approve_and_release(ctx: &ApproveAndRelease) -> (r: Result<
    (Vec<TokenTransfer>, TaskCompleted),
    EscrowError,
>)
    requires
        ctx.escrow.status == TaskStatus::Submitted ==> ctx.escrow.assigned_agent is Some,
    ensures
        ctx.authority != ctx.escrow.authority ==> r == Err::<
            (Vec<TokenTransfer>, TaskCompleted),
            EscrowError,
        >(EscrowError::Unauthorized),
        ctx.authority == ctx.escrow.authority && ctx.escrow.status != TaskStatus::Submitted ==> r
            == Err::<(Vec<TokenTransfer>, TaskCompleted), EscrowError>(
            EscrowError::WorkNotSubmitted,
        ),
        ctx.authority == ctx.escrow.authority && ctx.escrow.status == TaskStatus::Submitted
            && ctx.escrow.assigned_agent != Some(ctx.agent_account_owner) ==> r == Err::<
            (Vec<TokenTransfer>, TaskCompleted),
            EscrowError,
        >(EscrowError::AgentAccountMismatch),
        ctx.authority == ctx.escrow.authority && ctx.escrow.status == TaskStatus::Submitted
            && ctx.escrow.assigned_agent == Some(ctx.agent_account_owner) ==> {
            &&& r matches Ok((transfers, event))
            &&& transfers@ == release_transfers(ctx.escrow)
            &&& event == (TaskCompleted {
                task_id: ctx.escrow.task_id,
                agent: ctx.escrow.assigned_agent->0,
                bounty_amount: ctx.escrow.bounty_amount,
                platform_fee: fee_of(ctx.escrow.bounty_amount as int) as u64,
            })
        },
{
    if ctx.authority != ctx.escrow.authority {
        return Err(EscrowError::Unauthorized);
    }
    if ctx.escrow.status != TaskStatus::Submitted {
        return Err(EscrowError::WorkNotSubmitted);
    }
    let agent = match ctx.escrow.assigned_agent {
        Some(a) => a,
        None => { return Err(EscrowError::WorkNotSubmitted); },
    };
    if agent != ctx.agent_account_owner {
        return Err(EscrowError::AgentAccountMismatch);
    }
    // One read of the amount feeds both transfers and the event.
    let bounty_amount = ctx.escrow.bounty_amount;
    let (platform_fee, agent_payment) = split_bounty(bounty_amount);
    let signer = TransferAuthority::Escrow { task_id: ctx.escrow.task_id, bump: ctx.escrow.bump };
    let mut transfers: Vec<TokenTransfer> = Vec::new();
    transfers.push(
        TokenTransfer { from: Party::Vault, to: Party::Agent, amount: agent_payment, authority: signer },
    );
    transfers.push(
        TokenTransfer { from: Party::Vault, to: Party::Platform, amount: platform_fee, authority: signer },
    );
    proof {
        assert(transfers@ =~= release_transfers(ctx.escrow));
    }
    let event = TaskCompleted {
        task_id: ctx.escrow.task_id,
        agent,
        bounty_amount,
        platform_fee,
    };
    Ok((transfers, event))
}

/// Withdraws an open task: the whole bounty goes back from the vault to the
/// poster, on the record's own authority, and no fee is taken. The record and
/// the vault are closed afterwards.
pub fn cancel_task(ctx: &CancelTask) -> (r: Result<(TokenTransfer, TaskCancelled), EscrowError>)
    ensures
        ctx.authority != ctx.escrow.authority ==> r == Err::<(TokenTransfer, TaskCancelled), EscrowError>(
            EscrowError::Unauthorized,
        ),
        ctx.authority == ctx.escrow.authority && ctx.escrow.status != TaskStatus::Open ==> r == Err::<
            (TokenTransfer, TaskCancelled),
            EscrowError,
        >(EscrowError::CannotCancel),
        ctx.authority == ctx.escrow.authority && ctx.escrow.status == TaskStatus::Open ==> r == Ok::<
            (TokenTransfer, TaskCancelled),
            EscrowError,
        >((refund_transfer(ctx.escrow), TaskCancelled { task_id: ctx.escrow.task_id })),
{
    if ctx.authority != ctx.escrow.authority {
        return Err(EscrowError::Unauthorized);
    }
    if ctx.escrow.status != TaskStatus::Open {
        return Err(EscrowError::CannotCancel);
    }
    let refund = TokenTransfer {
        from: Party::Vault,
        to: Party::Poster,
        amount: ctx.escrow.bounty_amount,
        authority: TransferAuthority::Escrow { task_id: ctx.escrow.task_id, bump: ctx.escrow.bump },
    };
    Ok((refund, TaskCancelled { task_id: ctx.escrow.task_id }))
}

} // verus!
