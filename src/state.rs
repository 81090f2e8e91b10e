//! The escrow record and the reputation record.

use vstd::prelude::*;
use crate::key::Pubkey;

verus! {

/// Where a task stands in its lifecycle.
///
/// `Completed` and `Cancelled` are final: the record and its vault are closed
/// on those paths. `Disputed` is reserved: no operation leads into it or out
/// of it.
#[derive(Clone, Copy, Debug, PartialEq, Eq, Structural)]
pub enum TaskStatus {
    Open,
    Claimed,
    Submitted,
    Completed,
    Cancelled,
    Disputed,
}

/// The lifecycle moves that an operation may make, and no others.
pub open spec fn is_transition(from: TaskStatus, to: TaskStatus) -> bool {
    ||| from == TaskStatus::Open && to == TaskStatus::Claimed
    ||| from == TaskStatus::Claimed && to == TaskStatus::Submitted
    ||| from == TaskStatus::Submitted && to == TaskStatus::Completed
    ||| from == TaskStatus::Open && to == TaskStatus::Cancelled
}

/// One task's bounty escrow.
#[derive(Clone, Copy, Debug)]
pub struct TaskEscrow {
    /// The poster, who alone may release or cancel.
    pub authority: Pubkey,
    /// The task's identifier, from which the record's and the vault's
    /// addresses are derived.
    pub task_id: [u8; 32],
    /// The amount held in custody.
    pub bounty_amount: u64,
    /// Content address of the task's details.
    pub task_hash: [u8; 32],
    pub status: TaskStatus,
    /// The agent who claimed the task.
    pub assigned_agent: Option<Pubkey>,
    /// Content address of the submitted work.
    pub work_hash: Option<[u8; 32]>,
    pub created_at: i64,
    pub claimed_at: Option<i64>,
    pub submitted_at: Option<i64>,
    /// The bump seed that completes the record's address derivation.
    pub bump: u8,
}

impl TaskEscrow {
    /// Bytes that the record takes in storage, discriminator included.
    pub const LEN: usize = 8 + 32 + 32 + 8 + 32 + 1 + 33 + 33 + 8 + 9 + 9 + 1;

    /// A record that exists is open, claimed or submitted, and each optional
    /// field is set exactly when the transition that sets it has happened.
    pub open spec fn wf(&self) -> bool {
        match self.status {
            TaskStatus::Open => {
                &&& self.assigned_agent is None
                &&& self.work_hash is None
                &&& self.claimed_at is None
                &&& self.submitted_at is None
            },
            TaskStatus::Claimed => {
                &&& self.assigned_agent is Some
                &&& self.work_hash is None
                &&& self.claimed_at is Some
                &&& self.submitted_at is None
            },
            TaskStatus::Submitted => {
                &&& self.assigned_agent is Some
                &&& self.work_hash is Some
                &&& self.claimed_at is Some
                &&& self.submitted_at is Some
            },
            _ => false,
        }
    }

    /// Tells whether the record is well formed, as read back from storage.
    pub fn is_well_formed(&self) -> (r: bool)
        ensures
            r == self.wf(),
    {
        match self.status {
            TaskStatus::Open => {
                self.assigned_agent.is_none() && self.work_hash.is_none()
                    && self.claimed_at.is_none() && self.submitted_at.is_none()
            },
            TaskStatus::Claimed => {
                self.assigned_agent.is_some() && self.work_hash.is_none()
                    && self.claimed_at.is_some() && self.submitted_at.is_none()
            },
            TaskStatus::Submitted => {
                self.assigned_agent.is_some() && self.work_hash.is_some()
                    && self.claimed_at.is_some() && self.submitted_at.is_some()
            },
            _ => false,
        }
    }
}

/// Per-agent statistics, reserved for a reputation subsystem. No operation
/// creates, reads or changes it.
#[derive(Clone, Copy, Debug)]
pub struct AgentReputation {
    pub wallet: Pubkey,
    pub tasks_completed: u64,
    pub tasks_failed: u64,
    pub total_earnings: u64,
    /// Out of 10000.
    pub average_rating: u16,
    pub stake_amount: u64,
    pub registered_at: i64,
    pub bump: u8,
}

impl AgentReputation {
    /// Bytes that the record takes in storage, discriminator included.
    pub const LEN: usize = 8 + 32 + 8 + 8 + 8 + 2 + 8 + 8 + 1;
}

} // verus!
