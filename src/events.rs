//! The notification that each successful operation emits.

use vstd::prelude::*;
use crate::key::Pubkey;

verus! {

/// A task was posted and its bounty locked in custody.
#[derive(Clone, Copy, Debug)]
pub struct TaskCreated {
    pub task_id: [u8; 32],
    pub authority: Pubkey,
    pub bounty_amount: u64,
    pub task_hash: [u8; 32],
}

/// An agent took the task.
#[derive(Clone, Copy, Debug)]
pub struct TaskClaimed {
    pub task_id: [u8; 32],
    pub agent: Pubkey,
}

/// The assigned agent handed in proof of the work.
#[derive(Clone, Copy, Debug)]
pub struct WorkSubmitted {
    pub task_id: [u8; 32],
    pub agent: Pubkey,
    pub work_hash: [u8; 32],
}

/// The poster released the bounty to the agent, less the platform fee.
#[derive(Clone, Copy, Debug)]
pub struct TaskCompleted {
    pub task_id: [u8; 32],
    pub agent: Pubkey,
    pub bounty_amount: u64,
    pub platform_fee: u64,
}

/// The poster withdrew an unclaimed task and took the bounty back.
#[derive(Clone, Copy, Debug)]
pub struct TaskCancelled {
    pub task_id: [u8; 32],
}

} // verus!
