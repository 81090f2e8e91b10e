//! Bounty escrow for a task marketplace.
//!
//! A poster locks a bounty in a custody vault that only the escrow record can
//! debit; an agent claims the task and submits proof of work; the poster then
//! releases the bounty, split between the agent and the platform, or cancels
//! an unclaimed task and takes the bounty back.
//!
//! Every operation here is a verified decision: it checks authorization and
//! the record's status, computes the new record, the token transfers that the
//! ledger must perform and the event to emit, and touches nothing else.

pub mod key;
pub mod error;
pub mod events;
pub mod fee;
pub mod address;
pub mod state;
pub mod transfer;
pub mod instructions;
pub mod laws;
