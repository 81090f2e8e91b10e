//! Why an operation was refused.

use vstd::prelude::*;

verus! {

/// The reasons an escrow operation fails. Each is reported before any field
/// of the record or any balance is touched.
#[derive(Clone, Copy, Debug, PartialEq, Eq, Structural)]
pub enum EscrowError {
    /// A claim on a record that is not open.
    TaskNotOpen,
    /// A submission on a record that has not been claimed.
    TaskNotClaimed,
    /// A submission by someone other than the agent who claimed the task.
    NotAssignedAgent,
    /// A release on a record whose work has not been submitted.
    WorkNotSubmitted,
    /// A cancellation of a record that is no longer open.
    CannotCancel,
    /// A release or cancellation signed by someone other than the poster.
    Unauthorized,
    /// A release whose payment account is not owned by the assigned agent.
    AgentAccountMismatch,
}

} // verus!
