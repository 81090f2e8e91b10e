use agent_escrow::error::EscrowError;
use agent_escrow::instructions::{
    approve_and_release, cancel_task, claim_task, create_task, submit_work, ApproveAndRelease,
    CancelTask, ClaimTask, CreateTask, SubmitWork,
};
use agent_escrow::key::Pubkey;
use agent_escrow::state::{AgentReputation, TaskEscrow, TaskStatus};
use agent_escrow::transfer::{Party, TransferAuthority};

fn key(b: u8) -> Pubkey {
    Pubkey::new_from_array([b; 32])
}

const TASK: [u8; 32] = [7; 32];
const TASK_HASH: [u8; 32] = [9; 32];
const WORK_HASH: [u8; 32] = [11; 32];

fn poster() -> Pubkey {
    key(1)
}

fn open_task(bounty: u64) -> TaskEscrow {
    let ctx = CreateTask { authority: poster(), escrow_bump: 254 };
    let (escrow, _, _) = create_task(&ctx, TASK, bounty, TASK_HASH, 100);
    escrow
}

fn claimed_by(agent: Pubkey, bounty: u64) -> TaskEscrow {
    let mut ctx = ClaimTask { agent, escrow: open_task(bounty) };
    claim_task(&mut ctx, 200).unwrap();
    ctx.escrow
}

fn submitted_by(agent: Pubkey, bounty: u64) -> TaskEscrow {
    let mut ctx = SubmitWork { agent, escrow: claimed_by(agent, bounty) };
    submit_work(&mut ctx, WORK_HASH, 300).unwrap();
    ctx.escrow
}

fn same_record(a: &TaskEscrow, b: &TaskEscrow) -> bool {
    a.authority == b.authority
        && a.task_id == b.task_id
        && a.bounty_amount == b.bounty_amount
        && a.task_hash == b.task_hash
        && a.status == b.status
        && a.assigned_agent == b.assigned_agent
        && a.work_hash == b.work_hash
        && a.created_at == b.created_at
        && a.claimed_at == b.claimed_at
        && a.submitted_at == b.submitted_at
        && a.bump == b.bump
}

#[test]
fn full_lifecycle_pays_agent_and_platform() {
    let ctx = CreateTask { authority: poster(), escrow_bump: 254 };
    let (escrow, deposit, created) = create_task(&ctx, TASK, 1000, TASK_HASH, 100);
    assert_eq!(deposit.from, Party::Poster);
    assert_eq!(deposit.to, Party::Vault);
    assert_eq!(deposit.amount, 1000);
    assert!(matches!(deposit.authority, TransferAuthority::Signer(k) if k == poster()));
    assert_eq!(escrow.status, TaskStatus::Open);
    assert_eq!(escrow.bounty_amount, 1000);
    assert_eq!(escrow.created_at, 100);
    assert_eq!(escrow.bump, 254);
    assert!(escrow.assigned_agent.is_none());
    assert!(escrow.is_well_formed());
    assert_eq!(created.bounty_amount, 1000);
    assert_eq!(created.task_id, TASK);
    assert_eq!(created.task_hash, TASK_HASH);
    assert!(created.authority == poster());

    let agent = key(2);
    let mut claim = ClaimTask { agent, escrow };
    let claimed = claim_task(&mut claim, 200).unwrap();
    assert_eq!(claim.escrow.status, TaskStatus::Claimed);
    assert_eq!(claim.escrow.assigned_agent, Some(agent));
    assert_eq!(claim.escrow.claimed_at, Some(200));
    assert!(claimed.agent == agent);
    assert_eq!(claimed.task_id, TASK);
    assert!(claim.escrow.is_well_formed());

    let mut submit = SubmitWork { agent, escrow: claim.escrow };
    let submitted = submit_work(&mut submit, WORK_HASH, 300).unwrap();
    assert_eq!(submit.escrow.status, TaskStatus::Submitted);
    assert_eq!(submit.escrow.work_hash, Some(WORK_HASH));
    assert_eq!(submit.escrow.submitted_at, Some(300));
    assert_eq!(submit.escrow.assigned_agent, Some(agent));
    assert_eq!(submitted.work_hash, WORK_HASH);
    assert!(submit.escrow.is_well_formed());

    let release = ApproveAndRelease { authority: poster(), escrow: submit.escrow, agent_account_owner: agent };
    let (transfers, completed) = approve_and_release(&release).unwrap();
    assert_eq!(transfers.len(), 2);
    assert_eq!(transfers[0].from, Party::Vault);
    assert_eq!(transfers[0].to, Party::Agent);
    assert_eq!(transfers[0].amount, 970);
    assert_eq!(transfers[1].from, Party::Vault);
    assert_eq!(transfers[1].to, Party::Platform);
    assert_eq!(transfers[1].amount, 30);
    for t in transfers.iter() {
        assert!(matches!(
            t.authority,
            TransferAuthority::Escrow { task_id, bump } if task_id == TASK && bump == 254
        ));
    }
    let vault: i128 = 1000 - transfers.iter().map(|t| t.amount as i128).sum::<i128>();
    assert_eq!(vault, 0);
    assert_eq!(completed.platform_fee, 30);
    assert_eq!(completed.bounty_amount, 1000);
    assert!(completed.agent == agent);
}

#[test]
fn cancel_refunds_poster_in_full() {
    let ctx = CancelTask { authority: poster(), escrow: open_task(1000) };
    let (refund, cancelled) = cancel_task(&ctx).unwrap();
    assert_eq!(refund.from, Party::Vault);
    assert_eq!(refund.to, Party::Poster);
    assert_eq!(refund.amount, 1000);
    assert!(matches!(refund.authority, TransferAuthority::Escrow { bump: 254, .. }));
    assert_eq!(cancelled.task_id, TASK);
}

#[test]
fn second_submit_by_other_agent_is_refused() {
    let a = key(2);
    let b = key(3);
    let before = submitted_by(a, 1000);
    let mut ctx = SubmitWork { agent: b, escrow: before };
    let err = submit_work(&mut ctx, [12; 32], 400).unwrap_err();
    assert_eq!(err, EscrowError::NotAssignedAgent);
    assert!(same_record(&ctx.escrow, &before));
}

#[test]
fn submit_by_unassigned_agent_is_refused() {
    let before = claimed_by(key(2), 1000);
    let mut ctx = SubmitWork { agent: key(3), escrow: before };
    assert_eq!(submit_work(&mut ctx, WORK_HASH, 400).unwrap_err(), EscrowError::NotAssignedAgent);
    assert!(same_record(&ctx.escrow, &before));
}

#[test]
fn second_claim_is_refused() {
    let mut ctx = ClaimTask { agent: key(2), escrow: open_task(1000) };
    claim_task(&mut ctx, 200).unwrap();
    let after_first = ctx.escrow;
    let mut second = ClaimTask { agent: key(3), escrow: after_first };
    assert_eq!(claim_task(&mut second, 250).unwrap_err(), EscrowError::TaskNotOpen);
    assert!(same_record(&second.escrow, &after_first));
    assert_eq!(second.escrow.assigned_agent, Some(key(2)));
}

#[test]
fn submit_on_open_task_is_refused() {
    let before = open_task(1000);
    let mut ctx = SubmitWork { agent: key(2), escrow: before };
    assert_eq!(submit_work(&mut ctx, WORK_HASH, 400).unwrap_err(), EscrowError::TaskNotClaimed);
    assert!(same_record(&ctx.escrow, &before));
}

#[test]
fn release_before_submission_is_refused() {
    let ctx = ApproveAndRelease { authority: poster(), escrow: claimed_by(key(2), 1000), agent_account_owner: key(2) };
    assert_eq!(approve_and_release(&ctx).unwrap_err(), EscrowError::WorkNotSubmitted);
    let ctx = ApproveAndRelease { authority: poster(), escrow: open_task(1000), agent_account_owner: key(2) };
    assert_eq!(approve_and_release(&ctx).unwrap_err(), EscrowError::WorkNotSubmitted);
}

#[test]
fn release_by_stranger_is_refused() {
    let ctx = ApproveAndRelease { authority: key(5), escrow: submitted_by(key(2), 1000), agent_account_owner: key(2) };
    assert_eq!(approve_and_release(&ctx).unwrap_err(), EscrowError::Unauthorized);
}

#[test]
fn cancel_after_claim_is_refused() {
    let ctx = CancelTask { authority: poster(), escrow: claimed_by(key(2), 1000) };
    assert_eq!(cancel_task(&ctx).unwrap_err(), EscrowError::CannotCancel);
    let ctx = CancelTask { authority: poster(), escrow: submitted_by(key(2), 1000) };
    assert_eq!(cancel_task(&ctx).unwrap_err(), EscrowError::CannotCancel);
}

#[test]
fn cancel_by_stranger_is_refused() {
    let ctx = CancelTask { authority: key(5), escrow: open_task(1000) };
    assert_eq!(cancel_task(&ctx).unwrap_err(), EscrowError::Unauthorized);
}

#[test]
fn release_of_zero_bounty_moves_nothing() {
    let ctx = ApproveAndRelease { authority: poster(), escrow: submitted_by(key(2), 0), agent_account_owner: key(2) };
    let (transfers, completed) = approve_and_release(&ctx).unwrap();
    assert_eq!(transfers[0].amount, 0);
    assert_eq!(transfers[1].amount, 0);
    assert_eq!(completed.platform_fee, 0);
}

#[test]
fn release_of_largest_bounty_splits_exactly() {
    let ctx = ApproveAndRelease { authority: poster(), escrow: submitted_by(key(2), u64::MAX), agent_account_owner: key(2) };
    let (transfers, completed) = approve_and_release(&ctx).unwrap();
    assert_eq!(transfers[0].amount, 17893341751498265067);
    assert_eq!(transfers[1].amount, 553402322211286548);
    assert_eq!(completed.platform_fee, 553402322211286548);
}

#[test]
fn malformed_records_are_detected() {
    let mut e = open_task(10);
    assert!(e.is_well_formed());
    e.assigned_agent = Some(key(2));
    assert!(!e.is_well_formed());
    let mut e = claimed_by(key(2), 10);
    e.work_hash = Some(WORK_HASH);
    assert!(!e.is_well_formed());
    let mut e = open_task(10);
    e.status = TaskStatus::Disputed;
    assert!(!e.is_well_formed());
    e.status = TaskStatus::Completed;
    assert!(!e.is_well_formed());
}

#[test]
fn record_sizes() {
    assert_eq!(TaskEscrow::LEN, 206);
    assert_eq!(AgentReputation::LEN, 83);
}

#[test]
fn resubmit_by_assigned_agent_is_refused() {
    let before = submitted_by(key(2), 1000);
    let mut ctx = SubmitWork { agent: key(2), escrow: before };
    assert_eq!(submit_work(&mut ctx, [12; 32], 400).unwrap_err(), EscrowError::TaskNotClaimed);
    assert_eq!(ctx.escrow.work_hash, Some(WORK_HASH));
}

#[test]
fn work_hash_is_never_overwritten() {
    let mut before = claimed_by(key(2), 1000);
    before.work_hash = Some(WORK_HASH);
    let mut ctx = SubmitWork { agent: key(2), escrow: before };
    assert_eq!(submit_work(&mut ctx, [12; 32], 400).unwrap_err(), EscrowError::TaskNotClaimed);
    assert!(same_record(&ctx.escrow, &before));
}

#[test]
fn claimed_record_without_agent_refuses_submission() {
    let mut before = claimed_by(key(2), 1000);
    before.assigned_agent = None;
    let mut ctx = SubmitWork { agent: key(3), escrow: before };
    assert_eq!(submit_work(&mut ctx, WORK_HASH, 400).unwrap_err(), EscrowError::NotAssignedAgent);
    assert!(same_record(&ctx.escrow, &before));
}

#[test]
fn assigned_agent_is_never_replaced() {
    let mut before = open_task(1000);
    before.assigned_agent = Some(key(2));
    let mut ctx = ClaimTask { agent: key(3), escrow: before };
    assert_eq!(claim_task(&mut ctx, 250).unwrap_err(), EscrowError::TaskNotOpen);
    assert_eq!(ctx.escrow.assigned_agent, Some(key(2)));
}

#[test]
fn release_to_account_of_other_owner_is_refused() {
    let escrow = submitted_by(key(2), 1000);
    let ctx = ApproveAndRelease { authority: poster(), escrow, agent_account_owner: key(3) };
    assert_eq!(approve_and_release(&ctx).unwrap_err(), EscrowError::AgentAccountMismatch);
}
