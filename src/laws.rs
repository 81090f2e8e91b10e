//! What holds of the lifecycle as a whole.

use vstd::prelude::*;
use crate::address::{debit_authorized, escrow_seed_seq, program_address_of};
use crate::fee::{agent_share_of, fee_of};
use crate::instructions::{
    awaits_work, claimed, deposit_transfer, record_authority, refund_transfer, release_transfers, submitted,
};
use crate::key::Pubkey;
use crate::state::{is_transition, TaskEscrow, TaskStatus};
use crate::transfer::{net_flow, vault_debits_by_record, Party, TokenTransfer};

verus! {

/// Each operation succeeds exactly from the status at which a lifecycle edge
/// starts, and moves the record along that edge: a claim from `Open` to
/// `Claimed`, a submission from `Claimed` to `Submitted`, a release from
/// `Submitted` to `Completed`, a cancellation from `Open` to `Cancelled`.
/// A well-formed record is left well formed, no edge leads back to `Open`,
/// and no edge enters or leaves `Disputed`.
pub proof fn lemma_lifecycle_edges(e: TaskEscrow, agent: Pubkey, work_hash: [u8; 32], now: i64)
    ensures
        is_transition(e.status, claimed(e, agent, now).status) <==> e.status == TaskStatus::Open,
        is_transition(e.status, submitted(e, work_hash, now).status) <==> e.status
            == TaskStatus::Claimed,
        is_transition(e.status, TaskStatus::Completed) <==> e.status == TaskStatus::Submitted,
        is_transition(e.status, TaskStatus::Cancelled) <==> e.status == TaskStatus::Open,
        e.wf() && e.status == TaskStatus::Open ==> claimed(e, agent, now).wf(),
        e.wf() && e.status == TaskStatus::Claimed ==> submitted(e, work_hash, now).wf(),
        forall|s: TaskStatus|
            !is_transition(s, TaskStatus::Disputed) && !is_transition(TaskStatus::Disputed, s),
        forall|s: TaskStatus| !is_transition(s, TaskStatus::Open),
{
}

/// `b` is what a successful claim or submission makes of the stored record
/// `a`.
pub open spec fn is_step(a: TaskEscrow, b: TaskEscrow) -> bool {
    ||| {
        &&& a.status == TaskStatus::Open
        &&& a.assigned_agent is None
        &&& b.assigned_agent is Some
        &&& b.claimed_at is Some
        &&& b == claimed(a, b.assigned_agent->0, b.claimed_at->0)
    }
    ||| {
        &&& awaits_work(a)
        &&& a.assigned_agent is Some
        &&& b.work_hash is Some
        &&& b.submitted_at is Some
        &&& b == submitted(a, b.work_hash->0, b.submitted_at->0)
    }
}

/// The assigned agent is set once, by a claim on a record that names none,
/// and a submission leaves it as it was; the work hash is set once, by a
/// submission on a record that holds none, and a claim leaves it as it was.
pub proof fn lemma_set_once(a: TaskEscrow, b: TaskEscrow)
    requires
        is_step(a, b),
    ensures
        b.assigned_agent is Some,
        a.assigned_agent is Some ==> b.assigned_agent == a.assigned_agent,
        a.work_hash is Some ==> b.work_hash == a.work_hash,
        b.status != TaskStatus::Open,
{
}

/// Consecutive records of `h` are each what a successful claim or
/// submission makes of the one before.
pub open spec fn is_history(h: Seq<TaskEscrow>) -> bool {
    forall|k: int| 0 <= k < h.len() - 1 ==> is_step(#[trigger] h[k], h[k + 1])
}

/// Along any run of successful operations, every move follows a lifecycle
/// edge, and once the assigned agent or the work hash is set it never
/// changes again; from a well-formed record, every record is well formed.
pub proof fn lemma_history(h: Seq<TaskEscrow>, j: int)
    requires
        is_history(h),
        0 <= j < h.len(),
    ensures
        h[0].wf() ==> h[j].wf(),
        j > 0 ==> is_transition(h[j - 1].status, h[j].status),
        forall|i: int|
            0 <= i <= j && (#[trigger] h[i]).assigned_agent is Some ==> h[j].assigned_agent
                == h[i].assigned_agent,
        forall|i: int|
            0 <= i <= j && (#[trigger] h[i]).work_hash is Some ==> h[j].work_hash
                == h[i].work_hash,
    decreases j,
{
    if j > 0 {
        lemma_history(h, j - 1);
        assert(is_step(h[j - 1], h[j]));
    }
}

/// The platform fee is the bounty times 300 over 10000, rounded down, and
/// the fee and the agent's payment add up to the bounty exactly.
pub proof fn lemma_fee_split(bounty_amount: u64)
    ensures
        fee_of(bounty_amount as int) == bounty_amount * 300 / 10000,
        fee_of(bounty_amount as int) * 10000 <= bounty_amount * 300 < fee_of(bounty_amount as int)
            * 10000 + 10000,
        0 <= fee_of(bounty_amount as int) <= bounty_amount,
        0 <= agent_share_of(bounty_amount as int) <= bounty_amount,
        fee_of(bounty_amount as int) + agent_share_of(bounty_amount as int) == bounty_amount,
{
    let b = bounty_amount as int;
    let f = fee_of(b);
    assert(f == b * 300 / 10000);
    assert(f * 10000 <= b * 300 < f * 10000 + 10000) by (nonlinear_arith)
        requires
            f == b * 300 / 10000,
            b >= 0,
    ;
    assert(0 <= f <= b) by (nonlinear_arith)
        requires
            f * 10000 <= b * 300 < f * 10000 + 10000,
            b >= 0,
    ;
}

/// What the transfers of one operation add to each account's balance.
proof fn lemma_flows(e: TaskEscrow)
    ensures
        net_flow(seq![deposit_transfer(e.authority, e.bounty_amount)], Party::Vault)
            == e.bounty_amount,
        net_flow(seq![deposit_transfer(e.authority, e.bounty_amount)], Party::Poster)
            == -e.bounty_amount,
        net_flow(seq![refund_transfer(e)], Party::Vault) == -e.bounty_amount,
        net_flow(seq![refund_transfer(e)], Party::Poster) == e.bounty_amount,
        net_flow(seq![refund_transfer(e)], Party::Agent) == 0,
        net_flow(seq![refund_transfer(e)], Party::Platform) == 0,
        net_flow(release_transfers(e), Party::Vault) == -e.bounty_amount,
        net_flow(release_transfers(e), Party::Agent) == agent_share_of(e.bounty_amount as int),
        net_flow(release_transfers(e), Party::Platform) == fee_of(e.bounty_amount as int),
        net_flow(release_transfers(e), Party::Poster) == 0,
        net_flow(release_transfers(e).take(1), Party::Vault) == -agent_share_of(
            e.bounty_amount as int,
        ),
{
    reveal_with_fuel(net_flow, 3);
    lemma_fee_split(e.bounty_amount);
    let d = seq![deposit_transfer(e.authority, e.bounty_amount)];
    assert(d.drop_last() =~= Seq::<TokenTransfer>::empty());
    let c = seq![refund_transfer(e)];
    assert(c.drop_last() =~= Seq::<TokenTransfer>::empty());
    let r = release_transfers(e);
    assert(r.drop_last() =~= seq![r[0]]);
    assert(r.take(1) =~= seq![r[0]]);
    assert(seq![r[0]].drop_last() =~= Seq::<TokenTransfer>::empty());
}

/// The vault holds exactly the bounty once the task is created, and nothing
/// once it is completed or cancelled; on the way out it never goes below
/// zero, and each of its debits is authorized by the record alone.
pub proof fn lemma_vault_balance(e: TaskEscrow)
    ensures
        net_flow(seq![deposit_transfer(e.authority, e.bounty_amount)], Party::Vault)
            == e.bounty_amount,
        e.bounty_amount + net_flow(release_transfers(e), Party::Vault) == 0,
        e.bounty_amount + net_flow(seq![refund_transfer(e)], Party::Vault) == 0,
        forall|k: int|
            0 <= k <= 2 ==> e.bounty_amount + net_flow(#[trigger] release_transfers(e).take(k), Party::Vault)
                >= 0,
        vault_debits_by_record(release_transfers(e), e.task_id@, e.bump),
        vault_debits_by_record(seq![refund_transfer(e)], e.task_id@, e.bump),
{
    lemma_flows(e);
    lemma_fee_split(e.bounty_amount);
    let r = release_transfers(e);
    assert(r.take(0) =~= Seq::<TokenTransfer>::empty());
    assert(r.take(2) =~= r);
}

/// Custody: where the record's seeds derive `owner`, every vault debit that
/// a release or a cancellation plans is authorized for the vault owned by
/// `owner` and for no vault with another owner, and the poster's deposit is
/// authorized for no vault at all.
pub proof fn lemma_custody(e: TaskEscrow, program_id: Seq<u8>, owner: Seq<u8>)
    requires
        program_address_of(escrow_seed_seq(e.task_id@, e.bump), program_id) == Some(owner),
    ensures
        forall|i: int|
            0 <= i < 2 ==> debit_authorized(
                (#[trigger] release_transfers(e)[i]).authority,
                owner,
                program_id,
            ),
        debit_authorized(refund_transfer(e).authority, owner, program_id),
        forall|other: Seq<u8>|
            other != owner ==> !debit_authorized(#[trigger] record_authority(e), other, program_id),
        forall|vault: Seq<u8>|
            !debit_authorized(
                #[trigger] deposit_transfer(e.authority, e.bounty_amount).authority,
                vault,
                program_id,
            ),
{
    assert(release_transfers(e)[0].authority == record_authority(e));
    assert(release_transfers(e)[1].authority == record_authority(e));
}

/// A cancellation hands the poster back the whole bounty and takes no fee:
/// neither the agent nor the platform receives anything.
pub proof fn lemma_cancel_refunds_in_full(e: TaskEscrow)
    ensures
        net_flow(seq![refund_transfer(e)], Party::Poster) == e.bounty_amount,
        net_flow(seq![refund_transfer(e)], Party::Agent) == 0,
        net_flow(seq![refund_transfer(e)], Party::Platform) == 0,
{
    lemma_flows(e);
}

/// A release pays the agent the bounty less the fee and the platform the fee,
/// and hands nothing back to the poster.
pub proof fn lemma_release_pays_out(e: TaskEscrow)
    ensures
        net_flow(release_transfers(e), Party::Agent) == agent_share_of(e.bounty_amount as int),
        net_flow(release_transfers(e), Party::Platform) == fee_of(e.bounty_amount as int),
        net_flow(release_transfers(e), Party::Poster) == 0,
{
    lemma_flows(e);
}

} // verus!
