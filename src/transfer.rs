//! Token transfers that an operation asks the ledger to perform.

use vstd::prelude::*;
use crate::key::Pubkey;

verus! {

/// The token accounts that take part in a task's transfers.
#[derive(Clone, Copy, Debug, PartialEq, Eq, Structural)]
pub enum Party {
    /// The poster's token account.
    Poster,
    /// The custody vault bound to the record.
    Vault,
    /// The assigned agent's token account.
    Agent,
    /// The platform's fee account.
    Platform,
}

/// Who authorizes a debit.
#[derive(Clone, Copy, Debug)]
pub enum TransferAuthority {
    /// A person, by signing the operation.
    Signer(Pubkey),
    /// The escrow record, by reproducing its address derivation from the
    /// task identifier and the bump seed; no key is stored anywhere.
    Escrow { task_id: [u8; 32], bump: u8 },
}

/// One debit of `from` and credit of `to`, of `amount` tokens.
#[derive(Clone, Copy, Debug)]
pub struct TokenTransfer {
    pub from: Party,
    pub to: Party,
    pub amount: u64,
    pub authority: TransferAuthority,
}

/// What a sequence of transfers adds to the balance of `p` (negative where
/// it takes away).
pub open spec fn net_flow(ts: Seq<TokenTransfer>, p: Party) -> int
    decreases ts.len(),
{
    if ts.len() == 0 {
        0
    } else {
        let t = ts.last();
        let credit: int = if t.to == p { t.amount as int } else { 0 };
        let debit: int = if t.from == p { t.amount as int } else { 0 };
        net_flow(ts.drop_last(), p) + credit - debit
    }
}

/// Every debit of the vault is authorized by the record with identifier
/// `task_id` and bump `bump`, and by no person.
pub open spec fn vault_debits_by_record(ts: Seq<TokenTransfer>, task_id: Seq<u8>, bump: u8) -> bool {
    forall|i: int|
        0 <= i < ts.len() && #[trigger] ts[i].from == Party::Vault ==> (ts[i].authority matches
            TransferAuthority::Escrow { task_id: id, bump: b } && id@ == task_id && b == bump)
}

} // verus!
