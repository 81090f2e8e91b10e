//! Deterministic addresses of a task's record and vault, and the record's
//! key-less authority over its vault.
//!
//! Both addresses are derived from the task identifier and a fixed label, so
//! anyone can recompute them from the identifier alone. The record signs for
//! its vault by presenting the seeds of its own address, bump included: the
//! runtime accepts a debit only where those seeds derive the vault's owner.

use vstd::prelude::*;
use crate::key::Pubkey;
use crate::transfer::TransferAuthority;

verus! {

/// Label mixed into the escrow record's address derivation.
pub const ESCROW_SEED: [u8; 6] = [101, 115, 99, 114, 111, 119];

/// Label mixed into the custody vault's address derivation.
pub const VAULT_SEED: [u8; 5] = [118, 97, 117, 108, 116];

/// The address that program address derivation gives for `seeds` under
/// `program_id`, or none where the hashed point lies on the curve.
pub uninterp spec fn program_address_of(seeds: Seq<Seq<u8>>, program_id: Seq<u8>) -> Option<
    Seq<u8>,
>;

/// The seeds of the escrow record's address, without the bump.
pub open spec fn escrow_base_seeds(task_id: Seq<u8>) -> Seq<Seq<u8>> {
    seq![ESCROW_SEED@, task_id]
}

/// The seeds of the escrow record's address, bump included.
pub open spec fn escrow_seed_seq(task_id: Seq<u8>, bump: u8) -> Seq<Seq<u8>> {
    escrow_base_seeds(task_id).push(seq![bump])
}

/// The seeds of the custody vault's address, without the bump.
pub open spec fn vault_base_seeds(task_id: Seq<u8>) -> Seq<Seq<u8>> {
    seq![VAULT_SEED@, task_id]
}

/// The byte strings that a list of seed vectors holds.
pub open spec fn seeds_view(seeds: Seq<Vec<u8>>) -> Seq<Seq<u8>> {
    seeds.map_values(|s: Vec<u8>| s@)
}

/// Relies on `Pubkey::create_program_address` (solana-program, through
/// anchor-lang): for at most 16 seeds of at most 32 bytes it hashes them with
/// the program id and returns that address, or an error where it lies on the
/// curve; nothing but the seeds and the program id decides the result.
#[verifier::external_body]
fn create_program_address(seeds: &Vec<Vec<u8>>, program_id: &Pubkey) -> (r: Option<Pubkey>)
    requires
        seeds.len() <= 16,
        forall|i: int| 0 <= i < seeds.len() ==> #[trigger] seeds[i].len() <= 32,
    ensures
        r matches Some(k) ==> program_address_of(seeds_view(seeds@), program_id@) == Some(k@),
        r is None ==> program_address_of(seeds_view(seeds@), program_id@) is None,
{
    let slices: Vec<&[u8]> = seeds.iter().map(|s| s.as_slice()).collect();
    let program = anchor_lang::solana_program::pubkey::Pubkey::new_from_array(program_id.bytes);
    anchor_lang::solana_program::pubkey::Pubkey::create_program_address(&slices, &program)
        .ok()
        .map(|k| Pubkey { bytes: k.to_bytes() })
}

/// Relies on `Pubkey::try_find_program_address` (solana-program, through
/// anchor-lang): off-chain it tries the bumps from 255 down to 1, appending
/// each to the seeds as one more one-byte seed, and returns the first address
/// that `create_program_address` accepts with its bump, or none if no bump
/// gives one.
#[verifier::external_body]
fn try_find_program_address(seeds: &Vec<Vec<u8>>, program_id: &Pubkey) -> (r: Option<(Pubkey, u8)>)
    requires
        seeds.len() <= 15,
        forall|i: int| 0 <= i < seeds.len() ==> #[trigger] seeds[i].len() <= 32,
    ensures
        r matches Some((k, bump)) ==> {
            &&& bump >= 1
            &&& program_address_of(seeds_view(seeds@).push(seq![bump]), program_id@) == Some(k@)
            &&& forall|b: u8|
                bump < b ==> (#[trigger] program_address_of(
                    seeds_view(seeds@).push(seq![b]),
                    program_id@,
                )) is None
        },
        r is None ==> forall|b: u8|
            1 <= b ==> (#[trigger] program_address_of(
                seeds_view(seeds@).push(seq![b]),
                program_id@,
            )) is None,
{
    let slices: Vec<&[u8]> = seeds.iter().map(|s| s.as_slice()).collect();
    let program = anchor_lang::solana_program::pubkey::Pubkey::new_from_array(program_id.bytes);
    anchor_lang::solana_program::pubkey::Pubkey::try_find_program_address(&slices, &program)
        .map(|(k, bump)| (Pubkey { bytes: k.to_bytes() }, bump))
}

/// Copies bytes into a new vector.
fn bytes_to_vec(b: &[u8]) -> (r: Vec<u8>)
    ensures
        r@ == b@,
{
    let mut r: Vec<u8> = Vec::new();
    let mut i: usize = 0;
    while i < b.len()
        invariant
            i <= b.len(),
            r@ == b@.subrange(0, i as int),
        decreases b.len() - i,
    {
        r.push(b[i]);
        i = i + 1;
    }
    proof {
        assert(r@ =~= b@);
    }
    r
}

/// The seeds of the escrow record's address for `task_id`, without the bump.
fn escrow_base_seed_vecs(task_id: &[u8; 32]) -> (r: Vec<Vec<u8>>)
    ensures
        seeds_view(r@) == escrow_base_seeds(task_id@),
        r.len() == 2,
        r[0].len() == 6,
        r[1].len() == 32,
{
    let mut r: Vec<Vec<u8>> = Vec::new();
    r.push(bytes_to_vec(&ESCROW_SEED));
    r.push(bytes_to_vec(task_id));
    proof {
        assert(seeds_view(r@) =~= escrow_base_seeds(task_id@));
    }
    r
}

/// The signer seeds with which the record authorizes a debit of its vault:
/// its own address seeds, bump included.
pub fn escrow_signer_seeds(task_id: &[u8; 32], bump: u8) -> (r: Vec<Vec<u8>>)
    ensures
        seeds_view(r@) == escrow_seed_seq(task_id@, bump),
        r.len() == 3,
        forall|i: int| 0 <= i < r.len() ==> #[trigger] r[i].len() <= 32,
{
    let mut r = escrow_base_seed_vecs(task_id);
    let mut last: Vec<u8> = Vec::new();
    last.push(bump);
    r.push(last);
    proof {
        assert(last@ =~= seq![bump]);
        assert(seeds_view(r@) =~= escrow_seed_seq(task_id@, bump));
    }
    r
}

/// The escrow record's address for `task_id` and `bump` under `program_id`,
/// or none where those seeds derive no address.
pub fn escrow_address(task_id: &[u8; 32], bump: u8, program_id: &Pubkey) -> (r: Option<Pubkey>)
    ensures
        r matches Some(k) ==> program_address_of(escrow_seed_seq(task_id@, bump), program_id@)
            == Some(k@),
        r is None ==> program_address_of(escrow_seed_seq(task_id@, bump), program_id@) is None,
{
    let seeds = escrow_signer_seeds(task_id, bump);
    create_program_address(&seeds, program_id)
}

/// Finds the escrow record's address for `task_id` under `program_id`, and
/// the bump that completes it: the highest bump that derives an address.
pub fn find_escrow_address(task_id: &[u8; 32], program_id: &Pubkey) -> (r: Option<(Pubkey, u8)>)
    ensures
        r matches Some((k, bump)) ==> {
            &&& program_address_of(escrow_seed_seq(task_id@, bump), program_id@) == Some(k@)
            &&& forall|b: u8|
                bump < b ==> (#[trigger] program_address_of(
                    escrow_seed_seq(task_id@, b),
                    program_id@,
                )) is None
        },
        r is None ==> forall|b: u8|
            1 <= b ==> (#[trigger] program_address_of(
                escrow_seed_seq(task_id@, b),
                program_id@,
            )) is None,
{
    let seeds = escrow_base_seed_vecs(task_id);
    try_find_program_address(&seeds, program_id)
}

/// Finds the custody vault's address for `task_id` under `program_id`, and
/// the bump that completes it: the highest bump that derives an address.
pub fn find_vault_address(task_id: &[u8; 32], program_id: &Pubkey) -> (r: Option<(Pubkey, u8)>)
    ensures
        r matches Some((k, bump)) ==> {
            &&& program_address_of(vault_base_seeds(task_id@).push(seq![bump]), program_id@)
                == Some(k@)
            &&& forall|b: u8|
                bump < b ==> (#[trigger] program_address_of(
                    vault_base_seeds(task_id@).push(seq![b]),
                    program_id@,
                )) is None
        },
        r is None ==> forall|b: u8|
            1 <= b ==> (#[trigger] program_address_of(
                vault_base_seeds(task_id@).push(seq![b]),
                program_id@,
            )) is None,
{
    let mut seeds: Vec<Vec<u8>> = Vec::new();
    seeds.push(bytes_to_vec(&VAULT_SEED));
    seeds.push(bytes_to_vec(task_id));
    proof {
        assert(seeds_view(seeds@) =~= vault_base_seeds(task_id@));
    }
    try_find_program_address(&seeds, program_id)
}

/// The record with identifier `task_id` and bump `bump` owns the vault
/// `vault_owner` exactly when its seeds derive that address; a person's
/// signature never authorizes a vault debit.
pub open spec fn debit_authorized(
    authority: TransferAuthority,
    vault_owner: Seq<u8>,
    program_id: Seq<u8>,
) -> bool {
    match authority {
        TransferAuthority::Signer(_) => false,
        TransferAuthority::Escrow { task_id, bump } => program_address_of(
            escrow_seed_seq(task_id@, bump),
            program_id,
        ) == Some(vault_owner),
    }
}

/// Tells whether `authority` may debit a vault whose owner is `vault_owner`:
/// only the record itself may, by presenting seeds that derive that owner.
/// No person's signature ever authorizes a vault debit.
pub fn authorizes_vault_debit(
    authority: &TransferAuthority,
    vault_owner: &Pubkey,
    program_id: &Pubkey,
) -> (r: bool)
    ensures
        r == debit_authorized(*authority, vault_owner@, program_id@),
{
    match authority {
        TransferAuthority::Signer(_) => false,
        TransferAuthority::Escrow { task_id, bump } => {
            match escrow_address(task_id, *bump, program_id) {
                Some(k) => {
                    proof {
                        if k@ == vault_owner@ {
                            assert(k.bytes == vault_owner.bytes);
                        }
                    }
                    k == *vault_owner
                },
                None => false,
            }
        },
    }
}

} // verus!
