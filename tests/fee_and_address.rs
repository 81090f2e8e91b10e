use agent_escrow::address::{
    authorizes_vault_debit, escrow_address, escrow_signer_seeds, find_escrow_address,
    find_vault_address,
};
use agent_escrow::fee::{platform_fee, split_bounty, PLATFORM_FEE_BPS};
use agent_escrow::key::Pubkey;
use agent_escrow::transfer::TransferAuthority;

fn program() -> Pubkey {
    Pubkey::new_from_array([42; 32])
}

#[test]
fn fee_is_three_percent_rounded_down() {
    assert_eq!(PLATFORM_FEE_BPS, 300);
    assert_eq!(platform_fee(1000), 30);
    assert_eq!(platform_fee(0), 0);
    assert_eq!(platform_fee(33), 0);
    assert_eq!(platform_fee(34), 1);
    assert_eq!(platform_fee(334), 10);
    assert_eq!(platform_fee(u64::MAX), 553402322211286548);
}

#[test]
fn split_adds_up_to_bounty() {
    for b in [0u64, 1, 33, 34, 999, 1000, 1001, 123456789, u64::MAX] {
        let (fee, agent) = split_bounty(b);
        assert_eq!(fee + agent, b);
        assert_eq!(fee, platform_fee(b));
    }
    assert_eq!(split_bounty(1000), (30, 970));
}

#[test]
fn signer_seeds_hold_label_task_and_bump() {
    let seeds = escrow_signer_seeds(&[5; 32], 253);
    assert_eq!(seeds.len(), 3);
    assert_eq!(seeds[0], b"escrow".to_vec());
    assert_eq!(seeds[1], vec![5u8; 32]);
    assert_eq!(seeds[2], vec![253u8]);
}

#[test]
fn found_escrow_address_is_reproduced_from_its_bump() {
    let task = [5u8; 32];
    let (found, bump) = find_escrow_address(&task, &program()).unwrap();
    assert!(bump >= 1);
    let again = escrow_address(&task, bump, &program()).unwrap();
    assert!(again == found);
    assert!(found != program());
    let other = find_escrow_address(&[6u8; 32], &program()).unwrap().0;
    assert!(other != found);
}

#[test]
fn vault_and_record_addresses_differ() {
    let task = [5u8; 32];
    let (vault, _) = find_vault_address(&task, &program()).unwrap();
    let (record, _) = find_escrow_address(&task, &program()).unwrap();
    assert!(vault != record);
    let (again, _) = find_vault_address(&task, &program()).unwrap();
    assert!(again == vault);
}

#[test]
fn only_the_record_authorizes_vault_debits() {
    let task = [5u8; 32];
    let (record, bump) = find_escrow_address(&task, &program()).unwrap();
    let by_record = TransferAuthority::Escrow { task_id: task, bump };
    assert!(authorizes_vault_debit(&by_record, &record, &program()));
    let other_task = TransferAuthority::Escrow { task_id: [6u8; 32], bump };
    assert!(!authorizes_vault_debit(&other_task, &record, &program()));
    let by_person = TransferAuthority::Signer(record);
    assert!(!authorizes_vault_debit(&by_person, &record, &program()));
}

#[test]
fn keys_compare_by_bytes() {
    let mut bytes = [1u8; 32];
    assert!(Pubkey::new_from_array(bytes) == Pubkey::new_from_array(bytes));
    bytes[31] = 2;
    assert!(Pubkey::new_from_array(bytes) != Pubkey::new_from_array([1u8; 32]));
    assert_eq!(Pubkey::new_from_array(bytes).to_bytes(), bytes);
}
