use multisig_client::address::{derive_address, seeds_for, Address, Purpose};
use solana_program::pubkey::Pubkey;

fn addr(b: u8) -> Address {
    Address { bytes: [b; 32] }
}

fn ledger(a: &Address) -> Pubkey {
    Pubkey::new_from_array(a.bytes)
}

#[test]
fn transaction_seeds_use_little_endian_index() {
    let seeds = seeds_for(&addr(7), Purpose::Transaction(0x0102));
    assert_eq!(seeds.len(), 4);
    assert_eq!(seeds[0], b"multisig".to_vec());
    assert_eq!(seeds[1], vec![7u8; 32]);
    assert_eq!(seeds[2], b"transaction".to_vec());
    assert_eq!(seeds[3], vec![2u8, 1, 0, 0, 0, 0, 0, 0]);
}

#[test]
fn proposal_and_vault_seeds() {
    let p = seeds_for(&addr(1), Purpose::Proposal(6));
    assert_eq!(p.len(), 5);
    assert_eq!(p[2], b"transaction".to_vec());
    assert_eq!(p[3], vec![6u8, 0, 0, 0, 0, 0, 0, 0]);
    assert_eq!(p[4], b"proposal".to_vec());
    let v = seeds_for(&addr(1), Purpose::Vault(0));
    assert_eq!(v, vec![b"multisig".to_vec(), vec![1u8; 32], b"vault".to_vec(), vec![0u8]]);
}

#[test]
fn derivation_matches_the_ledger_library() {
    let multisig = addr(3);
    let program = addr(9);
    let (a, bump) = derive_address(&multisig, Purpose::Transaction(6), &program).unwrap();
    let (expected, expected_bump) = Pubkey::find_program_address(
        &[b"multisig", &multisig.bytes, b"transaction", &6u64.to_le_bytes()],
        &ledger(&program),
    );
    assert_eq!(a.bytes, expected.to_bytes());
    assert_eq!(bump, expected_bump);
    assert_ne!(a, multisig);
    assert_ne!(a, program);
}

#[test]
fn derivation_is_deterministic() {
    let m = addr(4);
    let p = addr(5);
    let a = derive_address(&m, Purpose::Proposal(11), &p);
    let b = derive_address(&m, Purpose::Proposal(11), &p);
    assert_eq!(a, b);
}

#[test]
fn derivation_separates_each_seed_component() {
    let m = addr(4);
    let p = addr(5);
    let base = derive_address(&m, Purpose::Transaction(6), &p).unwrap().0;
    let other_index = derive_address(&m, Purpose::Transaction(7), &p).unwrap().0;
    let other_tag = derive_address(&m, Purpose::Proposal(6), &p).unwrap().0;
    let other_multisig = derive_address(&addr(8), Purpose::Transaction(6), &p).unwrap().0;
    let vault = derive_address(&m, Purpose::Vault(0), &p).unwrap().0;
    assert_ne!(base, other_index);
    assert_ne!(base, other_tag);
    assert_ne!(base, other_multisig);
    assert_ne!(base, vault);
}
