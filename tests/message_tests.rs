use multisig_client::address::Address;
use multisig_client::message::{
    compile_message, decompile, encode_message, to_vault_message, AccountRef, CompileError, Instr,
    LegacyMessage,
};

fn addr(b: u8) -> Address {
    Address { bytes: [b; 32] }
}

fn acc(b: u8, is_signer: bool, is_writable: bool) -> AccountRef {
    AccountRef { address: addr(b), is_signer, is_writable }
}

fn memo_like(program: u8, signer: u8, data: &[u8]) -> Instr {
    Instr { program_id: addr(program), accounts: vec![acc(signer, true, false)], data: data.to_vec() }
}

#[test]
fn compile_then_decompile_gives_back_the_batch() {
    let payer = addr(1);
    let ixs = vec![
        memo_like(50, 2, b"hello"),
        Instr {
            program_id: addr(60),
            accounts: vec![acc(3, false, true), acc(2, false, false), acc(1, false, true)],
            data: vec![9, 8, 7],
        },
    ];
    let m = compile_message(&payer, &ixs).unwrap();
    assert_eq!(m.account_keys[0], payer);
    assert_eq!(m.account_keys.len(), 5);
    assert_eq!(m.num_signers, 2);
    assert_eq!(m.num_writable_signers, 1);
    assert_eq!(m.num_writable_non_signers, 1);
    let back = decompile(&m).unwrap();
    assert_eq!(back.len(), 2);
    for (d, o) in back.iter().zip(ixs.iter()) {
        assert_eq!(d.program_id, o.program_id);
        assert_eq!(d.data, o.data);
        assert_eq!(d.accounts.len(), o.accounts.len());
        for (da, oa) in d.accounts.iter().zip(o.accounts.iter()) {
            assert_eq!(da.address, oa.address);
            assert!(!oa.is_signer || da.is_signer);
            assert!(!oa.is_writable || da.is_writable);
        }
    }
    // Account 2 is a signer in the first instruction, so it is one everywhere.
    assert!(back[1].accounts[1].is_signer);
}

#[test]
fn duplicate_accounts_are_merged() {
    let payer = addr(1);
    let ixs = vec![memo_like(50, 2, b"a"), memo_like(50, 2, b"b")];
    let m = compile_message(&payer, &ixs).unwrap();
    assert_eq!(m.account_keys, vec![addr(1), addr(2), addr(50)]);
    assert_eq!(m.instructions[0].account_indexes, vec![1]);
    assert_eq!(m.instructions[1].account_indexes, vec![1]);
    assert_eq!(m.instructions[1].program_id_index, 2);
}

#[test]
fn empty_batch_compiles_to_the_payer_alone() {
    let m = compile_message(&addr(1), &vec![]).unwrap();
    assert_eq!(m.account_keys, vec![addr(1)]);
    assert!(m.instructions.is_empty());
    assert_eq!(m.num_signers, 1);
    assert_eq!(m.num_writable_signers, 1);
}

#[test]
fn too_many_distinct_accounts_fail() {
    let mut accounts = Vec::new();
    for i in 0..255u32 {
        let mut bytes = [0u8; 32];
        bytes[0] = (i % 256) as u8;
        bytes[1] = 1;
        accounts.push(AccountRef { address: Address { bytes }, is_signer: false, is_writable: false });
    }
    let ix = Instr { program_id: addr(200), accounts, data: vec![] };
    assert_eq!(compile_message(&addr(1), &vec![ix]), Err(CompileError::TooManyAccounts));
}

#[test]
fn exactly_255_distinct_accounts_compile() {
    let mut accounts = Vec::new();
    for i in 0..253u32 {
        let mut bytes = [0u8; 32];
        bytes[0] = i as u8;
        bytes[1] = 1;
        accounts.push(AccountRef { address: Address { bytes }, is_signer: false, is_writable: false });
    }
    let ix = Instr { program_id: addr(200), accounts, data: vec![] };
    let m = compile_message(&addr(1), &vec![ix]).unwrap();
    assert_eq!(m.account_keys.len(), 255);
}

#[test]
fn too_many_instructions_fail() {
    let ixs: Vec<Instr> = (0..256).map(|_| memo_like(50, 2, b"x")).collect();
    assert_eq!(compile_message(&addr(1), &ixs), Err(CompileError::TooManyInstructions));
}

#[test]
fn oversized_instruction_data_fails() {
    let ix = Instr { program_id: addr(50), accounts: vec![], data: vec![0u8; 65536] };
    assert_eq!(compile_message(&addr(1), &vec![ix]), Err(CompileError::InstructionTooLarge));
}

#[test]
fn encoding_is_byte_exact() {
    let payer = addr(1);
    let ixs = vec![memo_like(50, 2, b"hi")];
    let m = compile_message(&payer, &ixs).unwrap();
    let bytes = encode_message(&m);
    let mut expected = vec![2u8, 1, 0, 3];
    expected.extend_from_slice(&[1u8; 32]);
    expected.extend_from_slice(&[2u8; 32]);
    expected.extend_from_slice(&[50u8; 32]);
    expected.extend_from_slice(&[1, 2, 1, 1, 2, 0, b'h', b'i', 0]);
    assert_eq!(bytes, expected);
}

#[test]
fn native_header_is_restated_as_signer_counts() {
    let legacy = LegacyMessage {
        num_required_signatures: 3,
        num_readonly_signed: 1,
        num_readonly_unsigned: 2,
        account_keys: vec![addr(1), addr(2), addr(3), addr(4), addr(5), addr(6)],
        instructions: vec![],
    };
    let m = to_vault_message(legacy);
    assert_eq!(m.num_signers, 3);
    assert_eq!(m.num_writable_signers, 2);
    assert_eq!(m.num_writable_non_signers, 1);
    assert_eq!(m.account_keys.len(), 6);
}
