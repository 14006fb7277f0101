use multisig_client::address::{derive_address, Address, Purpose};
use multisig_client::cli;
use multisig_client::message::{compile_message, encode_message, AccountRef, CompileError, Instr};
use multisig_client::program::{
    current_transaction_index, is_retryable, next_create_step, CreateStep, memo_instruction, next_transaction_index,
    read_multisig_account, ClientError, MultisigProgram,
};
use squads_multisig_program::anchor_lang::AccountSerialize;
use squads_multisig_program::{Member, Multisig, Permissions};
use solana_program::pubkey::Pubkey;

fn addr(b: u8) -> Address {
    Address { bytes: [b; 32] }
}

fn client() -> MultisigProgram {
    MultisigProgram::new(addr(90), addr(91))
}

fn memo_batch() -> Vec<Instr> {
    vec![memo_instruction(&b"Hello, World!".to_vec(), &addr(7))]
}

#[test]
fn memo_instruction_targets_the_memo_program() {
    let ix = memo_instruction(&b"note".to_vec(), &addr(7));
    assert_eq!(ix.program_id.bytes, spl_memo::id().to_bytes());
    assert_eq!(ix.data, b"note".to_vec());
    assert_eq!(ix.accounts.len(), 1);
    assert_eq!(ix.accounts[0].address, addr(7));
    assert!(ix.accounts[0].is_signer);
    assert!(!ix.accounts[0].is_writable);
}

#[test]
fn create_request_holds_transaction_and_proposal() {
    let c = client();
    let req = c.create_transaction_and_proposal(&addr(1), &addr(2), &memo_batch(), 6).unwrap();
    assert_eq!(req.signers, vec![addr(1), addr(2)]);
    assert_eq!(req.instructions.len(), 2);
    let tx = derive_address(&c.multisig, Purpose::Transaction(6), &c.program_id).unwrap().0;
    let proposal = derive_address(&c.multisig, Purpose::Proposal(6), &c.program_id).unwrap().0;
    let vault = derive_address(&c.multisig, Purpose::Vault(0), &c.program_id).unwrap().0;

    let create = &req.instructions[0];
    assert_eq!(create.program_id, addr(90));
    let keys: Vec<Address> = create.accounts.iter().map(|a| a.address).collect();
    assert_eq!(keys, vec![addr(91), tx, addr(1), addr(2), Address { bytes: [0; 32] }]);
    assert!(create.accounts[2].is_signer && !create.accounts[2].is_writable);
    assert!(create.accounts[3].is_signer && create.accounts[3].is_writable);
    let message = encode_message(&compile_message(&vault, &memo_batch()).unwrap());
    let n = message.len();
    assert_eq!(create.data[8..10], [0u8, 0u8]);
    assert_eq!(create.data[10..14], (n as u32).to_le_bytes());
    assert_eq!(create.data[14..14 + n], message[..]);
    assert_eq!(create.data[14 + n..], [0u8]);

    let propose = &req.instructions[1];
    assert_eq!(propose.accounts[1].address, proposal);
    assert!(propose.accounts[1].is_writable);
    assert_eq!(propose.data.len(), 17);
    assert_eq!(propose.data[8..16], 6u64.to_le_bytes());
    assert_eq!(propose.data[16], 0);
}

#[test]
fn approve_request_signed_by_approver_and_payer() {
    let c = client();
    let req = c.approve_proposal(&addr(3), &addr(2), 6).unwrap();
    let proposal = derive_address(&c.multisig, Purpose::Proposal(6), &c.program_id).unwrap().0;
    assert_eq!(req.signers, vec![addr(3), addr(2)]);
    assert_eq!(req.instructions.len(), 1);
    let ix = &req.instructions[0];
    let keys: Vec<Address> = ix.accounts.iter().map(|a| a.address).collect();
    assert_eq!(keys, vec![addr(91), addr(3), proposal]);
    assert!(ix.accounts[1].is_signer);
    assert_eq!(ix.data.len(), 9);
    assert_eq!(ix.data[8], 0);
}

#[test]
fn execute_request_lists_message_accounts() {
    let c = client();
    let req = c.execute_transaction(&addr(1), &addr(2), &addr(7), 6, &memo_batch()).unwrap();
    assert_eq!(req.signers, vec![addr(1), addr(2), addr(7)]);
    let ix = &req.instructions[0];
    let vault = derive_address(&c.multisig, Purpose::Vault(0), &c.program_id).unwrap().0;
    let tx = derive_address(&c.multisig, Purpose::Transaction(6), &c.program_id).unwrap().0;
    let proposal = derive_address(&c.multisig, Purpose::Proposal(6), &c.program_id).unwrap().0;
    assert_eq!(ix.data.len(), 8);
    assert_eq!(ix.accounts.len(), 4 + 3);
    assert_eq!(ix.accounts[1].address, proposal);
    assert_eq!(ix.accounts[2].address, tx);
    assert_eq!(ix.accounts[3].address, addr(1));
    // The vault leads the message keys and is signed for by the program.
    assert_eq!(ix.accounts[4].address, vault);
    assert!(!ix.accounts[4].is_signer && ix.accounts[4].is_writable);
    // The memo's signer must sign the outer transaction.
    assert_eq!(ix.accounts[5].address, addr(7));
    assert!(ix.accounts[5].is_signer && !ix.accounts[5].is_writable);
    assert_eq!(ix.accounts[6].address.bytes, spl_memo::id().to_bytes());
}

#[test]
fn create_requests_are_deterministic_per_index() {
    let c = client();
    let create = c.create_transaction_and_proposal(&addr(1), &addr(2), &memo_batch(), 6).unwrap();
    let again = c.create_transaction_and_proposal(&addr(1), &addr(2), &memo_batch(), 6).unwrap();
    assert_eq!(create, again);
    let other = c.create_transaction_and_proposal(&addr(1), &addr(2), &memo_batch(), 7).unwrap();
    assert_ne!(create.instructions[0].accounts[1], other.instructions[0].accounts[1]);
    assert_ne!(create.instructions[0].data[..8], create.instructions[1].data[..8]);
}

#[test]
fn oversized_batch_fails_before_submission() {
    let c = client();
    let big = Instr { program_id: addr(50), accounts: vec![], data: vec![0u8; 70000] };
    let r = c.create_transaction_and_proposal(&addr(1), &addr(2), &vec![big], 6);
    assert!(matches!(r, Err(ClientError::Compilation(_))));
}

#[test]
fn next_index_is_counter_plus_one() {
    assert_eq!(next_transaction_index(5), Some(6));
    assert_eq!(next_transaction_index(u64::MAX), None);
}

#[test]
fn only_stale_and_network_failures_are_retried() {
    assert!(is_retryable(&ClientError::StaleSequence));
    assert!(is_retryable(&ClientError::Network));
    assert!(!is_retryable(&ClientError::RejectedByProgram));
    assert!(!is_retryable(&ClientError::AddressDerivation));
}

#[test]
fn derived_addresses_are_off_curve() {
    let c = client();
    let vault = derive_address(&c.multisig, Purpose::Vault(0), &c.program_id).unwrap().0;
    assert!(!Pubkey::new_from_array(vault.bytes).is_on_curve());
}

fn multisig_account_bytes(rent_collector: Option<Pubkey>) -> Vec<u8> {
    let account = Multisig {
        create_key: Pubkey::new_from_array([1; 32]),
        config_authority: Pubkey::default(),
        threshold: 2,
        time_lock: 0,
        transaction_index: 5,
        stale_transaction_index: 0,
        rent_collector,
        bump: 255,
        members: vec![
            Member { key: Pubkey::new_from_array([11; 32]), permissions: Permissions { mask: 7 } },
            Member { key: Pubkey::new_from_array([12; 32]), permissions: Permissions { mask: 7 } },
            Member { key: Pubkey::new_from_array([13; 32]), permissions: Permissions { mask: 7 } },
        ],
    };
    let mut data = Vec::new();
    account.try_serialize(&mut data).unwrap();
    data
}

#[test]
fn multisig_account_is_read() {
    for collector in [None, Some(Pubkey::new_from_array([4; 32]))] {
        let data = multisig_account_bytes(collector);
        let account = read_multisig_account(&data).unwrap();
        assert_eq!(account.threshold, 2);
        assert_eq!(account.transaction_index, 5);
        assert_eq!(account.members, vec![addr(11), addr(12), addr(13)]);
        assert_eq!(current_transaction_index(&data), Some(5));
    }
}

#[test]
fn foreign_account_data_is_refused() {
    let mut data = multisig_account_bytes(None);
    data[0] ^= 0xff;
    assert_eq!(current_transaction_index(&data), None);
    assert_eq!(current_transaction_index(&vec![0u8; 4]), None);
}

#[test]
fn retry_decisions_follow_the_failure_kind() {
    assert_eq!(next_create_step(&Ok(()), 1, 3), CreateStep::Done);
    assert_eq!(next_create_step(&Err(ClientError::StaleSequence), 1, 3), CreateStep::Reread);
    assert_eq!(next_create_step(&Err(ClientError::Network), 2, 3), CreateStep::Resubmit);
    assert_eq!(
        next_create_step(&Err(ClientError::StaleSequence), 3, 3),
        CreateStep::GiveUp(ClientError::StaleSequence)
    );
    assert_eq!(
        next_create_step(&Err(ClientError::RejectedByProgram), 1, 3),
        CreateStep::GiveUp(ClientError::RejectedByProgram)
    );
}

#[test]
fn command_create_and_execute_agree_on_the_stored_message() {
    let c = client();
    let members = vec![addr(1), addr(3), addr(4)];
    let create = cli::create_transaction(&c, &members, &addr(2), &addr(7), "Hello, World!", 5).unwrap();
    let execute = cli::execute_transaction(&c, &members, &addr(2), &addr(7), "Hello, World!", 6).unwrap();
    let vault = derive_address(&c.multisig, Purpose::Vault(0), &c.program_id).unwrap().0;
    let batch = cli::memo_batch("Hello, World!", &addr(7));
    assert_eq!(batch[0].program_id.bytes, spl_memo::id().to_bytes());
    let m = compile_message(&vault, &batch).unwrap();
    let stored = encode_message(&m);
    let n = stored.len();
    assert_eq!(create.instructions[0].data[14..14 + n], stored[..]);
    let listed: Vec<Address> = execute.instructions[0].accounts[4..].iter().map(|a| a.address).collect();
    assert_eq!(listed, m.account_keys);
    assert_eq!(create.instructions[1].data[8..16], 6u64.to_le_bytes());
}

#[test]
fn command_create_at_the_counter_limit_is_stale() {
    let c = client();
    let r = cli::create_transaction(&c, &vec![addr(1)], &addr(2), &addr(7), "x", u64::MAX);
    assert_eq!(r, Err(ClientError::StaleSequence));
}

#[test]
fn command_approve_uses_the_chosen_member() {
    let c = client();
    let members = vec![addr(1), addr(3), addr(4)];
    let req = cli::approve_proposal(&c, &members, &addr(2), 6, 2).unwrap();
    assert_eq!(req.signers, vec![addr(4), addr(2)]);
    assert_eq!(req.instructions[0].accounts[1].address, addr(4));
}

#[test]
fn command_with_oversized_memo_fails_to_compile() {
    let c = client();
    let long = "m".repeat(65536);
    let r = cli::create_transaction(&c, &vec![addr(1)], &addr(2), &addr(7), &long, 5);
    assert_eq!(r, Err(ClientError::Compilation(CompileError::InstructionTooLarge)));
    let r = cli::execute_transaction(&c, &vec![addr(1)], &addr(2), &addr(7), &long, 6);
    assert_eq!(r, Err(ClientError::Compilation(CompileError::InstructionTooLarge)));
}

#[test]
fn too_many_accounts_fail_create_and_execute() {
    let c = client();
    let mut accounts = Vec::new();
    for i in 0..255u32 {
        let mut bytes = [0u8; 32];
        bytes[0] = i as u8;
        bytes[1] = 9;
        accounts.push(AccountRef { address: Address { bytes }, is_signer: false, is_writable: false });
    }
    let batch = vec![Instr { program_id: addr(50), accounts, data: vec![] }];
    let expected = Err(ClientError::Compilation(CompileError::TooManyAccounts));
    assert_eq!(c.create_transaction_and_proposal(&addr(1), &addr(2), &batch, 6), expected);
    assert_eq!(c.execute_transaction(&addr(1), &addr(2), &addr(7), 6, &batch), expected);
}
