//! The four lifecycle requests against the multisig program: create a vault
//! transaction together with its proposal, approve a proposal, and execute an
//! approved vault transaction. Each request is the instructions to submit as
//! one ledger transaction and the identities that must sign it.

use crate::address::{
    Address,
    Purpose,
    derive_address,
    le_bytes,
    program_address_of,
    seed_list,
};
use crate::message::{
    compile_error_of,
    compiled_message_of,
    AccountRef,
    AccountRefView,
    CompileError,
    CompiledMessage,
    Instr,
    InstrView,
    compile_message,
    encode_message,
    faithful,
    instruction_bytes,
    instructions_bytes,
    is_signer_index,
    is_writable_index,
    keys_bytes,
    message_bytes,
    representable,
    well_formed,
};
use squads_multisig_program::anchor_lang::{AccountDeserialize, InstructionData, ToAccountMetas};
use solana_program::instruction::Instruction;
use solana_program::pubkey::Pubkey;
use solana_program::system_program;
use squads_multisig_program::{Multisig, ProposalCreateArgs, ProposalVoteArgs, VaultTransactionCreateArgs};
use vstd::prelude::*;
use vstd::string::StringSliceAdditionalSpecFns;

verus! {

/// The 8-byte discriminator that the program's interface puts in front of
/// the arguments of the instruction with the given name.
pub uninterp spec fn instruction_discriminator(name: Seq<char>) -> Seq<u8>;

/// The address of the ledger's system program: 32 zero bytes.
pub open spec fn system_program_id() -> Seq<u8> {
    Seq::new(32, |_i: int| 0u8)
}

/// The four little-endian bytes of `n`.
pub open spec fn u32_le(n: nat) -> Seq<u8> {
    seq![(n % 256) as u8, ((n / 256) % 256) as u8, ((n / 65536) % 256) as u8, (n / 16777216) as u8]
}

/// The borsh encoding of an optional memo string, given its bytes.
pub open spec fn memo_arg_bytes(memo: Option<Seq<u8>>) -> Seq<u8> {
    match memo {
        None => seq![0u8],
        Some(b) => seq![1u8] + u32_le(b.len()) + b,
    }
}

pub open spec fn memo_arg_view(memo: Option<&str>) -> Option<Seq<u8>> {
    match memo {
        None => None,
        Some(s) => Some(s.spec_bytes()),
    }
}

pub open spec fn memo_arg_fits(memo: Option<&str>) -> bool {
    match memo {
        None => true,
        Some(s) => s.spec_bytes().len() <= u32::MAX,
    }
}

/// Instruction that creates the vault transaction at `transaction`, storing
/// `message` for vault `vault_index` with `ephemeral_signers` ephemeral
/// signers and an optional memo.
pub open spec fn vault_transaction_create_view(
    program: Seq<u8>,
    multisig: Seq<u8>,
    transaction: Seq<u8>,
    creator: Seq<u8>,
    rent_payer: Seq<u8>,
    vault_index: u8,
    ephemeral_signers: u8,
    message: Seq<u8>,
    memo: Option<Seq<u8>>,
) -> InstrView {
    InstrView {
        program_id: program,
        accounts: seq![
            (multisig, false, true),
            (transaction, false, true),
            (creator, true, false),
            (rent_payer, true, true),
            (system_program_id(), false, false),
        ],
        data: instruction_discriminator("vault_transaction_create"@) + seq![
            vault_index,
            ephemeral_signers,
        ] + u32_le(message.len()) + message + memo_arg_bytes(memo),
    }
}

/// Instruction that creates the proposal at `proposal` for
/// `transaction_index`, as a draft or open for votes.
pub open spec fn proposal_create_view(
    program: Seq<u8>,
    multisig: Seq<u8>,
    proposal: Seq<u8>,
    creator: Seq<u8>,
    rent_payer: Seq<u8>,
    transaction_index: u64,
    draft: bool,
) -> InstrView {
    InstrView {
        program_id: program,
        accounts: seq![
            (multisig, false, false),
            (proposal, false, true),
            (creator, true, false),
            (rent_payer, true, true),
            (system_program_id(), false, false),
        ],
        data: instruction_discriminator("proposal_create"@) + le_bytes(transaction_index) + seq![
            if draft {
                1u8
            } else {
                0u8
            },
        ],
    }
}

/// Instruction that records `member`'s approval on `proposal`, with an
/// optional memo.
pub open spec fn proposal_approve_view(
    program: Seq<u8>,
    multisig: Seq<u8>,
    member: Seq<u8>,
    proposal: Seq<u8>,
    memo: Option<Seq<u8>>,
) -> InstrView {
    InstrView {
        program_id: program,
        accounts: seq![(multisig, false, false), (member, true, true), (proposal, false, true)],
        data: instruction_discriminator("proposal_approve"@) + memo_arg_bytes(memo),
    }
}

/// Instruction that executes the vault transaction at `transaction`, before
/// the accounts that its stored message refers to are appended.
pub open spec fn vault_transaction_execute_view(
    program: Seq<u8>,
    multisig: Seq<u8>,
    proposal: Seq<u8>,
    transaction: Seq<u8>,
    member: Seq<u8>,
) -> InstrView {
    InstrView {
        program_id: program,
        accounts: seq![
            (multisig, false, false),
            (proposal, false, true),
            (transaction, false, false),
            (member, true, false),
        ],
        data: instruction_discriminator("vault_transaction_execute"@),
    }
}

#[verifier::external_type_specification]
#[verifier::external_body]
pub struct ExPubkey(Pubkey);

/// Hands an address to the ledger library as its `Pubkey`.
#[verifier::external_body]
fn to_pubkey(a: &Address) -> Pubkey {
    Pubkey::new_from_array(a.bytes)
}

/// Reads a ledger instruction back into the library's own type, field by field.
#[verifier::external_body]
fn from_ledger_instruction(ix: Instruction) -> Instr {
    Instr {
        program_id: Address { bytes: ix.program_id.to_bytes() },
        accounts: ix.accounts.iter().map(
            |m| AccountRef { address: Address { bytes: m.pubkey.to_bytes() }, is_signer: m.is_signer, is_writable: m.is_writable },
        ).collect(),
        data: ix.data,
    }
}

/// Relies on the program's generated client types:
/// `accounts::VaultTransactionCreate::to_account_metas` lists the accounts in
/// field order with the roles their constraints give, and
/// `instruction::VaultTransactionCreate::data` writes the discriminator and
/// then the borsh encoding of the arguments. Borsh refuses, with a panic, a
/// byte vector longer than `u32::MAX`.
#[verifier::external_body]
fn vault_transaction_create_instruction(
    program: &Address,
    multisig: &Address,
    transaction: &Address,
    creator: &Address,
    rent_payer: &Address,
    vault_index: u8,
    ephemeral_signers: u8,
    message: &Vec<u8>,
    memo: Option<&str>,
) -> (r: Instr)
    requires
        message@.len() <= u32::MAX,
        memo_arg_fits(memo),
    ensures
        r@ == vault_transaction_create_view(
            program@,
            multisig@,
            transaction@,
            creator@,
            rent_payer@,
            vault_index,
            ephemeral_signers,
            message@,
            memo_arg_view(memo),
        ),
{
    let accounts = squads_multisig_program::accounts::VaultTransactionCreate {
        multisig: to_pubkey(multisig), transaction: to_pubkey(transaction), creator: to_pubkey(creator),
        rent_payer: to_pubkey(rent_payer), system_program: system_program::ID,
    }.to_account_metas(None);
    let args = VaultTransactionCreateArgs { vault_index, ephemeral_signers, transaction_message: message.clone(), memo: memo.map(String::from) };
    let data = squads_multisig_program::instruction::VaultTransactionCreate { args }.data();
    from_ledger_instruction(Instruction { program_id: to_pubkey(program), accounts, data })
}

/// Relies on `accounts::ProposalCreate::to_account_metas` (accounts in field
/// order with their constraints' roles) and `instruction::ProposalCreate::data`
/// (discriminator, then the borsh encoding of the arguments).
#[verifier::external_body]
fn proposal_create_instruction(
    program: &Address,
    multisig: &Address,
    proposal: &Address,
    creator: &Address,
    rent_payer: &Address,
    transaction_index: u64,
    draft: bool,
) -> (r: Instr)
    ensures
        r@ == proposal_create_view(
            program@,
            multisig@,
            proposal@,
            creator@,
            rent_payer@,
            transaction_index,
            draft,
        ),
{
    let accounts = squads_multisig_program::accounts::ProposalCreate {
        multisig: to_pubkey(multisig), proposal: to_pubkey(proposal), creator: to_pubkey(creator),
        rent_payer: to_pubkey(rent_payer), system_program: system_program::ID,
    }.to_account_metas(None);
    let args = ProposalCreateArgs { transaction_index, draft };
    let data = squads_multisig_program::instruction::ProposalCreate { args }.data();
    from_ledger_instruction(Instruction { program_id: to_pubkey(program), accounts, data })
}

/// Relies on `accounts::ProposalVote::to_account_metas` (accounts in field
/// order with their constraints' roles) and `instruction::ProposalApprove::data`
/// (discriminator, then the borsh encoding of an absent memo).
#[verifier::external_body]
fn proposal_approve_instruction(
    program: &Address,
    multisig: &Address,
    member: &Address,
    proposal: &Address,
    memo: Option<&str>,
) -> (r: Instr)
    requires
        memo_arg_fits(memo),
    ensures
        r@ == proposal_approve_view(program@, multisig@, member@, proposal@, memo_arg_view(memo)),
{
    let accounts = squads_multisig_program::accounts::ProposalVote {
        multisig: to_pubkey(multisig), member: to_pubkey(member), proposal: to_pubkey(proposal),
    }.to_account_metas(None);
    let args = ProposalVoteArgs { memo: memo.map(String::from) };
    let data = squads_multisig_program::instruction::ProposalApprove { args }.data();
    from_ledger_instruction(Instruction { program_id: to_pubkey(program), accounts, data })
}

/// Relies on `accounts::VaultTransactionExecute::to_account_metas` (accounts
/// in field order with their constraints' roles) and
/// `instruction::VaultTransactionExecute::data` (the discriminator alone).
#[verifier::external_body]
fn vault_transaction_execute_instruction(
    program: &Address,
    multisig: &Address,
    proposal: &Address,
    transaction: &Address,
    member: &Address,
) -> (r: Instr)
    ensures
        r.program_id@ == program@,
        r@.accounts == vault_transaction_execute_view(
            program@,
            multisig@,
            proposal@,
            transaction@,
            member@,
        ).accounts,
        r.data@ == instruction_discriminator("vault_transaction_execute"@),
{
    let accounts = squads_multisig_program::accounts::VaultTransactionExecute {
        multisig: to_pubkey(multisig), proposal: to_pubkey(proposal), transaction: to_pubkey(transaction),
        member: to_pubkey(member),
    }.to_account_metas(None);
    let data = squads_multisig_program::instruction::VaultTransactionExecute {}.data();
    from_ledger_instruction(Instruction { program_id: to_pubkey(program), accounts, data })
}

/// The memo program's address, `MemoSq4gqABAXKb96qnH8TysNcWxMyWCqXgDLGmfcHr`.
pub open spec fn memo_program_id() -> Seq<u8> {
    seq![
        5u8, 74u8, 83u8, 90u8, 153u8, 41u8, 33u8, 6u8, 77u8, 36u8, 232u8, 113u8, 96u8, 218u8, 56u8,
        124u8, 124u8, 53u8, 181u8, 221u8, 188u8, 146u8, 187u8, 129u8, 228u8, 31u8, 168u8, 64u8,
        65u8, 5u8, 68u8, 141u8,
    ]
}

/// Relies on `spl_memo::build_memo`: an instruction of the memo program
/// (`spl_memo::id()`) that
/// lists each signer, in order, as a read-only signer and carries the memo
/// bytes as its data.
#[verifier::external_body]
fn build_memo(memo: &Vec<u8>, signers: &Vec<Address>) -> (r: Instr)
    ensures
        r.program_id@ == memo_program_id(),
        r@.accounts == signers@.map_values(|a: Address| (a@, true, false)),
        r.data@ == memo@,
{
    let keys: Vec<Pubkey> = signers.iter().map(to_pubkey).collect();
    let refs: Vec<&Pubkey> = keys.iter().collect();
    from_ledger_instruction(spl_memo::build_memo(memo.as_slice(), &refs))
}

/// A memo instruction that records `memo` and must be signed by `signer`.
pub fn memo_instruction(memo: &Vec<u8>, signer: &Address) -> (r: Instr)
    ensures
        r.program_id@ == memo_program_id(),
        r@.accounts == seq![(signer@, true, false)],
        r.data@ == memo@,
{
    let signers = vec![*signer];
    let r = build_memo(memo, &signers);
    assert(r@.accounts =~= seq![(signer@, true, false)]);
    r
}

/// What the client reads from the multisig account: its threshold, the index
/// of the last vault transaction created, and the members' addresses.
#[derive(Clone, Debug, PartialEq, Eq)]
pub struct MultisigAccount {
    pub threshold: u16,
    pub transaction_index: u64,
    pub members: Vec<Address>,
}

/// The account data carries the multisig account's discriminator and a
/// complete encoding of its fields.
pub uninterp spec fn is_multisig_account(data: Seq<u8>) -> bool;

/// Where the members list begins: after the optional rent collector and the bump.
pub open spec fn members_offset(data: Seq<u8>) -> int {
    if data[94] == 0 {
        96
    } else {
        128
    }
}

/// Relies on `AccountDeserialize::try_deserialize` for the program's
/// `Multisig` account: it checks the 8-byte discriminator, then reads the
/// fields in order with borsh (create key, config authority, threshold, time
/// lock, transaction index, stale index, optional rent collector, bump,
/// members of a key and a permission byte each).
#[verifier::external_body]
fn decode_multisig_account(data: &Vec<u8>) -> (r: Option<MultisigAccount>)
    ensures
        r is Some <==> is_multisig_account(data@),
        r is Some ==> {
            let a = r->Some_0;
            let s = members_offset(data@);
            &&& data@.len() >= 96
            &&& (data@[94] == 0 || data@[94] == 1)
            &&& a.threshold as int == data@[72] as int + 256 * data@[73] as int
            &&& le_bytes(a.transaction_index) == data@.subrange(78, 86)
            &&& data@.len() >= s + 4 + 33 * a.members@.len()
            &&& u32_le(a.members@.len()) == data@.subrange(s, s + 4)
            &&& forall|i: int|
                0 <= i < a.members@.len() ==> (#[trigger] a.members@[i])@ == data@.subrange(
                    s + 4 + 33 * i,
                    s + 4 + 33 * i + 32,
                )
        },
{
    let account = Multisig::try_deserialize(&mut data.as_slice()).ok()?;
    Some(MultisigAccount {
        threshold: account.threshold,
        transaction_index: account.transaction_index,
        members: account.members.iter().map(|m| Address { bytes: m.key.to_bytes() }).collect(),
    })
}

/// Reads the multisig account's data; `None` where it is not such an account.
pub fn read_multisig_account(data: &Vec<u8>) -> (r: Option<MultisigAccount>)
    ensures
        r is Some <==> is_multisig_account(data@),
        r is Some ==> le_bytes(r->Some_0.transaction_index) == data@.subrange(78, 86),
        r is Some ==> r->Some_0.threshold as int == data@[72] as int + 256 * data@[73] as int,
        r is Some ==> data@.len() >= members_offset(data@) + 4 + 33 * r->Some_0.members@.len(),
        r is Some ==> data@[94] == 0 || data@[94] == 1,
        r is Some ==> u32_le(r->Some_0.members@.len()) == data@.subrange(
            members_offset(data@),
            members_offset(data@) + 4,
        ),
        r is Some ==> forall|i: int|
            0 <= i < r->Some_0.members@.len() ==> (#[trigger] r->Some_0.members@[i])@
                == data@.subrange(
                members_offset(data@) + 4 + 33 * i,
                members_offset(data@) + 4 + 33 * i + 32,
            ),
{
    decode_multisig_account(data)
}

/// The last transaction index recorded in the multisig account's data;
/// `None` where it is not such an account.
pub fn current_transaction_index(data: &Vec<u8>) -> (r: Option<u64>)
    ensures
        r is Some <==> is_multisig_account(data@),
        r is Some ==> le_bytes(r->Some_0) == data@.subrange(78, 86),
{
    match decode_multisig_account(data) {
        Some(a) => Some(a.transaction_index),
        None => None,
    }
}

/// The index to create the next vault transaction at, given the counter read
/// from the multisig account; `None` where the counter cannot advance.
pub fn next_transaction_index(current: u64) -> (r: Option<u64>)
    ensures
        current < u64::MAX ==> r == Some((current + 1) as u64),
        current == u64::MAX ==> r is None,
{
    if current < u64::MAX {
        Some(current + 1)
    } else {
        None
    }
}

proof fn lemma_keys_bytes_len(keys: Seq<Address>)
    ensures
        keys_bytes(keys).len() == 32 * keys.len(),
    decreases keys.len(),
{
    if keys.len() > 0 {
        lemma_keys_bytes_len(keys.drop_last());
    }
}

proof fn lemma_instructions_bytes_len(cs: Seq<crate::message::CompiledInstruction>)
    requires
        forall|k: int|
            0 <= k < cs.len() ==> {
                &&& (#[trigger] cs[k]).account_indexes@.len() <= 255
                &&& cs[k].data@.len() <= 65535
            },
    ensures
        instructions_bytes(cs).len() <= 65794 * cs.len(),
    decreases cs.len(),
{
    if cs.len() > 0 {
        let c = cs.last();
        assert(c == cs[cs.len() - 1]);
        lemma_instructions_bytes_len(cs.drop_last());
        assert(instruction_bytes(c).len() <= 65794);
    }
}

/// A well-formed message encodes to fewer than 2^32 bytes.
proof fn lemma_message_bytes_fit(m: CompiledMessage)
    requires
        well_formed(m),
    ensures
        message_bytes(m).len() <= u32::MAX,
{
    lemma_keys_bytes_len(m.account_keys@);
    lemma_instructions_bytes_len(m.instructions@);
    let n = m.instructions@.len();
    assert(65794 * n <= 65794 * 255) by (nonlinear_arith)
        requires
            n <= 255,
    ;
}

/// Failures of a lifecycle operation.
#[derive(Clone, Copy, Debug, PartialEq, Eq)]
pub enum ClientError {
    /// No bump yields a program-derived address for a seed list.
    AddressDerivation,
    /// The instruction batch cannot be compiled; raised before any submission.
    Compilation(CompileError),
    /// The transaction index no longer follows the on-chain counter.
    StaleSequence,
    /// The program refused the submission.
    RejectedByProgram,
    /// A transient failure of the network.
    Network,
}

pub open spec fn is_retryable_spec(e: ClientError) -> bool {
    e is StaleSequence || e is Network
}

/// Whether the caller may try again: a stale index after re-reading the
/// counter, a network failure with the same submission. The others are final.
pub fn is_retryable(e: &ClientError) -> (r: bool)
    ensures
        r == is_retryable_spec(*e),
{
    match e {
        ClientError::StaleSequence | ClientError::Network => true,
        _ => false,
    }
}

/// Classifies a refused creation by the counter read before it and after it:
/// a counter that moved means another member took the index.
pub fn classify_create_failure(index_before: u64, index_after: u64) -> (r: ClientError)
    ensures
        index_after != index_before ==> r == ClientError::StaleSequence,
        index_after == index_before ==> r == ClientError::RejectedByProgram,
{
    if index_after != index_before {
        ClientError::StaleSequence
    } else {
        ClientError::RejectedByProgram
    }
}

/// What to do after an attempt to submit a creation.
#[derive(Clone, Copy, Debug, PartialEq, Eq)]
pub enum CreateStep {
    /// The creation went through.
    Done,
    /// Read the counter again and retry at the index after it.
    Reread,
    /// Submit the same request again.
    Resubmit,
    /// Stop and report the failure.
    GiveUp(ClientError),
}

/// Decides the step after attempt number `attempts` (counting from one) of a
/// creation, at most `max_attempts` attempts in all: a stale index is retried
/// after re-reading the counter, a network failure with the same request,
/// and any other failure, or one past the bound, is reported.
pub fn next_create_step(outcome: &Result<(), ClientError>, attempts: u32, max_attempts: u32) -> (r:
    CreateStep)
    ensures
        outcome is Ok ==> r == CreateStep::Done,
        outcome is Err && attempts >= max_attempts ==> r == CreateStep::GiveUp(outcome->Err_0),
        outcome is Err && attempts < max_attempts && outcome->Err_0 is StaleSequence ==> r
            == CreateStep::Reread,
        outcome is Err && attempts < max_attempts && outcome->Err_0 is Network ==> r
            == CreateStep::Resubmit,
        outcome is Err && !is_retryable_spec(outcome->Err_0) ==> r == CreateStep::GiveUp(
            outcome->Err_0,
        ),
{
    match outcome {
        Ok(()) => CreateStep::Done,
        Err(e) => {
            if attempts >= max_attempts {
                CreateStep::GiveUp(*e)
            } else {
                match e {
                    ClientError::StaleSequence => CreateStep::Reread,
                    ClientError::Network => CreateStep::Resubmit,
                    _ => CreateStep::GiveUp(*e),
                }
            }
        },
    }
}

/// Instructions to submit as one ledger transaction, and who must sign it.
#[derive(Clone, Debug, PartialEq, Eq)]
pub struct Request {
    pub instructions: Vec<Instr>,
    pub signers: Vec<Address>,
}

pub open spec fn addresses_view(v: Seq<Address>) -> Seq<Seq<u8>> {
    v.map_values(|a: Address| a@)
}

pub open spec fn request_view(r: Request) -> (Seq<InstrView>, Seq<Seq<u8>>) {
    (r.instructions@.map_values(|ix: Instr| ix@), addresses_view(r.signers@))
}

/// The accounts that an execution lists after its own: every key of the stored
/// message in order, writable as the message says, and a signer where the
/// message says so except the vault, which the program signs for.
pub open spec fn execute_accounts(m: CompiledMessage, vault: Seq<u8>) -> Seq<AccountRefView> {
    Seq::new(
        m.account_keys@.len(),
        |i: int|
            (
                m.account_keys@[i]@,
                is_signer_index(m, i) && m.account_keys@[i]@ != vault,
                is_writable_index(m, i),
            ),
    )
}

/// The client's handle on one multisig account of one deployment of the
/// multisig program.
#[derive(Clone, Copy, Debug, PartialEq, Eq)]
pub struct MultisigProgram {
    pub program_id: Address,
    pub multisig: Address,
}

/// The vault that vault transactions of this client execute against.
pub const VAULT_INDEX: u8 = 0;

impl MultisigProgram {
    pub fn new(program_id: Address, multisig: Address) -> (r: Self)
        ensures
            r.program_id == program_id,
            r.multisig == multisig,
    {
        MultisigProgram { program_id, multisig }
    }

    /// The address derived for `purpose` under this multisig and program.
    pub open spec fn derived(self, purpose: Purpose) -> Option<(Seq<u8>, u8)> {
        program_address_of(seed_list(self.multisig@, purpose), self.program_id@)
    }

    pub open spec fn addr(self, purpose: Purpose) -> Seq<u8> {
        self.derived(purpose).unwrap().0
    }

    /// The message that `instructions` compile to against this client's vault;
    /// it reproduces the batch (see `faithful`) and is the same whenever the
    /// batch is.
    pub open spec fn message_for(self, instructions: Seq<Instr>) -> CompiledMessage {
        compiled_message_of(instructions, self.addr(Purpose::Vault(VAULT_INDEX)))
    }

    /// Vault, transaction and proposal addresses all exist for `index`.
    pub open spec fn derivable(self, index: u64) -> bool {
        &&& self.derived(Purpose::Vault(VAULT_INDEX)) is Some
        &&& self.derived(Purpose::Transaction(index)) is Some
        &&& self.derived(Purpose::Proposal(index)) is Some
    }

    /// `req` creates, at `index`, the vault transaction that stores `m` and
    /// its proposal, signed by `proposer` and `payer`.
    pub open spec fn is_create_request(
        self,
        proposer: Seq<u8>,
        payer: Seq<u8>,
        m: CompiledMessage,
        index: u64,
        req: Request,
    ) -> bool {
        request_view(req) == (
            seq![
                vault_transaction_create_view(
                    self.program_id@,
                    self.multisig@,
                    self.addr(Purpose::Transaction(index)),
                    proposer,
                    payer,
                    VAULT_INDEX,
                    0,
                    message_bytes(m),
                    None,
                ),
                proposal_create_view(
                    self.program_id@,
                    self.multisig@,
                    self.addr(Purpose::Proposal(index)),
                    proposer,
                    payer,
                    index,
                    false,
                ),
            ],
            seq![proposer, payer],
        )
    }

    /// `req` executes the vault transaction at `index` whose stored message
    /// is `m`, signed by the executor, the payer and the instruction payer.
    pub open spec fn is_execute_request(
        self,
        executor: Seq<u8>,
        payer: Seq<u8>,
        instruction_payer: Seq<u8>,
        m: CompiledMessage,
        index: u64,
        req: Request,
    ) -> bool {
        let base = vault_transaction_execute_view(
            self.program_id@,
            self.multisig@,
            self.addr(Purpose::Proposal(index)),
            self.addr(Purpose::Transaction(index)),
            executor,
        );
        request_view(req) == (
            seq![
                InstrView {
                    accounts: base.accounts + execute_accounts(
                        m,
                        self.addr(Purpose::Vault(VAULT_INDEX)),
                    ),
                    ..base
                },
            ],
            seq![executor, payer, instruction_payer],
        )
    }

    fn derive(&self, purpose: Purpose) -> (r: Result<Address, ClientError>)
        ensures
            r is Ok <==> self.derived(purpose) is Some,
            r is Ok ==> r->Ok_0@ == self.addr(purpose),
            r is Err ==> r->Err_0 == ClientError::AddressDerivation,
    {
        match derive_address(&self.multisig, purpose, &self.program_id) {
            Some((a, _bump)) => Ok(a),
            None => Err(ClientError::AddressDerivation),
        }
    }

    fn compile(&self, vault: &Address, instructions: &Vec<Instr>) -> (r: Result<
        CompiledMessage,
        ClientError,
    >)
        ensures
            r is Ok ==> faithful(r->Ok_0, instructions@, vault@) && well_formed(r->Ok_0)
                && r->Ok_0 == compiled_message_of(instructions@, vault@),
            r is Ok <==> representable(instructions@, vault@),
            r is Err ==> r->Err_0 == ClientError::Compilation(
                compile_error_of(instructions@, vault@),
            ),
    {
        match compile_message(vault, instructions) {
            Ok(m) => Ok(m),
            Err(e) => Err(ClientError::Compilation(e)),
        }
    }

    /// Builds the submission that creates the vault transaction at
    /// `transaction_index`, holding `instructions` compiled against the vault,
    /// together with its proposal, signed by `proposer` and `payer`. The index
    /// must be the on-chain counter plus one; the program refuses any other.
    pub fn create_transaction_and_proposal(
        &self,
        proposer: &Address,
        payer: &Address,
        instructions: &Vec<Instr>,
        transaction_index: u64,
    ) -> (r: Result<Request, ClientError>)
        ensures
            !self.derivable(transaction_index) ==> r == Err::<Request, ClientError>(
                ClientError::AddressDerivation,
            ),
            self.derivable(transaction_index) && !representable(
                instructions@,
                self.addr(Purpose::Vault(VAULT_INDEX)),
            ) ==> r == Err::<Request, ClientError>(
                ClientError::Compilation(
                    compile_error_of(instructions@, self.addr(Purpose::Vault(VAULT_INDEX))),
                ),
            ),
            self.derivable(transaction_index) && representable(
                instructions@,
                self.addr(Purpose::Vault(VAULT_INDEX)),
            ) ==> r is Ok,
            r is Ok ==> faithful(
                self.message_for(instructions@),
                instructions@,
                self.addr(Purpose::Vault(VAULT_INDEX)),
            ) && well_formed(self.message_for(instructions@)),
            r is Ok ==> self.derivable(transaction_index) && representable(
                instructions@,
                self.addr(Purpose::Vault(VAULT_INDEX)),
            ) && self.is_create_request(
                proposer@,
                payer@,
                self.message_for(instructions@),
                transaction_index,
                r->Ok_0,
            ),
    {
        let vault = self.derive(Purpose::Vault(VAULT_INDEX))?;
        let transaction = self.derive(Purpose::Transaction(transaction_index))?;
        let proposal = self.derive(Purpose::Proposal(transaction_index))?;
        let m = self.compile(&vault, instructions)?;
        let bytes = encode_message(&m);
        proof {
            lemma_message_bytes_fit(m);
        }
        let create = vault_transaction_create_instruction(
            &self.program_id,
            &self.multisig,
            &transaction,
            proposer,
            payer,
            VAULT_INDEX,
            0,
            &bytes,
            None,
        );
        let propose = proposal_create_instruction(
            &self.program_id,
            &self.multisig,
            &proposal,
            proposer,
            payer,
            transaction_index,
            false,
        );
        let req = Request { instructions: vec![create, propose], signers: vec![*proposer, *payer] };
        assert(request_view(req).0 =~= seq![create@, propose@]);
        assert(request_view(req).1 =~= seq![proposer@, payer@]);
        assert(self.is_create_request(proposer@, payer@, m, transaction_index, req));
        Ok(req)
    }

    /// Builds the submission that records `approver`'s approval of the
    /// proposal for `transaction_index`, signed by `approver` and `payer`.
    /// Membership and double votes are left to the program to refuse.
    pub fn approve_proposal(&self, approver: &Address, payer: &Address, transaction_index: u64) -> (r:
        Result<Request, ClientError>)
        ensures
            r is Ok <==> self.derived(Purpose::Proposal(transaction_index)) is Some,
            r is Err ==> r->Err_0 == ClientError::AddressDerivation,
            r is Ok ==> request_view(r->Ok_0) == (
                seq![
                    proposal_approve_view(
                        self.program_id@,
                        self.multisig@,
                        approver@,
                        self.addr(Purpose::Proposal(transaction_index)),
                        None,
                    ),
                ],
                seq![approver@, payer@],
            ),
    {
        let proposal = self.derive(Purpose::Proposal(transaction_index))?;
        let ix = proposal_approve_instruction(
            &self.program_id,
            &self.multisig,
            approver,
            &proposal,
            None,
        );
        let req = Request { instructions: vec![ix], signers: vec![*approver, *payer] };
        assert(request_view(req).0 =~= seq![ix@]);
        assert(request_view(req).1 =~= seq![approver@, payer@]);
        Ok(req)
    }

    /// Builds the submission that executes the vault transaction at
    /// `transaction_index`. `instructions` must be the batch it was created
    /// with: it is compiled again to list the accounts the stored message
    /// refers to. Signed by `executor`, `payer` and `instruction_payer`.
    pub fn execute_transaction(
        &self,
        executor: &Address,
        payer: &Address,
        instruction_payer: &Address,
        transaction_index: u64,
        instructions: &Vec<Instr>,
    ) -> (r: Result<Request, ClientError>)
        ensures
            !self.derivable(transaction_index) ==> r == Err::<Request, ClientError>(
                ClientError::AddressDerivation,
            ),
            self.derivable(transaction_index) && !representable(
                instructions@,
                self.addr(Purpose::Vault(VAULT_INDEX)),
            ) ==> r == Err::<Request, ClientError>(
                ClientError::Compilation(
                    compile_error_of(instructions@, self.addr(Purpose::Vault(VAULT_INDEX))),
                ),
            ),
            self.derivable(transaction_index) && representable(
                instructions@,
                self.addr(Purpose::Vault(VAULT_INDEX)),
            ) ==> r is Ok,
            r is Ok ==> faithful(
                self.message_for(instructions@),
                instructions@,
                self.addr(Purpose::Vault(VAULT_INDEX)),
            ) && well_formed(self.message_for(instructions@)),
            r is Ok ==> self.derivable(transaction_index) && representable(
                instructions@,
                self.addr(Purpose::Vault(VAULT_INDEX)),
            ) && self.is_execute_request(
                executor@,
                payer@,
                instruction_payer@,
                self.message_for(instructions@),
                transaction_index,
                r->Ok_0,
            ),
    {
        let vault = self.derive(Purpose::Vault(VAULT_INDEX))?;
        let transaction = self.derive(Purpose::Transaction(transaction_index))?;
        let proposal = self.derive(Purpose::Proposal(transaction_index))?;
        let m = self.compile(&vault, instructions)?;
        let mut ix = vault_transaction_execute_instruction(
            &self.program_id,
            &self.multisig,
            &proposal,
            &transaction,
            executor,
        );
        let ghost base = ix@;
        let mut i: usize = 0;
        while i < m.account_keys.len()
            invariant
                0 <= i <= m.account_keys@.len(),
                vault@ == self.addr(Purpose::Vault(VAULT_INDEX)),
                ix@.program_id == base.program_id,
                ix@.data == base.data,
                ix@.accounts == base.accounts + execute_accounts(m, vault@).take(i as int),
            decreases m.account_keys@.len() - i,
        {
            let key = m.account_keys[i];
            let is_signer = i < m.num_signers as usize && !crate::address::address_eq(&key, &vault);
            let ns = m.num_signers as usize;
            let is_writable = i < m.num_writable_signers as usize || (i >= ns && i - ns
                < m.num_writable_non_signers as usize);
            let ghost prev = ix.accounts@;
            let ar = AccountRef { address: key, is_signer, is_writable };
            ix.accounts.push(ar);
            assert(ix@.accounts =~= prev.map_values(|a: AccountRef| crate::message::account_view(a)).push(
                crate::message::account_view(ar),
            ));
            assert(crate::message::account_view(ar) == execute_accounts(m, vault@)[i as int]);
            i = i + 1;
            assert(ix@.accounts =~= base.accounts + execute_accounts(m, vault@).take(i as int));
        }
        assert(execute_accounts(m, vault@).take(i as int) =~= execute_accounts(m, vault@));
        let req = Request {
            instructions: vec![ix],
            signers: vec![*executor, *payer, *instruction_payer],
        };
        assert(request_view(req).0 =~= seq![ix@]);
        assert(request_view(req).1 =~= seq![executor@, payer@, instruction_payer@]);
        assert(self.is_execute_request(
            executor@,
            payer@,
            instruction_payer@,
            m,
            transaction_index,
            req,
        ));
        Ok(req)
    }
}

} // verus!