//! The commands that the client offers, and the requests each one submits.

use crate::address::{Address, Purpose};
use crate::message::{
    CompileError,
    CompiledMessage,
    Instr,
    InstrView,
    batch_keys,
    batch_view,
    ix_keys,
    legacy_message_of,
    push_all,
    representable,
    sizes_fit,
    vault_message_of,
};
use crate::program::{
    ClientError,
    MultisigProgram,
    Request,
    VAULT_INDEX,
    memo_instruction,
    memo_program_id,
    next_transaction_index,
    proposal_approve_view,
    request_view,
};
use vstd::prelude::*;
use vstd::string::StringSliceAdditionalSpecFns;

verus! {

/// The parsed command line.
pub struct Cli {
    pub command: Command,
}

/// What the user asked for.
pub enum Command {
    /// Creates a vault transaction that memoes `message`.
    CreateVaultTransaction { message: String },
    /// Approves the proposal of `transaction_index` as member `member_index`.
    ApproveProposal { transaction_index: u64, member_index: usize },
    /// Executes the vault transaction of `transaction_index`, whose batch
    /// memoes `message`.
    ExecuteVaultTransaction { message: String, transaction_index: u64 },
    /// Lists the memos signed by the instruction payer.
    CheckMemos,
    /// Prints the last transaction index.
    TransactionIndex,
}

/// The one-instruction batch that memoes `memo`, to be signed by `signer`.
pub open spec fn memo_batch_view(memo: Seq<u8>, signer: Seq<u8>) -> Seq<InstrView> {
    seq![
        InstrView {
            program_id: memo_program_id(),
            accounts: seq![(signer, true, false)],
            data: memo,
        },
    ]
}

/// The message that the memo batch compiles to against `program`'s vault.
pub open spec fn memo_message(program: MultisigProgram, memo: Seq<u8>, signer: Seq<u8>) -> CompiledMessage {
    vault_message_of(legacy_message_of(memo_batch_view(memo, signer), program.addr(Purpose::Vault(VAULT_INDEX))))
}

/// The batch that memoes `message`, to be signed by `instruction_payer`.
pub fn memo_batch(message: &str, instruction_payer: &Address) -> (r: Vec<Instr>)
    ensures
        batch_view(r@) == memo_batch_view(message.spec_bytes(), instruction_payer@),
        r@.len() == 1,
        r@[0]@.accounts == seq![(instruction_payer@, true, false)],
        r@[0].data@ == message.spec_bytes(),
{
    let mut bytes: Vec<u8> = Vec::new();
    push_all(&mut bytes, message.as_bytes());
    assert(bytes@ =~= message.spec_bytes());
    let r = vec![memo_instruction(&bytes, instruction_payer)];
    assert(batch_view(r@) =~= memo_batch_view(message.spec_bytes(), instruction_payer@));
    r
}

/// A memo batch whose data fits an instruction can be compiled.
proof fn lemma_memo_batch_representable(b: Seq<Instr>, vault: Seq<u8>)
    requires
        b.len() == 1,
        b[0]@.accounts.len() == 1,
        b[0].data@.len() <= 65535,
    ensures
        representable(b, vault),
{
    let ix = b[0];
    assert(b.drop_last() =~= Seq::<Instr>::empty());
    assert(b.last() == ix);
    assert(ix.accounts@.len() == 1);
    let all = seq![vault] + batch_keys(b);
    assert(batch_keys(b) == batch_keys(b.drop_last()) + ix_keys(ix));
    assert(ix_keys(ix).len() == 2);
    assert(all.len() == 3);
    all.lemma_cardinality_of_set();
}

/// The request that creates, at the index after `current_index`, a vault
/// transaction memoing `message`, proposed by the first member.
/// `StaleSequence` where the counter cannot advance.
pub fn create_transaction(
    program: &MultisigProgram,
    members: &Vec<Address>,
    rent_payer: &Address,
    instruction_payer: &Address,
    message: &str,
    current_index: u64,
) -> (r: Result<Request, ClientError>)
    requires
        members@.len() >= 1,
    ensures
        current_index == u64::MAX ==> r == Err::<Request, ClientError>(
            ClientError::StaleSequence,
        ),
        current_index < u64::MAX && !program.derivable((current_index + 1) as u64) ==> r
            == Err::<Request, ClientError>(ClientError::AddressDerivation),
        current_index < u64::MAX && program.derivable((current_index + 1) as u64)
            && message.spec_bytes().len() <= 65535 ==> r is Ok,
        current_index < u64::MAX && program.derivable((current_index + 1) as u64)
            && message.spec_bytes().len() > 65535 ==> r == Err::<Request, ClientError>(
            ClientError::Compilation(CompileError::InstructionTooLarge),
        ),
        r is Ok ==> current_index < u64::MAX && program.is_create_request(
            members@[0]@,
            rent_payer@,
            memo_message(*program, message.spec_bytes(), instruction_payer@),
            (current_index + 1) as u64,
            r->Ok_0,
        ),
{
    let index = match next_transaction_index(current_index) {
        Some(i) => i,
        None => return Err(ClientError::StaleSequence),
    };
    let batch = memo_batch(message, instruction_payer);
    proof {
        if message.spec_bytes().len() <= 65535 {
            lemma_memo_batch_representable(batch@, program.addr(Purpose::Vault(VAULT_INDEX)));
        } else {
            assert(!sizes_fit(batch@));
        }
    }
    program.create_transaction_and_proposal(&members[0], rent_payer, &batch, index)
}

/// The request that executes the vault transaction of `transaction_index`,
/// whose batch memoes `message`, on behalf of the first member. Given the
/// same message it lists the accounts of the very message that
/// `create_transaction` stored.
pub fn execute_transaction(
    program: &MultisigProgram,
    members: &Vec<Address>,
    rent_payer: &Address,
    instruction_payer: &Address,
    message: &str,
    transaction_index: u64,
) -> (r: Result<Request, ClientError>)
    requires
        members@.len() >= 1,
    ensures
        !program.derivable(transaction_index) ==> r == Err::<Request, ClientError>(
            ClientError::AddressDerivation,
        ),
        program.derivable(transaction_index) && message.spec_bytes().len() <= 65535 ==> r is Ok,
        program.derivable(transaction_index) && message.spec_bytes().len() > 65535 ==> r == Err::<
            Request,
            ClientError,
        >(ClientError::Compilation(CompileError::InstructionTooLarge)),
        r is Ok ==> program.is_execute_request(
            members@[0]@,
            rent_payer@,
            instruction_payer@,
            memo_message(*program, message.spec_bytes(), instruction_payer@),
            transaction_index,
            r->Ok_0,
        ),
{
    let batch = memo_batch(message, instruction_payer);
    proof {
        if message.spec_bytes().len() <= 65535 {
            lemma_memo_batch_representable(batch@, program.addr(Purpose::Vault(VAULT_INDEX)));
        } else {
            assert(!sizes_fit(batch@));
        }
    }
    program.execute_transaction(&members[0], rent_payer, instruction_payer, transaction_index, &batch)
}
/// The request by which member `member_index` approves the proposal of
/// `transaction_index`, the rent payer paying the fee.
pub fn approve_proposal(
    program: &MultisigProgram,
    members: &Vec<Address>,
    rent_payer: &Address,
    transaction_index: u64,
    member_index: usize,
) -> (r: Result<Request, ClientError>)
    requires
        member_index < members@.len(),
    ensures
        r is Ok <==> program.derived(Purpose::Proposal(transaction_index)) is Some,
        r is Err ==> r->Err_0 == ClientError::AddressDerivation,
        r is Ok ==> request_view(r->Ok_0) == (
            seq![
                proposal_approve_view(
                    program.program_id@,
                    program.multisig@,
                    members@[member_index as int]@,
                    program.addr(Purpose::Proposal(transaction_index)),
                    None,
                ),
            ],
            seq![members@[member_index as int]@, rent_payer@],
        ),
{
    program.approve_proposal(&members[member_index], rent_payer, transaction_index)
}

} // verus!
