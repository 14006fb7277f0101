//! Compilation of an instruction batch into the message that a vault
//! transaction stores: distinct account keys ordered by role, a role header,
//! and instructions that refer to accounts by index.

use crate::address::{Address, address_eq};
use solana_program::instruction::{AccountMeta, Instruction};
use solana_program::message::legacy::Message;
use solana_program::pubkey::Pubkey;
use squads_multisig_program::anchor_lang::AnchorSerialize;
use squads_multisig_program::{CompiledInstruction as ProgramCompiledInstruction, TransactionMessage};
use vstd::prelude::*;

verus! {

/// One account that an instruction refers to, with its role.
#[derive(Clone, Copy, Debug, PartialEq, Eq)]
pub struct AccountRef {
    pub address: Address,
    pub is_signer: bool,
    pub is_writable: bool,
}

/// An instruction: a target program, the accounts it reads or writes, and
/// opaque data.
#[derive(Clone, Debug, PartialEq, Eq)]
pub struct Instr {
    pub program_id: Address,
    pub accounts: Vec<AccountRef>,
    pub data: Vec<u8>,
}

/// The value of an account reference: address, signer flag, writable flag.
pub type AccountRefView = (Seq<u8>, bool, bool);

pub struct InstrView {
    pub program_id: Seq<u8>,
    pub accounts: Seq<AccountRefView>,
    pub data: Seq<u8>,
}

pub open spec fn account_view(a: AccountRef) -> AccountRefView {
    (a.address@, a.is_signer, a.is_writable)
}

impl View for Instr {
    type V = InstrView;

    open spec fn view(&self) -> InstrView {
        InstrView {
            program_id: self.program_id@,
            accounts: self.accounts@.map_values(|a: AccountRef| account_view(a)),
            data: self.data@,
        }
    }
}

pub open spec fn batch_view(ixs: Seq<Instr>) -> Seq<InstrView> {
    ixs.map_values(|ix: Instr| ix@)
}

/// An instruction whose program and accounts are indexes into the message's
/// account keys.
#[derive(Clone, Debug, PartialEq, Eq)]
pub struct CompiledInstruction {
    pub program_id_index: u8,
    pub account_indexes: Vec<u8>,
    pub data: Vec<u8>,
}

/// The message a vault transaction stores. Its keys are ordered writable
/// signers, read-only signers, writable non-signers, read-only non-signers;
/// the three counts mark where those groups end.
#[derive(Clone, Debug, PartialEq, Eq)]
pub struct CompiledMessage {
    pub num_signers: u8,
    pub num_writable_signers: u8,
    pub num_writable_non_signers: u8,
    pub account_keys: Vec<Address>,
    pub instructions: Vec<CompiledInstruction>,
}

/// The ledger's native (legacy) message as compiled by the ledger library:
/// a header of signature and read-only counts, keys and instructions.
#[derive(Clone, Debug, PartialEq, Eq)]
pub struct LegacyMessage {
    pub num_required_signatures: u8,
    pub num_readonly_signed: u8,
    pub num_readonly_unsigned: u8,
    pub account_keys: Vec<Address>,
    pub instructions: Vec<CompiledInstruction>,
}

/// Why an instruction batch cannot be compiled.
#[derive(Clone, Copy, Debug, PartialEq, Eq)]
pub enum CompileError {
    /// More than 255 instructions.
    TooManyInstructions,
    /// An instruction with more than 255 accounts or more than 65535 bytes of data.
    InstructionTooLarge,
    /// More than 255 distinct accounts, the payer and programs included.
    TooManyAccounts,
}

pub open spec fn keys_view(keys: Seq<Address>) -> Seq<Seq<u8>> {
    keys.map_values(|a: Address| a@)
}

pub open spec fn is_signer_index(m: CompiledMessage, i: int) -> bool {
    0 <= i < m.num_signers
}

pub open spec fn is_writable_index(m: CompiledMessage, i: int) -> bool {
    &&& 0 <= i < m.account_keys@.len()
    &&& (i < m.num_writable_signers || (i >= m.num_signers && i - m.num_signers
        < m.num_writable_non_signers))
}

/// The counts and lengths fit the encoding, and the header is consistent.
pub open spec fn well_formed(m: CompiledMessage) -> bool {
    &&& m.num_writable_signers <= m.num_signers
    &&& m.num_signers + m.num_writable_non_signers <= m.account_keys@.len()
    &&& m.account_keys@.len() <= 255
    &&& m.instructions@.len() <= 255
    &&& forall|k: int|
        0 <= k < m.instructions@.len() ==> {
            &&& #[trigger] m.instructions@[k].account_indexes@.len() <= 255
            &&& m.instructions@[k].data@.len() <= 65535
        }
}

/// Every reference of the compiled instruction is in range.
pub open spec fn indexes_in_range(m: CompiledMessage, c: CompiledInstruction) -> bool {
    &&& (c.program_id_index as int) < m.account_keys@.len()
    &&& forall|j: int|
        0 <= j < c.account_indexes@.len() ==> (#[trigger] c.account_indexes@[j] as int)
            < m.account_keys@.len()
}

pub open spec fn all_in_range(m: CompiledMessage) -> bool {
    forall|k: int| 0 <= k < m.instructions@.len() ==> indexes_in_range(m, #[trigger] m.instructions@[k])
}

/// The compiled instruction `c` stands for `ix`: same program, same accounts
/// in the same order, same data, and each role that `ix` asks for is granted.
pub open spec fn ix_faithful(m: CompiledMessage, c: CompiledInstruction, ix: Instr) -> bool {
    &&& indexes_in_range(m, c)
    &&& m.account_keys@[c.program_id_index as int]@ == ix.program_id@
    &&& c.data@ == ix.data@
    &&& c.account_indexes@.len() == ix.accounts@.len()
    &&& forall|j: int|
        0 <= j < ix.accounts@.len() ==> {
            let idx = c.account_indexes@[j] as int;
            &&& m.account_keys@[idx]@ == (#[trigger] ix.accounts@[j]).address@
            &&& ix.accounts@[j].is_signer ==> is_signer_index(m, idx)
            &&& ix.accounts@[j].is_writable ==> is_writable_index(m, idx)
        }
}

/// Some reference of the batch to account `a` asks for a signature
/// (`writable` false) or for write access (`writable` true).
pub open spec fn asked(ixs: Seq<Instr>, a: Seq<u8>, writable: bool) -> bool {
    exists|k: int, j: int|
        0 <= k < ixs.len() && 0 <= j < ixs[k].accounts@.len() && #[trigger] ixs[k].accounts@[j].address@
            == a && (if writable {
            ixs[k].accounts@[j].is_writable
        } else {
            ixs[k].accounts@[j].is_signer
        })
}

/// No account gets a role beyond what the batch asks for, the payer aside.
pub open spec fn roles_minimal(m: CompiledMessage, ixs: Seq<Instr>, payer: Seq<u8>) -> bool {
    forall|i: int|
        0 <= i < m.account_keys@.len() ==> {
            &&& is_signer_index(m, i) ==> (#[trigger] m.account_keys@[i])@ == payer || asked(
                ixs,
                m.account_keys@[i]@,
                false,
            )
            &&& is_writable_index(m, i) ==> m.account_keys@[i]@ == payer || asked(
                ixs,
                m.account_keys@[i]@,
                true,
            )
        }
}

/// `m` reproduces the batch `ixs` with `payer` as its first, writable signer,
/// lists each account of the batch once and no other, and grants no role that the batch does not ask for.
pub open spec fn faithful(m: CompiledMessage, ixs: Seq<Instr>, payer: Seq<u8>) -> bool {
    &&& keys_view(m.account_keys@).no_duplicates()
    &&& keys_view(m.account_keys@).to_set() == key_set(ixs, payer)
    &&& roles_minimal(m, ixs, payer)
    &&& m.account_keys@.len() >= 1
    &&& m.account_keys@[0]@ == payer
    &&& m.num_writable_signers >= 1
    &&& m.instructions@.len() == ixs.len()
    &&& forall|k: int| 0 <= k < ixs.len() ==> ix_faithful(m, m.instructions@[k], #[trigger] ixs[k])
}

pub open spec fn ix_keys(ix: Instr) -> Seq<Seq<u8>> {
    seq![ix.program_id@] + ix.accounts@.map_values(|a: AccountRef| a.address@)
}

pub open spec fn batch_keys(ixs: Seq<Instr>) -> Seq<Seq<u8>>
    decreases ixs.len(),
{
    if ixs.len() == 0 {
        seq![]
    } else {
        batch_keys(ixs.drop_last()) + ix_keys(ixs.last())
    }
}

/// The distinct accounts of a batch compiled with `payer`.
pub open spec fn key_set(ixs: Seq<Instr>, payer: Seq<u8>) -> Set<Seq<u8>> {
    (seq![payer] + batch_keys(ixs)).to_set()
}

pub open spec fn sizes_fit(ixs: Seq<Instr>) -> bool {
    forall|k: int|
        0 <= k < ixs.len() ==> {
            &&& (#[trigger] ixs[k]).accounts@.len() <= 255
            &&& ixs[k].data@.len() <= 65535
        }
}

/// The batch can be encoded: at most 255 instructions, each with at most 255
/// accounts and 65535 bytes of data, and at most 255 distinct accounts.
pub open spec fn representable(ixs: Seq<Instr>, payer: Seq<u8>) -> bool {
    &&& ixs.len() <= 255
    &&& sizes_fit(ixs)
    &&& key_set(ixs, payer).len() <= 255
}

pub(crate) fn contains_address(v: &Vec<Address>, a: &Address) -> (r: bool)
    ensures
        r == keys_view(v@).contains(a@),
{
    let mut i: usize = 0;
    while i < v.len()
        invariant
            0 <= i <= v@.len(),
            forall|k: int| 0 <= k < i ==> v@[k]@ != a@,
        decreases v@.len() - i,
    {
        if address_eq(&v[i], a) {
            assert(keys_view(v@)[i as int] == a@);
            return true;
        }
        i = i + 1;
    }
    assert(!keys_view(v@).contains(a@)) by {
        if keys_view(v@).contains(a@) {
            let k = choose|k: int| 0 <= k < keys_view(v@).len() && keys_view(v@)[k] == a@;
            assert(v@[k]@ == a@);
        }
    }
    false
}

fn add_distinct(dv: &mut Vec<Address>, a: &Address)
    requires
        keys_view(old(dv)@).no_duplicates(),
    ensures
        keys_view(final(dv)@).no_duplicates(),
        keys_view(final(dv)@).to_set() == keys_view(old(dv)@).to_set().insert(a@),
{
    if !contains_address(dv, a) {
        let ghost before = keys_view(dv@);
        dv.push(*a);
        assert(keys_view(dv@) =~= before.push(a@));
        proof {
            before.lemma_push_to_set_commute(a@);
        }
    } else {
        assert(keys_view(dv@).to_set().contains(a@));
        assert(keys_view(dv@).to_set().insert(a@) =~= keys_view(dv@).to_set());
    }
}

/// Lists the distinct accounts of the batch, the payer first.
fn distinct_keys(payer: &Address, ixs: &Vec<Instr>) -> (r: Vec<Address>)
    ensures
        keys_view(r@).no_duplicates(),
        keys_view(r@).to_set() == key_set(ixs@, payer@),
{
    let mut dv: Vec<Address> = Vec::new();
    dv.push(*payer);
    let ghost seen: Seq<Seq<u8>> = seq![payer@];
    assert(keys_view(dv@) =~= seen);
    assert(ixs@.take(0) =~= Seq::<Instr>::empty());
    assert(seen =~= seq![payer@] + batch_keys(ixs@.take(0)));
    let mut k: usize = 0;
    while k < ixs.len()
        invariant
            0 <= k <= ixs@.len(),
            keys_view(dv@).no_duplicates(),
            keys_view(dv@).to_set() == seen.to_set(),
            seen == seq![payer@] + batch_keys(ixs@.take(k as int)),
        decreases ixs@.len() - k,
    {
        let ix = &ixs[k];
        add_distinct(&mut dv, &ix.program_id);
        proof {
            seen.lemma_push_to_set_commute(ix.program_id@);
            seen = seen.push(ix.program_id@);
        }
        let ghost base = seen;
        let mut j: usize = 0;
        while j < ix.accounts.len()
            invariant
                0 <= j <= ix.accounts@.len(),
                ix == ixs@[k as int],
                keys_view(dv@).no_duplicates(),
                keys_view(dv@).to_set() == seen.to_set(),
                seen == base + ix.accounts@.map_values(|a: AccountRef| a.address@).take(j as int),
            decreases ix.accounts@.len() - j,
        {
            add_distinct(&mut dv, &ix.accounts[j].address);
            proof {
                seen.lemma_push_to_set_commute(ix.accounts@[j as int].address@);
                seen = seen.push(ix.accounts@[j as int].address@);
                assert(seen =~= base + ix.accounts@.map_values(|a: AccountRef| a.address@).take(
                    j + 1,
                ));
            }
            j = j + 1;
        }
        proof {
            assert(ix.accounts@.map_values(|a: AccountRef| a.address@).take(j as int)
                =~= ix.accounts@.map_values(|a: AccountRef| a.address@));
            assert(ixs@.take(k + 1).drop_last() =~= ixs@.take(k as int));
            assert(seen =~= seq![payer@] + batch_keys(ixs@.take(k + 1)));
        }
        k = k + 1;
    }
    assert(ixs@.take(k as int) =~= ixs@);
    dv
}

#[verifier::external_type_specification]
#[verifier::external_body]
pub struct ExInstruction(Instruction);

#[verifier::external_type_specification]
#[verifier::external_body]
pub struct ExMessage(Message);

/// Hands an instruction to the ledger library as its own `Instruction` type,
/// field by field.
#[verifier::external_body]
fn to_ledger_instruction(ix: &Instr) -> Instruction {
    Instruction {
        program_id: Pubkey::new_from_array(ix.program_id.bytes),
        accounts: ix.accounts.iter().map(
            |a| AccountMeta { pubkey: Pubkey::new_from_array(a.address.bytes), is_signer: a.is_signer, is_writable: a.is_writable },
        ).collect(),
        data: ix.data.clone(),
    }
}

/// Reads back the header, keys and compiled instructions of a ledger
/// `Message`, field by field.
#[verifier::external_body]
fn from_ledger_message(m: &Message) -> LegacyMessage {
    LegacyMessage {
        num_required_signatures: m.header.num_required_signatures,
        num_readonly_signed: m.header.num_readonly_signed_accounts,
        num_readonly_unsigned: m.header.num_readonly_unsigned_accounts,
        account_keys: m.account_keys.iter().map(|k| Address { bytes: k.to_bytes() }).collect(),
        instructions: m.instructions.iter().map(
            |c| CompiledInstruction { program_id_index: c.program_id_index, account_indexes: c.accounts.clone(), data: c.data.clone() },
        ).collect(),
    }
}

/// The native message that the ledger library compiles from a batch and a
/// payer; its keys are grouped by role and ordered by their bytes in a group.
pub uninterp spec fn legacy_message_of(batch: Seq<InstrView>, payer: Seq<u8>) -> LegacyMessage;

/// Relies on `Message::new` of the ledger library (`CompiledKeys::compile`
/// and `try_into_message_components`): the payer first, then each distinct
/// key of the batch once, grouped as writable signers, read-only signers,
/// writable and read-only non-signers, a key's role the union of the roles
/// its references ask for; each instruction compiled to the positions of its
/// program and accounts, data unchanged. It panics when a key count does not
/// fit a byte, which at most 255 distinct accounts rule out.
#[verifier::external_body]
fn legacy_compile(ixs: &Vec<Instr>, payer: &Address) -> (r: LegacyMessage)
    requires
        key_set(ixs@, payer@).len() <= 255,
    ensures
        r == legacy_message_of(batch_view(ixs@), payer@),
        header_consistent(r),
        faithful(vault_message_of(r), ixs@, payer@),
{
    let ledger_ixs: Vec<Instruction> = ixs.iter().map(to_ledger_instruction).collect();
    let m = Message::new(&ledger_ixs, Some(&Pubkey::new_from_array(payer.bytes)));
    from_ledger_message(&m)
}

/// The native header's counts are consistent with its keys.
pub open spec fn header_consistent(l: LegacyMessage) -> bool {
    &&& l.num_readonly_signed <= l.num_required_signatures
    &&& l.num_required_signatures + l.num_readonly_unsigned <= l.account_keys@.len()
    &&& l.account_keys@.len() <= 255
}

/// The stored message that a native message converts to: the same keys and
/// instructions, with the header restated as signer and writable counts.
pub open spec fn vault_message_of(l: LegacyMessage) -> CompiledMessage {
    CompiledMessage {
        num_signers: l.num_required_signatures,
        num_writable_signers: (l.num_required_signatures - l.num_readonly_signed) as u8,
        num_writable_non_signers: (l.account_keys@.len() - l.num_required_signatures
            - l.num_readonly_unsigned) as u8,
        account_keys: l.account_keys,
        instructions: l.instructions,
    }
}

fn writable_index(m: &CompiledMessage, i: usize) -> (r: bool)
    ensures
        r == is_writable_index(*m, i as int),
{
    let ns = m.num_signers as usize;
    let nws = m.num_writable_signers as usize;
    let nwn = m.num_writable_non_signers as usize;
    i < m.account_keys.len() && (i < nws || (i >= ns && i - ns < nwn))
}

/// Restates a native message as the stored message: the same keys and
/// instructions, the header given as signer and writable counts.
pub fn to_vault_message(l: LegacyMessage) -> (r: CompiledMessage)
    requires
        header_consistent(l),
    ensures
        r == vault_message_of(l),
{
    let n = l.account_keys.len();
    CompiledMessage {
        num_signers: l.num_required_signatures,
        num_writable_signers: l.num_required_signatures - l.num_readonly_signed,
        num_writable_non_signers: (n - l.num_required_signatures as usize
            - l.num_readonly_unsigned as usize) as u8,
        account_keys: l.account_keys,
        instructions: l.instructions,
    }
}

fn sizes_check(ixs: &Vec<Instr>) -> (r: bool)
    ensures
        r == sizes_fit(ixs@),
{
    let mut k: usize = 0;
    while k < ixs.len()
        invariant
            0 <= k <= ixs@.len(),
            forall|q: int|
                0 <= q < k ==> {
                    &&& (#[trigger] ixs@[q]).accounts@.len() <= 255
                    &&& ixs@[q].data@.len() <= 65535
                },
        decreases ixs@.len() - k,
    {
        if ixs[k].accounts.len() > 255 || ixs[k].data.len() > 65535 {
            return false;
        }
        k = k + 1;
    }
    true
}

/// Why a batch that cannot be represented is refused: the first limit it
/// breaks, in the order instructions, instruction sizes, distinct accounts.
pub open spec fn compile_error_of(ixs: Seq<Instr>, payer: Seq<u8>) -> CompileError {
    if ixs.len() > 255 {
        CompileError::TooManyInstructions
    } else if !sizes_fit(ixs) {
        CompileError::InstructionTooLarge
    } else {
        CompileError::TooManyAccounts
    }
}

/// The stored message that a batch compiles to with `payer`.
pub open spec fn compiled_message_of(ixs: Seq<Instr>, payer: Seq<u8>) -> CompiledMessage {
    vault_message_of(legacy_message_of(batch_view(ixs), payer))
}

/// Compiles `instructions` with `payer` as the fee and rent payer into the
/// stored message format. A batch that the format cannot hold is refused,
/// never cut short; a message that is returned reproduces the batch.
pub fn compile_message(payer: &Address, instructions: &Vec<Instr>) -> (r: Result<
    CompiledMessage,
    CompileError,
>)
    ensures
        instructions@.len() > 255 ==> r == Err::<CompiledMessage, CompileError>(
            CompileError::TooManyInstructions,
        ),
        instructions@.len() <= 255 && !sizes_fit(instructions@) ==> r == Err::<
            CompiledMessage,
            CompileError,
        >(CompileError::InstructionTooLarge),
        instructions@.len() <= 255 && sizes_fit(instructions@) && key_set(
            instructions@,
            payer@,
        ).len() > 255 ==> r == Err::<CompiledMessage, CompileError>(
            CompileError::TooManyAccounts,
        ),
        representable(instructions@, payer@) ==> r is Ok,
        !representable(instructions@, payer@) ==> r == Err::<CompiledMessage, CompileError>(
            compile_error_of(instructions@, payer@),
        ),
        r is Ok ==> r->Ok_0 == compiled_message_of(instructions@, payer@),
        r is Ok ==> faithful(r->Ok_0, instructions@, payer@) && well_formed(r->Ok_0)
            && representable(instructions@, payer@),
{
    if instructions.len() > 255 {
        return Err(CompileError::TooManyInstructions);
    }
    if !sizes_check(instructions) {
        return Err(CompileError::InstructionTooLarge);
    }
    let keys = distinct_keys(payer, instructions);
    proof {
        keys_view(keys@).unique_seq_to_set();
    }
    if keys.len() > 255 {
        return Err(CompileError::TooManyAccounts);
    }
    let legacy = legacy_compile(instructions, payer);
    let m = to_vault_message(legacy);
    assert forall|k: int| 0 <= k < m.instructions@.len() implies {
        &&& (#[trigger] m.instructions@[k]).account_indexes@.len() <= 255
        &&& m.instructions@[k].data@.len() <= 65535
    } by {
        assert(ix_faithful(m, m.instructions@[k], instructions@[k]));
    }
    Ok(m)
}

/// The instruction that a compiled instruction stands for, roles read from
/// the message header.
pub open spec fn decoded_instruction(m: CompiledMessage, c: CompiledInstruction) -> InstrView {
    InstrView {
        program_id: m.account_keys@[c.program_id_index as int]@,
        accounts: c.account_indexes@.map_values(
            |i: u8|
                (
                    m.account_keys@[i as int]@,
                    is_signer_index(m, i as int),
                    is_writable_index(m, i as int),
                ),
        ),
        data: c.data@,
    }
}

pub open spec fn decoded(m: CompiledMessage) -> Seq<InstrView> {
    m.instructions@.map_values(|c: CompiledInstruction| decoded_instruction(m, c))
}

/// `d` has the target, accounts and data of `o`, and every role that `o`
/// asks for.
pub open spec fn covers(d: InstrView, o: InstrView) -> bool {
    &&& d.program_id == o.program_id
    &&& d.data == o.data
    &&& d.accounts.len() == o.accounts.len()
    &&& forall|j: int|
        0 <= j < o.accounts.len() ==> {
            &&& (#[trigger] d.accounts[j]).0 == o.accounts[j].0
            &&& o.accounts[j].1 ==> d.accounts[j].1
            &&& o.accounts[j].2 ==> d.accounts[j].2
        }
}

pub open spec fn equivalent(d: Seq<InstrView>, o: Seq<InstrView>) -> bool {
    &&& d.len() == o.len()
    &&& forall|k: int| 0 <= k < o.len() ==> covers(#[trigger] d[k], o[k])
}

fn copy_bytes(b: &Vec<u8>) -> (r: Vec<u8>)
    ensures
        r@ == b@,
{
    let mut r: Vec<u8> = Vec::new();
    let mut i: usize = 0;
    while i < b.len()
        invariant
            0 <= i <= b@.len(),
            r@ == b@.take(i as int),
        decreases b@.len() - i,
    {
        r.push(b[i]);
        i = i + 1;
        assert(r@ =~= b@.take(i as int));
    }
    assert(b@.take(b@.len() as int) =~= b@);
    r
}

fn decompile_instruction(m: &CompiledMessage, c: &CompiledInstruction) -> (r: Option<Instr>)
    ensures
        r is Some <==> indexes_in_range(*m, *c),
        r is Some ==> r->Some_0@ == decoded_instruction(*m, *c),
{
    let n = m.account_keys.len();
    if c.program_id_index as usize >= n {
        return None;
    }
    let mut accounts: Vec<AccountRef> = Vec::new();
    let mut j: usize = 0;
    while j < c.account_indexes.len()
        invariant
            0 <= j <= c.account_indexes@.len(),
            n == m.account_keys@.len(),
            accounts@.len() == j,
            forall|q: int|
                0 <= q < j ==> (#[trigger] c.account_indexes@[q] as int) < m.account_keys@.len(),
            forall|q: int|
                0 <= q < j ==> account_view(#[trigger] accounts@[q]) == (
                    m.account_keys@[c.account_indexes@[q] as int]@,
                    is_signer_index(*m, c.account_indexes@[q] as int),
                    is_writable_index(*m, c.account_indexes@[q] as int),
                ),
        decreases c.account_indexes@.len() - j,
    {
        let idx = c.account_indexes[j] as usize;
        if idx >= n {
            return None;
        }
        accounts.push(
            AccountRef {
                address: m.account_keys[idx],
                is_signer: idx < m.num_signers as usize,
                is_writable: writable_index(m, idx),
            },
        );
        j = j + 1;
    }
    let ix = Instr {
        program_id: m.account_keys[c.program_id_index as usize],
        accounts,
        data: copy_bytes(&c.data),
    };
    assert(ix@.accounts =~= decoded_instruction(*m, *c).accounts);
    Some(ix)
}

/// Rebuilds the instruction batch that a stored message describes; `None`
/// where an index points outside the account keys.
pub fn decompile(m: &CompiledMessage) -> (r: Option<Vec<Instr>>)
    ensures
        r is Some <==> all_in_range(*m),
        r is Some ==> batch_view(r->Some_0@) == decoded(*m),
{
    let mut out: Vec<Instr> = Vec::new();
    let mut k: usize = 0;
    while k < m.instructions.len()
        invariant
            0 <= k <= m.instructions@.len(),
            out@.len() == k,
            forall|q: int| 0 <= q < k ==> indexes_in_range(*m, #[trigger] m.instructions@[q]),
            forall|q: int|
                0 <= q < k ==> (#[trigger] out@[q])@ == decoded_instruction(
                    *m,
                    m.instructions@[q],
                ),
        decreases m.instructions@.len() - k,
    {
        match decompile_instruction(m, &m.instructions[k]) {
            Some(ix) => out.push(ix),
            None => return None,
        }
        k = k + 1;
    }
    assert(batch_view(out@) =~= decoded(*m));
    Some(out)
}

/// The role that a batch compiled with `payer` gives account `a`: a signer
/// where the payer or some reference asks for a signature, writable where the
/// payer or some reference asks for write access.
pub open spec fn merged_role(ixs: Seq<Instr>, payer: Seq<u8>, a: Seq<u8>) -> AccountRefView {
    (a, a == payer || asked(ixs, a, false), a == payer || asked(ixs, a, true))
}

proof fn lemma_key_index_unique(m: CompiledMessage, i: int, j: int)
    requires
        keys_view(m.account_keys@).no_duplicates(),
        0 <= i < m.account_keys@.len(),
        0 <= j < m.account_keys@.len(),
        m.account_keys@[i]@ == m.account_keys@[j]@,
    ensures
        i == j,
{
    if i != j {
        assert(keys_view(m.account_keys@)[i] == keys_view(m.account_keys@)[j]);
    }
}

/// Decoding a compiled message gives back the batch it was compiled from:
/// the same targets, accounts and data, and each account with exactly the
/// role that the batch asks for it across all its references.
pub proof fn lemma_compile_round_trip(m: CompiledMessage, ixs: Seq<Instr>, payer: Seq<u8>)
    requires
        faithful(m, ixs, payer),
        well_formed(m),
    ensures
        all_in_range(m),
        equivalent(decoded(m), batch_view(ixs)),
        forall|k: int, j: int|
            0 <= k < ixs.len() && 0 <= j < ixs[k].accounts@.len() ==> #[trigger] decoded(
                m,
            )[k].accounts[j] == merged_role(ixs, payer, ixs[k].accounts@[j].address@),
{
    assert forall|k: int| 0 <= k < m.instructions@.len() implies indexes_in_range(
        m,
        #[trigger] m.instructions@[k],
    ) by {
        assert(ix_faithful(m, m.instructions@[k], ixs[k]));
    }
    assert forall|k: int| 0 <= k < ixs.len() implies covers(
        #[trigger] decoded(m)[k],
        batch_view(ixs)[k],
    ) by {
        let c = m.instructions@[k];
        assert(ix_faithful(m, c, ixs[k]));
        let d = decoded(m)[k];
        let o = batch_view(ixs)[k];
        assert forall|j: int| 0 <= j < o.accounts.len() implies {
            &&& (#[trigger] d.accounts[j]).0 == o.accounts[j].0
            &&& o.accounts[j].1 ==> d.accounts[j].1
            &&& o.accounts[j].2 ==> d.accounts[j].2
        } by {
            assert(ixs[k].accounts@[j].address@ == m.account_keys@[c.account_indexes@[j] as int]@);
        }
    }
    assert forall|k: int, j: int|
        0 <= k < ixs.len() && 0 <= j < ixs[k].accounts@.len() implies #[trigger] decoded(
            m,
        )[k].accounts[j] == merged_role(ixs, payer, ixs[k].accounts@[j].address@) by {
        let c = m.instructions@[k];
        assert(ix_faithful(m, c, ixs[k]));
        let idx = c.account_indexes@[j] as int;
        let a = ixs[k].accounts@[j].address@;
        assert(m.account_keys@[idx]@ == a);
        let d = decoded(m)[k].accounts[j];
        assert(d == (a, is_signer_index(m, idx), is_writable_index(m, idx)));
        assert(roles_minimal(m, ixs, payer));
        if a == payer {
            lemma_key_index_unique(m, 0, idx);
        }
        if asked(ixs, a, false) {
            let (k2, j2) = choose|k2: int, j2: int|
                0 <= k2 < ixs.len() && 0 <= j2 < ixs[k2].accounts@.len()
                    && #[trigger] ixs[k2].accounts@[j2].address@ == a
                    && ixs[k2].accounts@[j2].is_signer;
            assert(ix_faithful(m, m.instructions@[k2], ixs[k2]));
            let idx2 = m.instructions@[k2].account_indexes@[j2] as int;
            assert(m.account_keys@[idx2]@ == ixs[k2].accounts@[j2].address@);
            lemma_key_index_unique(m, idx, idx2);
        }
        if asked(ixs, a, true) {
            let (k2, j2) = choose|k2: int, j2: int|
                0 <= k2 < ixs.len() && 0 <= j2 < ixs[k2].accounts@.len()
                    && #[trigger] ixs[k2].accounts@[j2].address@ == a
                    && ixs[k2].accounts@[j2].is_writable;
            assert(ix_faithful(m, m.instructions@[k2], ixs[k2]));
            let idx2 = m.instructions@[k2].account_indexes@[j2] as int;
            assert(m.account_keys@[idx2]@ == ixs[k2].accounts@[j2].address@);
            lemma_key_index_unique(m, idx, idx2);
        }
    }
}

pub open spec fn keys_bytes(keys: Seq<Address>) -> Seq<u8>
    decreases keys.len(),
{
    if keys.len() == 0 {
        seq![]
    } else {
        keys_bytes(keys.drop_last()) + keys.last()@
    }
}

/// A compiled instruction on the wire: program index, a one-byte count and
/// the account indexes, a two-byte little-endian length and the data.
pub open spec fn instruction_bytes(c: CompiledInstruction) -> Seq<u8> {
    seq![c.program_id_index, c.account_indexes@.len() as u8] + c.account_indexes@ + seq![
        (c.data@.len() % 256) as u8,
        (c.data@.len() / 256) as u8,
    ] + c.data@
}

pub open spec fn instructions_bytes(cs: Seq<CompiledInstruction>) -> Seq<u8>
    decreases cs.len(),
{
    if cs.len() == 0 {
        seq![]
    } else {
        instructions_bytes(cs.drop_last()) + instruction_bytes(cs.last())
    }
}

/// The stored bytes of a message: the three header counts, the keys and the
/// instructions each behind a one-byte count, and an empty list of lookup
/// tables.
pub open spec fn message_bytes(m: CompiledMessage) -> Seq<u8> {
    seq![
        m.num_signers,
        m.num_writable_signers,
        m.num_writable_non_signers,
        m.account_keys@.len() as u8,
    ] + keys_bytes(m.account_keys@) + seq![m.instructions@.len() as u8] + instructions_bytes(
        m.instructions@,
    ) + seq![0u8]
}

pub(crate) fn push_all(out: &mut Vec<u8>, b: &[u8])
    ensures
        final(out)@ == old(out)@ + b@,
{
    let mut i: usize = 0;
    while i < b.len()
        invariant
            0 <= i <= b@.len(),
            out@ == old(out)@ + b@.take(i as int),
        decreases b@.len() - i,
    {
        out.push(b[i]);
        i = i + 1;
        assert(out@ =~= old(out)@ + b@.take(i as int));
    }
    assert(b@.take(b@.len() as int) =~= b@);
}

#[verifier::external_type_specification]
#[verifier::external_body]
pub struct ExTransactionMessage(TransactionMessage);

/// Hands a stored message to the program's own `TransactionMessage` type,
/// field by field, with no address table lookups.
#[verifier::external_body]
fn to_transaction_message(m: &CompiledMessage) -> TransactionMessage {
    TransactionMessage {
        num_signers: m.num_signers,
        num_writable_signers: m.num_writable_signers,
        num_writable_non_signers: m.num_writable_non_signers,
        account_keys: m.account_keys.iter().map(|k| Pubkey::new_from_array(k.bytes)).collect::<Vec<_>>().into(),
        instructions: m.instructions.iter().map(
            |c| ProgramCompiledInstruction { program_id_index: c.program_id_index, account_indexes: c.account_indexes.clone().into(), data: c.data.clone().into() },
        ).collect::<Vec<_>>().into(),
        address_table_lookups: Vec::new().into(),
    }
}

/// Relies on the borsh encoding of the program's `TransactionMessage`
/// (`AnchorSerialize` derived, `SmallVec` writing its count in one byte, or in
/// two little-endian bytes for instruction data). It fails when a count
/// exceeds its width, which a well-formed message rules out.
#[verifier::external_body]
fn transaction_message_bytes(m: &CompiledMessage) -> (r: Vec<u8>)
    requires
        well_formed(*m),
    ensures
        r@ == message_bytes(*m),
{
    to_transaction_message(m).try_to_vec().unwrap()
}

/// Encodes a well-formed message into the bytes a vault transaction stores.
pub fn encode_message(m: &CompiledMessage) -> (r: Vec<u8>)
    requires
        well_formed(*m),
    ensures
        r@ == message_bytes(*m),
{
    transaction_message_bytes(m)
}

} // verus!
