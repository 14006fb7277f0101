//! Program-derived addresses: the seed lists that the multisig program expects
//! and the derivation of an address (with its bump) from them.

use solana_program::pubkey::Pubkey;
use vstd::prelude::*;

verus! {

/// A 32-byte ledger address.
#[derive(Clone, Copy, Debug, PartialEq, Eq)]
pub struct Address {
    pub bytes: [u8; 32],
}

impl View for Address {
    type V = Seq<u8>;

    open spec fn view(&self) -> Seq<u8> {
        self.bytes@
    }
}

/// Compares two addresses byte by byte.
pub fn address_eq(a: &Address, b: &Address) -> (r: bool)
    ensures
        r == (a@ == b@),
{
    let mut i: usize = 0;
    while i < 32
        invariant
            0 <= i <= 32,
            a@.len() == 32,
            b@.len() == 32,
            forall|k: int| 0 <= k < i ==> a@[k] == b@[k],
        decreases 32 - i,
    {
        if a.bytes[i] != b.bytes[i] {
            return false;
        }
        i = i + 1;
    }
    assert(a@ =~= b@);
    true
}

/// What an account address is derived for.
#[derive(Clone, Copy, Debug, PartialEq, Eq)]
pub enum Purpose {
    /// The vault with the given vault index.
    Vault(u8),
    /// The vault transaction with the given transaction index.
    Transaction(u64),
    /// The proposal that votes on the given transaction index.
    Proposal(u64),
}

/// The fixed prefix of every seed list: the bytes of "multisig".
pub open spec fn prefix_tag() -> Seq<u8> {
    seq![109u8, 117u8, 108u8, 116u8, 105u8, 115u8, 105u8, 103u8]
}

/// The bytes of "vault".
pub open spec fn vault_tag() -> Seq<u8> {
    seq![118u8, 97u8, 117u8, 108u8, 116u8]
}

/// The bytes of "transaction".
pub open spec fn transaction_tag() -> Seq<u8> {
    seq![116u8, 114u8, 97u8, 110u8, 115u8, 97u8, 99u8, 116u8, 105u8, 111u8, 110u8]
}

/// The bytes of "proposal".
pub open spec fn proposal_tag() -> Seq<u8> {
    seq![112u8, 114u8, 111u8, 112u8, 111u8, 115u8, 97u8, 108u8]
}

/// The eight little-endian bytes of `n`.
pub open spec fn le_bytes(n: u64) -> Seq<u8> {
    seq![
        (n & 0xff) as u8,
        ((n >> 8u64) & 0xff) as u8,
        ((n >> 16u64) & 0xff) as u8,
        ((n >> 24u64) & 0xff) as u8,
        ((n >> 32u64) & 0xff) as u8,
        ((n >> 40u64) & 0xff) as u8,
        ((n >> 48u64) & 0xff) as u8,
        ((n >> 56u64) & 0xff) as u8,
    ]
}

/// The seed list, in order, from which the address for `purpose` under the
/// multisig account `multisig` is derived.
pub open spec fn seed_list(multisig: Seq<u8>, purpose: Purpose) -> Seq<Seq<u8>> {
    match purpose {
        Purpose::Vault(v) => seq![prefix_tag(), multisig, vault_tag(), seq![v]],
        Purpose::Transaction(i) => seq![prefix_tag(), multisig, transaction_tag(), le_bytes(i)],
        Purpose::Proposal(i) => seq![
            prefix_tag(),
            multisig,
            transaction_tag(),
            le_bytes(i),
            proposal_tag(),
        ],
    }
}

pub open spec fn seeds_view(seeds: Seq<Vec<u8>>) -> Seq<Seq<u8>> {
    seeds.map_values(|s: Vec<u8>| s@)
}

pub open spec fn derived_view(r: Option<(Address, u8)>) -> Option<(Seq<u8>, u8)> {
    match r {
        Some((a, b)) => Some((a@, b)),
        None => None,
    }
}

/// The program-derived address (and bump) that the ledger computes for a seed
/// list under a program, or `None` where no bump gives a valid address.
pub uninterp spec fn program_address_of(seeds: Seq<Seq<u8>>, program: Seq<u8>) -> Option<(Seq<u8>, u8)>;

/// Relies on `Pubkey::try_find_program_address`: a hash of the seeds, the
/// program and a bump, so its result depends on these arguments alone.
#[verifier::external_body]
fn try_find_program_address(seeds: &Vec<Vec<u8>>, program: &Address) -> (r: Option<(Address, u8)>)
    ensures
        derived_view(r) == program_address_of(seeds_view(seeds@), program@),
{
    let refs: Vec<&[u8]> = seeds.iter().map(|s| s.as_slice()).collect();
    Pubkey::try_find_program_address(&refs, &Pubkey::new_from_array(program.bytes)).map(
        |(k, b)| (Address { bytes: k.to_bytes() }, b),
    )
}

fn le_bytes_of(n: u64) -> (r: Vec<u8>)
    ensures
        r@ == le_bytes(n),
{
    let r = vec![
        (n & 0xff) as u8,
        ((n >> 8u64) & 0xff) as u8,
        ((n >> 16u64) & 0xff) as u8,
        ((n >> 24u64) & 0xff) as u8,
        ((n >> 32u64) & 0xff) as u8,
        ((n >> 40u64) & 0xff) as u8,
        ((n >> 48u64) & 0xff) as u8,
        ((n >> 56u64) & 0xff) as u8,
    ];
    assert(r@ =~= le_bytes(n));
    r
}

/// The bytes of an address as a vector.
pub fn address_bytes(a: &Address) -> (r: Vec<u8>)
    ensures
        r@ == a@,
{
    let mut r: Vec<u8> = Vec::new();
    let mut i: usize = 0;
    while i < 32
        invariant
            0 <= i <= 32,
            a@.len() == 32,
            r@ == a@.take(i as int),
        decreases 32 - i,
    {
        r.push(a.bytes[i]);
        i = i + 1;
        assert(r@ =~= a@.take(i as int));
    }
    assert(a@.take(32) =~= a@);
    r
}

/// Builds the seed list for `purpose` under `multisig`.
pub fn seeds_for(multisig: &Address, purpose: Purpose) -> (r: Vec<Vec<u8>>)
    ensures
        seeds_view(r@) == seed_list(multisig@, purpose),
{
    let prefix = vec![109u8, 117u8, 108u8, 116u8, 105u8, 115u8, 105u8, 103u8];
    let tx_tag = vec![116u8, 114u8, 97u8, 110u8, 115u8, 97u8, 99u8, 116u8, 105u8, 111u8, 110u8];
    let ms = address_bytes(multisig);
    assert(prefix@ =~= prefix_tag());
    assert(tx_tag@ =~= transaction_tag());
    let mut r: Vec<Vec<u8>> = Vec::new();
    r.push(prefix);
    r.push(ms);
    match purpose {
        Purpose::Vault(v) => {
            let tag = vec![118u8, 97u8, 117u8, 108u8, 116u8];
            assert(tag@ =~= vault_tag());
            let idx = vec![v];
            assert(idx@ =~= seq![v]);
            r.push(tag);
            r.push(idx);
        },
        Purpose::Transaction(i) => {
            r.push(tx_tag);
            r.push(le_bytes_of(i));
        },
        Purpose::Proposal(i) => {
            let tag = vec![112u8, 114u8, 111u8, 112u8, 111u8, 115u8, 97u8, 108u8];
            assert(tag@ =~= proposal_tag());
            r.push(tx_tag);
            r.push(le_bytes_of(i));
            r.push(tag);
        },
    }
    assert(seeds_view(r@) =~= seed_list(multisig@, purpose));
    r
}

/// Derives the address and bump for `purpose` under `multisig` and `program`;
/// `None` where the ledger's derivation finds no bump.
pub fn derive_address(multisig: &Address, purpose: Purpose, program: &Address) -> (r: Option<
    (Address, u8),
>)
    ensures
        derived_view(r) == program_address_of(seed_list(multisig@, purpose), program@),
{
    let seeds = seeds_for(multisig, purpose);
    try_find_program_address(&seeds, program)
}

proof fn lemma_le_bytes_injective(a: u64, b: u64)
    requires
        le_bytes(a) == le_bytes(b),
    ensures
        a == b,
{
    assert(le_bytes(a)[0] == le_bytes(b)[0]);
    assert(le_bytes(a)[1] == le_bytes(b)[1]);
    assert(le_bytes(a)[2] == le_bytes(b)[2]);
    assert(le_bytes(a)[3] == le_bytes(b)[3]);
    assert(le_bytes(a)[4] == le_bytes(b)[4]);
    assert(le_bytes(a)[5] == le_bytes(b)[5]);
    assert(le_bytes(a)[6] == le_bytes(b)[6]);
    assert(le_bytes(a)[7] == le_bytes(b)[7]);
    assert(a == b) by (bit_vector)
        requires
            (a & 0xff) as u8 == (b & 0xff) as u8,
            ((a >> 8u64) & 0xff) as u8 == ((b >> 8u64) & 0xff) as u8,
            ((a >> 16u64) & 0xff) as u8 == ((b >> 16u64) & 0xff) as u8,
            ((a >> 24u64) & 0xff) as u8 == ((b >> 24u64) & 0xff) as u8,
            ((a >> 32u64) & 0xff) as u8 == ((b >> 32u64) & 0xff) as u8,
            ((a >> 40u64) & 0xff) as u8 == ((b >> 40u64) & 0xff) as u8,
            ((a >> 48u64) & 0xff) as u8 == ((b >> 48u64) & 0xff) as u8,
            ((a >> 56u64) & 0xff) as u8 == ((b >> 56u64) & 0xff) as u8,
    ;
}

/// Address derivation is a function of its seed tuple: equal tuples give the
/// same derived address, and tuples that differ in the multisig account, the
/// purpose or the index give different seed lists, which is all that
/// separates their addresses short of a hash collision.
pub proof fn lemma_derivation_separates_seeds(
    multisig1: Seq<u8>,
    purpose1: Purpose,
    multisig2: Seq<u8>,
    purpose2: Purpose,
    program: Seq<u8>,
)
    ensures
        (multisig1 == multisig2 && purpose1 == purpose2) ==> program_address_of(
            seed_list(multisig1, purpose1),
            program,
        ) == program_address_of(seed_list(multisig2, purpose2), program),
        (multisig1 != multisig2 || purpose1 != purpose2) ==> seed_list(multisig1, purpose1)
            != seed_list(multisig2, purpose2),
{
    if multisig1 != multisig2 || purpose1 != purpose2 {
        let s1 = seed_list(multisig1, purpose1);
        let s2 = seed_list(multisig2, purpose2);
        if s1 == s2 {
            assert(s1[1] == s2[1]);
            assert(s1[2] == s2[2]);
            assert(s1.len() == s2.len());
            match (purpose1, purpose2) {
                (Purpose::Vault(a), Purpose::Vault(b)) => {
                    assert(s1[3][0] == s2[3][0]);
                },
                (Purpose::Transaction(a), Purpose::Transaction(b)) => {
                    assert(s1[3] == s2[3]);
                    lemma_le_bytes_injective(a, b);
                },
                (Purpose::Proposal(a), Purpose::Proposal(b)) => {
                    assert(s1[3] == s2[3]);
                    lemma_le_bytes_injective(a, b);
                },
                (Purpose::Vault(_), _) => {
                    assert(s1[2].len() != s2[2].len());
                },
                (_, Purpose::Vault(_)) => {
                    assert(s1[2].len() != s2[2].len());
                },
                _ => {},
            }
        }
    }
}

} // verus!
