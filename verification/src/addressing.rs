//! Deterministic address derivation: where a record for a given
//! (transaction hash, submitter) pair lives on the host ledger.
//!
//! The hash string is first compressed with keccak-256 so that a
//! variable-length input never overflows the fixed-width derivation seeds;
//! the first eight digest bytes are then combined with a fixed namespace tag
//! and the submitter's key and run through the host's canonical
//! program-address derivation.

use vstd::prelude::*;
use crate::identity::Identity;

verus! {

/// This program's own identity on the host ledger; part of every derived
/// address.
pub const PROGRAM_ID: [u8; 32] = [
    23, 41, 56, 200, 1, 21, 35, 149, 9, 181, 243, 35, 114, 137, 221, 114, 36, 201, 9, 150, 152,
    144, 216, 143, 141, 40, 53, 204, 9, 130, 101, 68,
];

/// The keccak-256 digest of a string's bytes: a function of the characters
/// alone.
pub uninterp spec fn keccak_of(s: Seq<char>) -> Seq<u8>;

/// Relies on `anchor_lang::solana_program::keccak::hash`: a 32-byte digest
/// computed from the input bytes alone.
#[verifier::external_body]
fn keccak256(s: &str) -> (r: Vec<u8>)
    ensures
        r@ == keccak_of(s@),
        r@.len() == 32,
{
    anchor_lang::solana_program::keccak::hash(s.as_bytes()).to_bytes().to_vec()
}

/// The program address (if any) the host derives from the namespace tag, a
/// digest prefix and a submitter key, under this program's id: a function of
/// those seeds alone. A derivable address is 32 bytes.
pub uninterp spec fn pda_of(prefix: Seq<u8>, submitter: Seq<u8>) -> Option<Seq<u8>>;

/// Relies on `Pubkey::try_find_program_address`: deterministic in the seeds
/// and program id; returns `None` only when no bump seed yields a valid
/// off-curve address; a returned address is 32 bytes.
#[verifier::external_body]
fn try_derive_pda(prefix: &Vec<u8>, submitter: &Identity) -> (r: Option<Vec<u8>>)
    ensures
        (r matches Some(a) ==> pda_of(prefix@, submitter@) == Some(a@) && a@.len() == 32),
        (r is None ==> pda_of(prefix@, submitter@) is None),
{
    let program_id = anchor_lang::solana_program::pubkey::Pubkey::new_from_array(PROGRAM_ID);
    let seeds: [&[u8]; 3] = [b"tagged_summary", prefix.as_slice(), &submitter.bytes];
    anchor_lang::solana_program::pubkey::Pubkey::try_find_program_address(&seeds, &program_id)
        .map(|(address, _bump)| address.to_bytes().to_vec())
}

/// The storage address of a record keyed by (transaction hash, submitter):
/// the hash string is compressed with keccak-256, the first eight digest
/// bytes are combined with the submitter's key, and the host's canonical
/// derivation maps them to an address. `None` in the vanishingly rare case
/// that no address is derivable for this pair.
pub open spec fn record_address(hash: Seq<char>, submitter: Seq<u8>) -> Option<Seq<u8>> {
    pda_of(keccak_of(hash).take(8), submitter)
}

/// Derives the storage address for a (transaction hash, submitter) pair.
/// The result is a function of the pair alone, so deriving twice with the
/// same inputs yields the same address.
pub fn derive_address(transaction_hash: &str, submitter: &Identity) -> (r: Option<Vec<u8>>)
    ensures
        (r matches Some(a) ==> record_address(transaction_hash@, submitter@) == Some(a@)
            && a@.len() == 32),
        (r is None ==> record_address(transaction_hash@, submitter@) is None),
{
    let digest = keccak256(transaction_hash);
    let mut prefix: Vec<u8> = Vec::new();
    let mut i: usize = 0;
    while i < 8
        invariant
            i <= 8,
            digest@ == keccak_of(transaction_hash@),
            digest@.len() == 32,
            prefix@ == digest@.take(i as int),
        decreases 8 - i,
    {
        let byte = digest[i];
        prefix.push(byte);
        proof {
            assert(digest@.take(i + 1) =~= digest@.take(i as int).push(digest@[i as int]));
        }
        i = i + 1;
    }
    try_derive_pda(&prefix, submitter)
}

/// Address determinism: the derived address depends on the
/// (hash, submitter) pair alone, so equal pairs give equal addresses.
pub proof fn lemma_address_deterministic(
    hash1: Seq<char>,
    submitter1: Seq<u8>,
    hash2: Seq<char>,
    submitter2: Seq<u8>,
)
    requires
        hash1 == hash2,
        submitter1 == submitter2,
    ensures
        record_address(hash1, submitter1) == record_address(hash2, submitter2),
{
}

} // verus!
