//! Deterministic address derivation for records.
//!
//! A record's storage address is derived from a namespace tag, the owning
//! identity and — for documents — a bounded title fragment, together with a
//! bump nonce: the first value in the canonical search order for which the
//! derived address is not a valid point on the signing curve, so that no
//! discoverable private key can ever control a record address.  Derivation
//! is deterministic: identical inputs always yield the identical address
//! and nonce.  It fails only when no nonce in the search range works — a
//! fatal configuration error, not a recoverable condition.

use vstd::prelude::*;

use crate::document::{spec_title_seed, Document};
use crate::pubkey::Pubkey;
use crate::seeds::{
    clerk_tag, document_tag, spec_clerk_tag, spec_document_tag, spec_staged_tag, staged_tag,
};

verus! {

/// The derived address and bump nonce for a seed list under a program id,
/// or nothing when the seed list exceeds the derivation's bounds or no
/// nonce in the search range yields an off-curve address.  A function of
/// its arguments alone.
pub uninterp spec fn pda_of(seeds: Seq<Seq<u8>>, program: Seq<u8>) -> Option<(Seq<u8>, u8)>;

/// Relies on solana_program's `Pubkey::try_find_program_address`: the
/// derived address and bump nonce are computed from the seed bytes and the
/// program id alone, so identical inputs always return the identical pair;
/// `None` comes only when there are too many seeds, a seed is too long, or
/// no bump in the search range yields an off-curve address.
#[verifier::external_body]
fn find_pda(seeds: &Vec<Vec<u8>>, program: &Pubkey) -> (r: Option<(Pubkey, u8)>)
    ensures
        match r {
            Some(p) => pda_of(seeds@.map_values(|s: Vec<u8>| s@), program.bytes()) == Some(
                (p.0.bytes(), p.1),
            ),
            None => pda_of(seeds@.map_values(|s: Vec<u8>| s@), program.bytes()) is None,
        },
{
    let mut seed_slices: Vec<&[u8]> = Vec::new();
    for s in seeds.iter() {
        seed_slices.push(s.as_slice());
    }
    let program_bytes: [u8; 32] = program.to_bytes().try_into().unwrap();
    let program_id = solana_program::pubkey::Pubkey::new_from_array(program_bytes);
    solana_program::pubkey::Pubkey::try_find_program_address(&seed_slices, &program_id).map(
        |p: (solana_program::pubkey::Pubkey, u8)| (Pubkey::from_bytes(&p.0.to_bytes()), p.1),
    )
}

/// The seed list under which an authority's clerk address is derived.
pub open spec fn spec_clerk_seeds(authority: Pubkey) -> Seq<Seq<u8>> {
    seq![spec_clerk_tag(), authority.bytes()]
}

/// The seed list under which an authority's staged clerk copy is derived.
pub open spec fn spec_staged_clerk_seeds(authority: Pubkey) -> Seq<Seq<u8>> {
    seq![spec_clerk_tag(), spec_staged_tag(), authority.bytes()]
}

/// The seed list under which a document's address is derived: only the
/// title's first 32 bytes take part, so two titles sharing that prefix
/// derive the same address by design.
pub open spec fn spec_document_seeds(authority: Pubkey, title: Seq<u8>) -> Seq<Seq<u8>> {
    seq![spec_document_tag(), authority.bytes(), spec_title_seed(title)]
}

/// Derives the clerk address for `authority` under `program_id`.
pub fn derive_clerk_address(program_id: &Pubkey, authority: &Pubkey) -> (r: Option<(Pubkey, u8)>)
    ensures
        match r {
            Some(p) => pda_of(spec_clerk_seeds(*authority), program_id.bytes()) == Some(
                (p.0.bytes(), p.1),
            ),
            None => pda_of(spec_clerk_seeds(*authority), program_id.bytes()) is None,
        },
{
    let mut seeds: Vec<Vec<u8>> = Vec::new();
    seeds.push(clerk_tag());
    seeds.push(authority.to_bytes());
    proof {
        assert(seeds@.map_values(|s: Vec<u8>| s@) =~= spec_clerk_seeds(*authority));
    }
    find_pda(&seeds, program_id)
}

/// Derives the staged clerk copy's address for `authority` under
/// `program_id`.
pub fn derive_staged_clerk_address(program_id: &Pubkey, authority: &Pubkey) -> (r: Option<
    (Pubkey, u8),
>)
    ensures
        match r {
            Some(p) => pda_of(spec_staged_clerk_seeds(*authority), program_id.bytes()) == Some(
                (p.0.bytes(), p.1),
            ),
            None => pda_of(spec_staged_clerk_seeds(*authority), program_id.bytes()) is None,
        },
{
    let mut seeds: Vec<Vec<u8>> = Vec::new();
    seeds.push(clerk_tag());
    seeds.push(staged_tag());
    seeds.push(authority.to_bytes());
    proof {
        assert(seeds@.map_values(|s: Vec<u8>| s@) =~= spec_staged_clerk_seeds(*authority));
    }
    find_pda(&seeds, program_id)
}

/// Derives the document address for `authority` and `title` under
/// `program_id`; only the title's first 32 bytes enter the derivation.
pub fn derive_document_address(program_id: &Pubkey, authority: &Pubkey, title: &Vec<u8>) -> (r:
    Option<(Pubkey, u8)>)
    ensures
        match r {
            Some(p) => pda_of(spec_document_seeds(*authority, title@), program_id.bytes()) == Some(
                (p.0.bytes(), p.1),
            ),
            None => pda_of(spec_document_seeds(*authority, title@), program_id.bytes()) is None,
        },
{
    let mut seeds: Vec<Vec<u8>> = Vec::new();
    seeds.push(document_tag());
    seeds.push(authority.to_bytes());
    seeds.push(Document::title_seed(title));
    proof {
        assert(seeds@.map_values(|s: Vec<u8>| s@) =~= spec_document_seeds(*authority, title@));
    }
    find_pda(&seeds, program_id)
}

/// Address derivation is deterministic and stable: the derived pair is a
/// function of the seed list and program id alone, so identical inputs
/// always yield the identical address and nonce.
pub proof fn lemma_derivation_deterministic(
    seeds1: Seq<Seq<u8>>,
    program1: Seq<u8>,
    seeds2: Seq<Seq<u8>>,
    program2: Seq<u8>,
)
    requires
        seeds1 == seeds2,
        program1 == program2,
    ensures
        pda_of(seeds1, program1) == pda_of(seeds2, program2),
{
}

} // verus!
