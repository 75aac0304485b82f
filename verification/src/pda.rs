//! Deterministic derivation of intermediate sub-account identities.
//!
//! A sub-account's identity is a program-derived address: a seeded,
//! collision-probed hash of a fixed domain tag, the little-endian seed, the
//! layer byte and the program identity.  The derivation also yields a bump
//! byte guaranteeing the address is program-only.  Presenting the very same
//! seed components plus the bump byte to the ledger authorizes a transfer
//! out of the derived account, so the functions here are the root of both
//! addressing and spending authority.

use vstd::bytes::spec_u64_to_le_bytes;
use vstd::bytes::u64_to_le_bytes;
use vstd::prelude::*;

use crate::error::MixError;

verus! {

/// What `solana_program::Pubkey::try_find_program_address` returns for the
/// given seed byte strings and program identity: the derived address and
/// its bump byte, a function of the arguments alone.
pub uninterp spec fn find_program_address_of(seeds: Seq<Seq<u8>>, program_id: Seq<u8>) -> Option<
    (Seq<u8>, u8),
>;

/// What `solana_program::Pubkey::create_program_address` returns for the
/// given seed byte strings and program identity: the hashed address, unless
/// the hash is not program-only or a seed exceeds the length limits, a
/// function of the arguments alone.
pub uninterp spec fn program_address_of(seeds: Seq<Seq<u8>>, program_id: Seq<u8>) -> Option<
    Seq<u8>,
>;

/// The byte views of a list of seed byte strings.
pub open spec fn seqs_of(vs: Seq<Vec<u8>>) -> Seq<Seq<u8>> {
    vs.map_values(|v: Vec<u8>| v@)
}

/// The fixed domain-separation tag: the ASCII bytes of `mix_intermediate`.
pub open spec fn mix_domain_tag() -> Seq<u8> {
    seq![
        109u8,
        105u8,
        120u8,
        95u8,
        105u8,
        110u8,
        116u8,
        101u8,
        114u8,
        109u8,
        101u8,
        100u8,
        105u8,
        97u8,
        116u8,
        101u8,
    ]
}

/// The seed byte strings from which a sub-account identity is derived: the
/// domain tag, the little-endian seed and the single layer byte.
pub open spec fn derivation_seeds(seed: u64, layer: u8) -> Seq<Seq<u8>> {
    seq![mix_domain_tag(), spec_u64_to_le_bytes(seed), seq![layer]]
}

/// The seed byte strings presented to the ledger as proof of authorization:
/// exactly the derivation seeds followed by the single bump byte.
pub open spec fn signer_seeds_for(seed: u64, layer: u8, bump: u8) -> Seq<Seq<u8>> {
    derivation_seeds(seed, layer).push(seq![bump])
}

/// The domain tag as bytes.
fn mix_domain_tag_bytes() -> (r: Vec<u8>)
    ensures
        r@ == mix_domain_tag(),
{
    let mut v: Vec<u8> = Vec::new();
    v.push(109u8);
    v.push(105u8);
    v.push(120u8);
    v.push(95u8);
    v.push(105u8);
    v.push(110u8);
    v.push(116u8);
    v.push(101u8);
    v.push(114u8);
    v.push(109u8);
    v.push(101u8);
    v.push(100u8);
    v.push(105u8);
    v.push(97u8);
    v.push(116u8);
    v.push(101u8);
    proof {
        assert(v@ =~= mix_domain_tag());
    }
    v
}

/// Relies on `solana_program::Pubkey::try_find_program_address`: it
/// deterministically probes bump bytes from 255 downward and returns the
/// first address that `Pubkey::create_program_address` yields for the seeds
/// followed by that bump byte, together with the bump byte itself.
#[verifier::external_body]
fn find_pda(seeds: &Vec<Vec<u8>>, program_id: &[u8; 32]) -> (r: Option<([u8; 32], u8)>)
    ensures
        r is Some <==> find_program_address_of(seqs_of(seeds@), program_id@) is Some,
        r matches Some(p) ==> find_program_address_of(seqs_of(seeds@), program_id@) == Some(
            (p.0@, p.1),
        ),
        r matches Some(p) ==> program_address_of(
            seqs_of(seeds@).push(seq![p.1]),
            program_id@,
        ) == Some(p.0@),
{
    let pid = solana_program::pubkey::Pubkey::new_from_array(*program_id);
    let refs: Vec<&[u8]> = seeds.iter().map(|s| s.as_slice()).collect();
    solana_program::pubkey::Pubkey::try_find_program_address(&refs, &pid).map(
        |p: (solana_program::pubkey::Pubkey, u8)| (p.0.to_bytes(), p.1),
    )
}

/// Relies on `solana_program::Pubkey::create_program_address`: a
/// deterministic hash of the seed byte strings and the program identity.
#[verifier::external_body]
fn create_pda(seeds: &Vec<Vec<u8>>, program_id: &[u8; 32]) -> (r: Option<[u8; 32]>)
    ensures
        r is Some <==> program_address_of(seqs_of(seeds@), program_id@) is Some,
        r matches Some(a) ==> program_address_of(seqs_of(seeds@), program_id@) == Some(a@),
{
    let pid = solana_program::pubkey::Pubkey::new_from_array(*program_id);
    let refs: Vec<&[u8]> = seeds.iter().map(|s| s.as_slice()).collect();
    solana_program::pubkey::Pubkey::create_program_address(&refs, &pid).ok().map(
        |a: solana_program::pubkey::Pubkey| a.to_bytes(),
    )
}

/// Compares two 32-byte identities.
pub(crate) fn identity_eq(a: &[u8; 32], b: &[u8; 32]) -> (r: bool)
    ensures
        r == (a@ == b@),
{
    let mut i: usize = 0;
    while i < 32
        invariant
            i <= 32,
            forall|k: int| 0 <= k < i ==> a@[k] == b@[k],
        decreases 32 - i,
    {
        if a[i] != b[i] {
            return false;
        }
        i += 1;
    }
    proof {
        assert(a@ =~= b@);
    }
    true
}

/// Derives the identity and bump byte of the intermediate sub-account for
/// one layer.  The result is determined by the program identity, the seed
/// and the layer; on the rare inputs where the derivation finds no
/// program-only address it fails with `PDADerivationFailed`.  Presenting
/// the same seed components plus the returned bump byte to the address hash
/// re-yields the returned address (the authorization round trip).
pub fn generate_intermediate_pda(program_id: &[u8; 32], seed: u64, layer: u8) -> (r: Result<
    ([u8; 32], u8),
    MixError,
>)
    ensures
        r is Ok <==> find_program_address_of(derivation_seeds(seed, layer), program_id@) is Some,
        r matches Ok(p) ==> find_program_address_of(derivation_seeds(seed, layer), program_id@)
            == Some((p.0@, p.1)),
        r matches Ok(p) ==> program_address_of(
            signer_seeds_for(seed, layer, p.1),
            program_id@,
        ) == Some(p.0@),
        r is Err ==> r == Err::<([u8; 32], u8), MixError>(MixError::PDADerivationFailed),
{
    let mut seeds: Vec<Vec<u8>> = Vec::new();
    seeds.push(mix_domain_tag_bytes());
    seeds.push(u64_to_le_bytes(seed));
    let mut layer_bytes: Vec<u8> = Vec::new();
    layer_bytes.push(layer);
    proof {
        assert(layer_bytes@ =~= seq![layer]);
    }
    seeds.push(layer_bytes);
    proof {
        assert(seqs_of(seeds@) =~= derivation_seeds(seed, layer));
    }
    match find_pda(&seeds, program_id) {
        Some(p) => {
            proof {
                assert(seqs_of(seeds@).push(seq![p.1]) =~= signer_seeds_for(seed, layer, p.1));
            }
            Ok(p)
        },
        None => Err(MixError::PDADerivationFailed),
    }
}

/// Builds the authorization seed byte strings for the sub-account of one
/// layer: byte-identical to the components the derivation consumed,
/// followed by the bump byte.
pub fn generate_pda_signer_seeds(seed: u64, layer: u8, bump_seed: u8) -> (r: Vec<Vec<u8>>)
    ensures
        seqs_of(r@) == signer_seeds_for(seed, layer, bump_seed),
{
    let mut seeds: Vec<Vec<u8>> = Vec::new();
    seeds.push(mix_domain_tag_bytes());
    seeds.push(u64_to_le_bytes(seed));
    let mut layer_bytes: Vec<u8> = Vec::new();
    layer_bytes.push(layer);
    proof {
        assert(layer_bytes@ =~= seq![layer]);
    }
    seeds.push(layer_bytes);
    let mut bump_bytes: Vec<u8> = Vec::new();
    bump_bytes.push(bump_seed);
    proof {
        assert(bump_bytes@ =~= seq![bump_seed]);
    }
    seeds.push(bump_bytes);
    proof {
        assert(seqs_of(seeds@) =~= signer_seeds_for(seed, layer, bump_seed));
    }
    seeds
}

/// Checks that a list of authorization seed byte strings re-derives the
/// expected identity: the test the ledger applies to a derivation proof.
pub fn verify_derivation_proof(seeds: &Vec<Vec<u8>>, program_id: &[u8; 32], expected: &[u8; 32]) -> (r:
    bool)
    ensures
        r == (program_address_of(seqs_of(seeds@), program_id@) == Some(expected@)),
{
    match create_pda(seeds, program_id) {
        Some(addr) => identity_eq(&addr, expected),
        None => false,
    }
}

/// Law: derivation is deterministic.  Two results of the derivation for one
/// program identity, seed and layer are the same `(address, bump)` pair.
pub proof fn lemma_derive_deterministic(
    program_id: Seq<u8>,
    seed: u64,
    layer: u8,
    r1: Option<(Seq<u8>, u8)>,
    r2: Option<(Seq<u8>, u8)>,
)
    requires
        r1 == find_program_address_of(derivation_seeds(seed, layer), program_id),
        r2 == find_program_address_of(derivation_seeds(seed, layer), program_id),
    ensures
        r1 == r2,
{
}

} // verus!
