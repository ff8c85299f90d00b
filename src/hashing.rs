use vstd::prelude::*;
use anchor_lang::solana_program::pubkey::Pubkey;
use light_hasher::Hasher;
use crate::context::AddressContext;

verus! {

/// What `light_utils::hash_to_bn254_field_size_be` gives for a byte string.
pub uninterp spec fn field_reduction_of(bytes: Seq<u8>) -> Option<Seq<u8>>;

/// What `light_hasher::Poseidon::hashv` gives for a list of inputs.
pub uninterp spec fn poseidon_of(inputs: Seq<Seq<u8>>) -> Option<Seq<u8>>;

/// What `light_hasher::Sha256::hash` gives for a byte string.
pub uninterp spec fn sha256_of(bytes: Seq<u8>) -> Option<Seq<u8>>;

/// What `light_sdk::address::derive_address_seed` gives for seed parts, an
/// owner and an address tree.
pub uninterp spec fn address_seed_of(parts: Seq<Seq<u8>>, owner: Seq<u8>, tree: Seq<u8>) -> Seq<u8>;

/// What `light_system_program::sdk::address::derive_address` gives for an
/// address tree and a seed.
pub uninterp spec fn address_of(tree: Seq<u8>, seed: Seq<u8>) -> Option<Seq<u8>>;

/// What `Pubkey::create_program_address` gives for seeds and a program.
pub uninterp spec fn program_address_of(seeds: Seq<Seq<u8>>, program: Seq<u8>) -> Option<Seq<u8>>;

/// The largest number of seeds that `Pubkey::create_program_address` accepts.
pub const MAX_SEEDS: usize = 16;

/// The longest seed that `Pubkey::create_program_address` accepts.
pub const MAX_SEED_LEN: usize = 32;

/// Relies on `light_utils::hash_to_bn254_field_size_be`: a Keccak hash of the
/// bytes and a bump, whose leading byte is cleared; `None` when no bump gives a
/// value below the BN254 field size.
#[verifier::external_body]
pub(crate) fn reduce_to_field(bytes: &[u8]) -> (r: Option<[u8; 32]>)
    ensures
        r matches Some(v) ==> field_reduction_of(bytes@) == Some(v@) && v@[0] == 0,
        r is None ==> field_reduction_of(bytes@) is None,
{
    light_utils::hash_to_bn254_field_size_be(bytes).map(|p| p.0)
}

/// Relies on `light_hasher::Poseidon::hashv`: the Poseidon hash of the inputs,
/// or an error (an input longer than 32 bytes, or not a field element).
#[verifier::external_body]
pub(crate) fn poseidon(a: &[u8; 32], b: &[u8; 32]) -> (r: Option<[u8; 32]>)
    ensures
        r matches Some(v) ==> poseidon_of(seq![a@, b@]) == Some(v@),
        r is None ==> poseidon_of(seq![a@, b@]) is None,
{
    light_hasher::Poseidon::hashv(&[a.as_slice(), b.as_slice()]).ok()
}

/// Relies on `light_hasher::Sha256::hash`: the SHA-256 digest of the bytes.
#[verifier::external_body]
pub(crate) fn sha256(bytes: &[u8]) -> (r: Option<[u8; 32]>)
    ensures
        r matches Some(v) ==> sha256_of(bytes@) == Some(v@),
        r is None ==> sha256_of(bytes@) is None,
{
    light_hasher::Sha256::hash(bytes).ok()
}

/// Relies on `light_sdk::address::derive_address_seed`: a Keccak hash of the
/// owner, the address tree and the seed parts in order, with its leading byte
/// cleared.
#[verifier::external_body]
pub(crate) fn address_seed(parts: &Vec<Vec<u8>>, owner: &[u8; 32], ctx: &AddressContext) -> (r: [u8; 32])
    ensures
        r@ == address_seed_of(parts@.map_values(|p: Vec<u8>| p@), owner@, ctx.tree@),
        r@[0] == 0,
{
    let slices: Vec<&[u8]> = parts.iter().map(|p| p.as_slice()).collect();
    let context = light_sdk::merkle_context::AddressMerkleContext {
        address_merkle_tree_pubkey: Pubkey::new_from_array(ctx.tree),
        address_queue_pubkey: Pubkey::new_from_array(ctx.queue),
    };
    light_sdk::address::derive_address_seed(&slices, &Pubkey::new_from_array(*owner), &context)
}

/// Relies on `light_system_program::sdk::address::derive_address`: the
/// address that a seed takes in an address tree, or an error when the hash
/// cannot be brought below the field size.
#[verifier::external_body]
pub(crate) fn address(tree: &[u8; 32], seed: &[u8; 32]) -> (r: Option<[u8; 32]>)
    ensures
        r matches Some(v) ==> address_of(tree@, seed@) == Some(v@),
        r is None ==> address_of(tree@, seed@) is None,
{
    light_system_program::sdk::address::derive_address(&Pubkey::new_from_array(*tree), seed).ok()
}

/// Relies on `Pubkey::create_program_address`: the program address of the
/// seeds, or an error for more than `MAX_SEEDS` seeds, a seed longer than
/// `MAX_SEED_LEN`, or a hash that is a valid curve point.
#[verifier::external_body]
pub(crate) fn program_address(seeds: &Vec<Vec<u8>>, program: &[u8; 32]) -> (r: Option<[u8; 32]>)
    ensures
        r matches Some(v) ==> program_address_of(seeds@.map_values(|s: Vec<u8>| s@), program@) == Some(v@),
        r is None ==> program_address_of(seeds@.map_values(|s: Vec<u8>| s@), program@) is None,
        seeds@.len() > MAX_SEEDS ==> r is None,
        (exists|i: int| 0 <= i < seeds@.len() && seeds@[i]@.len() > MAX_SEED_LEN) ==> r is None,
{
    let slices: Vec<&[u8]> = seeds.iter().map(|s| s.as_slice()).collect();
    Pubkey::create_program_address(&slices, &Pubkey::new_from_array(*program)).ok().map(|k| k.to_bytes())
}

} // verus!
