//! Derivation of attribute blobs and ape identifiers.
//!
//! Both are Blake2 digests of a canonical byte encoding: fixed-size arrays as
//! their bytes, an absent price as a single zero byte, integers little-endian.

use crate::types::{AccountId, BlockContext, Dna, ApeId};
use vstd::bytes::{spec_u32_to_le_bytes, spec_u64_to_le_bytes, u32_to_le_bytes, u64_to_le_bytes};
use vstd::prelude::*;

verus! {

/// The 128-bit Blake2b digest of `data`.
pub uninterp spec fn blake2_128_digest(data: Seq<u8>) -> [u8; 16];

/// The 256-bit Blake2b digest of `data`.
pub uninterp spec fn blake2_256_digest(data: Seq<u8>) -> [u8; 32];

/// Calls `sp_io::hashing::blake2_128`. Trusted: the result is the 128-bit
/// Blake2b digest of the bytes, a function of the bytes alone.
#[verifier::external_body]
fn blake2_128(data: &Vec<u8>) -> (digest: Dna)
    ensures
        digest == blake2_128_digest(data@),
{
    sp_io::hashing::blake2_128(data.as_slice())
}

/// Calls `sp_io::hashing::blake2_256`. Trusted: the result is the 256-bit
/// Blake2b digest of the bytes, a function of the bytes alone.
#[verifier::external_body]
fn blake2_256(data: &Vec<u8>) -> (digest: ApeId)
    ensures
        digest == blake2_256_digest(data@),
{
    sp_io::hashing::blake2_256(data.as_slice())
}

/// The bytes from which fresh attributes are derived: the seed, then the
/// extrinsic index, then the block number.
pub open spec fn dna_payload(ctx: BlockContext) -> Seq<u8> {
    ctx.random_seed@ + spec_u32_to_le_bytes(ctx.extrinsic_index) + spec_u32_to_le_bytes(
        ctx.block_number,
    )
}

/// The canonical encoding of an ape at the moment it is minted: its
/// attributes, the marker of an absent price, and its owner.
pub open spec fn ape_encoding(dna: Dna, owner: AccountId) -> Seq<u8> {
    dna@ + seq![0u8] + spec_u64_to_le_bytes(owner)
}

/// The attributes that a mint in the context `ctx` derives.
pub open spec fn gen_dna_spec(ctx: BlockContext) -> Dna {
    blake2_128_digest(dna_payload(ctx))
}

/// The identifier of the ape that `owner` mints with attributes `dna`.
pub open spec fn ape_id_spec(dna: Dna, owner: AccountId) -> ApeId {
    blake2_256_digest(ape_encoding(dna, owner))
}

/// Whether two digests are the same.
pub fn hash_eq(a: &ApeId, b: &ApeId) -> (same: bool)
    ensures
        same == (*a == *b),
{
    let mut i: usize = 0;
    while i < 32
        invariant
            i <= 32,
            forall|j: int| 0 <= j < i ==> a[j] == b[j],
        decreases 32 - i,
    {
        if a[i] != b[i] {
            return false;
        }
        i += 1;
    }
    assert(*a =~= *b);
    true
}

/// Writes the payload of `dna_payload` out as bytes.
pub fn encode_dna_payload(ctx: &BlockContext) -> (bytes: Vec<u8>)
    ensures
        bytes@ == dna_payload(*ctx),
{
    let mut bytes: Vec<u8> = Vec::new();
    let mut i: usize = 0;
    while i < 32
        invariant
            i <= 32,
            bytes@ == ctx.random_seed@.subrange(0, i as int),
        decreases 32 - i,
    {
        bytes.push(ctx.random_seed[i]);
        assert(bytes@ =~= ctx.random_seed@.subrange(0, i + 1));
        i += 1;
    }
    assert(bytes@ =~= ctx.random_seed@);
    let mut index = u32_to_le_bytes(ctx.extrinsic_index);
    let mut number = u32_to_le_bytes(ctx.block_number);
    bytes.append(&mut index);
    bytes.append(&mut number);
    bytes
}

/// Writes the encoding of `ape_encoding` out as bytes.
pub fn encode_ape(dna: &Dna, owner: AccountId) -> (bytes: Vec<u8>)
    ensures
        bytes@ == ape_encoding(*dna, owner),
{
    let mut bytes: Vec<u8> = Vec::new();
    let mut i: usize = 0;
    while i < 16
        invariant
            i <= 16,
            bytes@ == dna@.subrange(0, i as int),
        decreases 16 - i,
    {
        bytes.push(dna[i]);
        assert(bytes@ =~= dna@.subrange(0, i + 1));
        i += 1;
    }
    assert(bytes@ =~= dna@);
    bytes.push(0u8);
    assert(bytes@ =~= dna@ + seq![0u8]);
    let mut account = u64_to_le_bytes(owner);
    bytes.append(&mut account);
    bytes
}

/// Derives the attributes of a fresh ape from the host's randomness and the
/// position of the operation. The same context always gives the same blob.
pub fn gen_dna(ctx: &BlockContext) -> (dna: Dna)
    ensures
        dna == gen_dna_spec(*ctx),
{
    let payload = encode_dna_payload(ctx);
    blake2_128(&payload)
}

/// Computes the identifier under which `owner` mints an ape with attributes
/// `dna`.
pub fn ape_id(dna: &Dna, owner: AccountId) -> (id: ApeId)
    ensures
        id == ape_id_spec(*dna, owner),
{
    let encoded = encode_ape(dna, owner);
    blake2_256(&encoded)
}

} // verus!
