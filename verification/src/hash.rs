//! The two hash functions of the BLS signature scheme.
//!
//! `h0` maps an arbitrary byte string to a G1 point (hash-to-curve), so a
//! verifier can recompute the message-dependent group element a signer
//! used. `h1` maps a public key to its binding scalar, the per-key factor
//! that makes the multi-signature construction resistant to rogue-key
//! attacks. Both are deterministic: the same input bytes always yield the
//! same output element.

use vstd::prelude::*;

use blake2::{Blake2b512, Digest};

use crate::curve::{
    g1_base_mul, g1_mul_base, g1_valid, reduce_wide, scalar_from_wide, scalar_valid,
};
use crate::keys::public::PublicKey;

verus! {

/// The 64-byte Blake2b digest of a byte string.
pub uninterp spec fn blake2b_digest(m: Seq<u8>) -> Seq<u8>;

/// Relies on `blake2::Blake2b512`: a 512-bit digest that depends on the
/// input bytes alone.
#[verifier::external_body]
fn blake2b_hash(msg: &[u8]) -> (r: [u8; 64])
    ensures
        r@ == blake2b_digest(msg@),
{
    let mut hasher = Blake2b512::new();
    hasher.update(msg);
    hasher.finalize().into()
}

/// The canonical encoding of the scalar that hashing a byte string yields:
/// a wide (512-bit) Blake2b digest, reduced modulo the field order so the
/// result is unbiased and guaranteed below the modulus.
pub open spec fn hash_to_scalar(m: Seq<u8>) -> Seq<u8> {
    reduce_wide(blake2b_digest(m))
}

/// Hash an arbitrary slice of bytes into the canonical encoding of a
/// scalar.
fn h(msg: &[u8]) -> (r: [u8; 32])
    ensures
        r@ == hash_to_scalar(msg@),
        scalar_valid(r@),
{
    let digest = blake2b_hash(msg);
    scalar_from_wide(&digest)
}

/// What `h0` returns: the G1 generator scaled by the hashed message.
pub open spec fn h0_spec(m: Seq<u8>) -> Seq<u8> {
    g1_base_mul(hash_to_scalar(m))
}

/// h0 is the hash-to-curve-point function of the scheme: it maps a message
/// to a G1 point, returned as its 48-byte compressed encoding.
pub fn h0(msg: &[u8]) -> (r: [u8; 48])
    ensures
        r@ == h0_spec(msg@),
        g1_valid(r@),
{
    let s = h(msg);
    g1_mul_base(&s)
}

/// What `h1` returns: the binding scalar of a public key, obtained by
/// hashing its compressed encoding.
pub open spec fn h1_spec(pk: Seq<u8>) -> Seq<u8> {
    hash_to_scalar(pk)
}

/// h1 is the hashing function of the modified BLS multi-signature
/// construction: it maps a public key to the scalar that binds this key's
/// contribution to an aggregate, returned in canonical 32-byte encoding.
pub fn h1(pk: &PublicKey) -> (r: [u8; 32])
    ensures
        r@ == h1_spec(pk@),
        scalar_valid(r@),
{
    let bytes = pk.to_bytes();
    h(bytes.as_slice())
}

} // verus!
