//! Trusted boundary to the pairing-capable elliptic-curve library.
//!
//! The scheme holds every value as its canonical byte encoding: a scalar as
//! 32 little-endian bytes below the field modulus, a G1 point as its 48-byte
//! compressed encoding, a G2 point as its 96-byte compressed encoding. The
//! compressed encodings that `dusk_bls12_381` accepts are canonical — one
//! byte string per point — so byte equality of validated encodings is point
//! equality, and contracts can speak of points as byte sequences.
//!
//! The group operations themselves are carried out by `dusk_bls12_381`
//! behind the wrappers below. No short formula states what a scalar
//! multiplication or a pairing returns, so each wrapper's result is given a
//! name by an uninterpreted spec function; the contracts of the scheme are
//! exact relative to those names.

use vstd::prelude::*;

use dusk_bls12_381::{BlsScalar, G1Affine, G1Projective, G2Affine, G2Projective};

verus! {

/// Whether 32 bytes are the canonical encoding of a scalar, that is,
/// whether `BlsScalar::from_bytes` accepts them.
pub uninterp spec fn scalar_valid(b: Seq<u8>) -> bool;

/// The canonical encoding of the scalar obtained by reducing a 512-bit
/// little-endian integer modulo the field order
/// (`BlsScalar::from_bytes_wide`).
pub uninterp spec fn reduce_wide(w: Seq<u8>) -> Seq<u8>;

/// Whether 48 bytes are a valid compressed G1 encoding, that is, whether
/// `G1Affine::from_compressed` accepts them (on the curve, in the prime
/// order subgroup; the identity has a valid encoding).
pub uninterp spec fn g1_valid(b: Seq<u8>) -> bool;

/// Whether 96 bytes are a valid compressed G2 encoding
/// (`G2Affine::from_compressed` accepts them).
pub uninterp spec fn g2_valid(b: Seq<u8>) -> bool;

/// Whether 96 bytes are the compressed encoding of the G2 identity
/// (the point at infinity).
pub uninterp spec fn g2_identity(b: Seq<u8>) -> bool;

/// The compressed encoding of the G1 generator multiplied by a scalar.
pub uninterp spec fn g1_base_mul(s: Seq<u8>) -> Seq<u8>;

/// The compressed encoding of the G2 generator multiplied by a scalar.
pub uninterp spec fn g2_base_mul(s: Seq<u8>) -> Seq<u8>;

/// The compressed encoding of a G1 point multiplied by a scalar.
pub uninterp spec fn g1_scale(p: Seq<u8>, s: Seq<u8>) -> Seq<u8>;

/// The compressed encoding of a G2 point multiplied by a scalar.
pub uninterp spec fn g2_scale(p: Seq<u8>, s: Seq<u8>) -> Seq<u8>;

/// The compressed encoding of the sum of two G1 points.
pub uninterp spec fn g1_sum(a: Seq<u8>, b: Seq<u8>) -> Seq<u8>;

/// The compressed encoding of the sum of two G2 points.
pub uninterp spec fn g2_sum(a: Seq<u8>, b: Seq<u8>) -> Seq<u8>;

/// Whether the pairing equation of the scheme holds:
/// `e(sig, G2 generator) == e(hm, pk)`, with all three points given by
/// their compressed encodings.
pub uninterp spec fn pairing_holds(sig: Seq<u8>, hm: Seq<u8>, pk: Seq<u8>) -> bool;

/// The 192-byte uncompressed encoding of the G2 point with the given
/// compressed encoding (`G2Affine::to_uncompressed`).
pub uninterp spec fn g2_uncompress(c: Seq<u8>) -> Seq<u8>;

/// The compressed encoding of the point that the unchecked uncompressed
/// parse (`G2Affine::from_uncompressed_unchecked`) yields, or `None` where
/// that parse fails. The parse skips the curve and subgroup checks, so a
/// `Some` result alone says nothing about validity.
pub uninterp spec fn g2_recompress(r: Seq<u8>) -> Option<Seq<u8>>;

/// Relies on `BlsScalar::from_bytes`: it succeeds exactly on the canonical
/// little-endian encodings of integers below the field modulus.
#[verifier::external_body]
pub(crate) fn check_scalar(b: &[u8; 32]) -> (r: bool)
    ensures
        r == scalar_valid(b@),
{
    bool::from(BlsScalar::from_bytes(b).is_some())
}

/// Relies on `BlsScalar::from_bytes_wide` (reduction modulo the field
/// order) and on `BlsScalar::to_bytes`, whose output is always canonical.
#[verifier::external_body]
pub(crate) fn scalar_from_wide(w: &[u8; 64]) -> (r: [u8; 32])
    ensures
        r@ == reduce_wide(w@),
        scalar_valid(r@),
{
    BlsScalar::from_bytes_wide(w).to_bytes()
}

/// Relies on `G1Affine::from_compressed`, which validates the encoding
/// (canonical field element, point on curve, subgroup membership).
#[verifier::external_body]
pub(crate) fn check_g1(b: &[u8; 48]) -> (r: bool)
    ensures
        r == g1_valid(b@),
{
    bool::from(G1Affine::from_compressed(b).is_some())
}

/// Relies on `G2Affine::from_compressed` for validation and on
/// `G2Affine::is_identity` for the identity test of the decoded point.
#[verifier::external_body]
pub(crate) fn check_g2(b: &[u8; 96]) -> (r: (bool, bool))
    ensures
        r.0 == g2_valid(b@),
        r.1 == g2_identity(b@),
        r.1 ==> r.0,
{
    match Option::<G2Affine>::from(G2Affine::from_compressed(b)) {
        Some(p) => (true, bool::from(p.is_identity())),
        None => (false, false),
    }
}

/// Relies on scalar multiplication of the G1 generator
/// (`G1Affine::generator() * scalar`); the result stays in the subgroup,
/// so its compressed encoding is valid.
#[verifier::external_body]
pub(crate) fn g1_mul_base(s: &[u8; 32]) -> (r: [u8; 48])
    requires
        scalar_valid(s@),
    ensures
        r@ == g1_base_mul(s@),
        g1_valid(r@),
{
    let k = BlsScalar::from_bytes(s).unwrap();
    G1Affine::from(G1Affine::generator() * k).to_compressed()
}

/// Relies on scalar multiplication of the G2 generator
/// (`G2Affine::generator() * scalar`).
#[verifier::external_body]
pub(crate) fn g2_mul_base(s: &[u8; 32]) -> (r: [u8; 96])
    requires
        scalar_valid(s@),
    ensures
        r@ == g2_base_mul(s@),
        g2_valid(r@),
{
    let k = BlsScalar::from_bytes(s).unwrap();
    G2Affine::from(G2Affine::generator() * k).to_compressed()
}

/// Relies on G1 scalar multiplication (`G1Affine * BlsScalar`).
#[verifier::external_body]
pub(crate) fn g1_mul_point(p: &[u8; 48], s: &[u8; 32]) -> (r: [u8; 48])
    requires
        g1_valid(p@),
        scalar_valid(s@),
    ensures
        r@ == g1_scale(p@, s@),
        g1_valid(r@),
{
    let pt = G1Affine::from_compressed(p).unwrap();
    let k = BlsScalar::from_bytes(s).unwrap();
    G1Affine::from(pt * k).to_compressed()
}

/// Relies on G2 scalar multiplication (`G2Affine * BlsScalar`).
#[verifier::external_body]
pub(crate) fn g2_mul_point(p: &[u8; 96], s: &[u8; 32]) -> (r: [u8; 96])
    requires
        g2_valid(p@),
        scalar_valid(s@),
    ensures
        r@ == g2_scale(p@, s@),
        g2_valid(r@),
{
    let pt = G2Affine::from_compressed(p).unwrap();
    let k = BlsScalar::from_bytes(s).unwrap();
    G2Affine::from(pt * k).to_compressed()
}

/// Relies on G1 point addition (`G1Projective + G1Projective`).
#[verifier::external_body]
pub(crate) fn g1_add_points(a: &[u8; 48], b: &[u8; 48]) -> (r: [u8; 48])
    requires
        g1_valid(a@),
        g1_valid(b@),
    ensures
        r@ == g1_sum(a@, b@),
        g1_valid(r@),
{
    let pa = G1Projective::from(G1Affine::from_compressed(a).unwrap());
    let pb = G1Projective::from(G1Affine::from_compressed(b).unwrap());
    G1Affine::from(pa + pb).to_compressed()
}

/// Relies on G2 point addition (`G2Projective + G2Projective`).
#[verifier::external_body]
pub(crate) fn g2_add_points(a: &[u8; 96], b: &[u8; 96]) -> (r: [u8; 96])
    requires
        g2_valid(a@),
        g2_valid(b@),
    ensures
        r@ == g2_sum(a@, b@),
        g2_valid(r@),
{
    let pa = G2Projective::from(G2Affine::from_compressed(a).unwrap());
    let pb = G2Projective::from(G2Affine::from_compressed(b).unwrap());
    G2Affine::from(pa + pb).to_compressed()
}

/// Relies on `dusk_bls12_381::pairing`: the result compares the pairing of
/// the signature with the G2 generator against the pairing of the hashed
/// message with the public key.
#[verifier::external_body]
pub(crate) fn pairing_check(sig: &[u8; 48], hm: &[u8; 48], pk: &[u8; 96]) -> (r: bool)
    requires
        g1_valid(sig@),
        g1_valid(hm@),
        g2_valid(pk@),
    ensures
        r == pairing_holds(sig@, hm@, pk@),
{
    let ps = G1Affine::from_compressed(sig).unwrap();
    let ph = G1Affine::from_compressed(hm).unwrap();
    let pp = G2Affine::from_compressed(pk).unwrap();
    let left = dusk_bls12_381::pairing(&ps, &G2Affine::generator());
    let right = dusk_bls12_381::pairing(&ph, &pp);
    left == right
}

/// Relies on `G2Affine::to_uncompressed` and on the round trip that
/// `G2Affine::from_uncompressed_unchecked` documents for bytes produced by
/// it: parsing the uncompressed encoding back yields the same point.
#[verifier::external_body]
pub(crate) fn g2_to_uncompressed(c: &[u8; 96]) -> (r: [u8; 192])
    requires
        g2_valid(c@),
    ensures
        r@ == g2_uncompress(c@),
        g2_recompress(r@) == Some(c@),
{
    G2Affine::from_compressed(c).unwrap().to_uncompressed()
}

/// Relies on `G2Affine::from_uncompressed_unchecked`, which parses the two
/// coordinates without the curve and subgroup checks, failing only where
/// the bytes are not a well-formed uncompressed encoding (a non-canonical
/// field element, or inconsistent flag bits).
#[verifier::external_body]
pub(crate) fn g2_from_uncompressed_unchecked(raw: &[u8; 192]) -> (r: Option<[u8; 96]>)
    ensures
        match r {
            Some(c) => g2_recompress(raw@) == Some(c@),
            None => g2_recompress(raw@) is None,
        },
{
    match Option::<G2Affine>::from(G2Affine::from_uncompressed_unchecked(raw)) {
        Some(p) => Some(p.to_compressed()),
        None => None,
    }
}

} // verus!
