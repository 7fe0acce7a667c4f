//! The secret key: a scalar of the curve's scalar field, held in its
//! canonical 32-byte encoding.

use vstd::prelude::*;

use rand_core::{CryptoRng, RngCore};

use crate::curve::{check_scalar, g1_mul_point, g1_scale, scalar_from_wide, scalar_valid};
use crate::error::Error;
use crate::hash::{h0, h0_spec, h1, h1_spec};
use crate::keys::public::PublicKey;
use crate::signature::Signature;


verus! {

/// Relies on `rand_core::RngCore::fill_bytes` to draw 64 bytes of entropy
/// from the caller's cryptographically secure source; nothing is assumed
/// of the bytes drawn.
#[verifier::external_body]
fn fill_random_wide<T>(rng: &mut T) -> (r: [u8; 64]) where T: RngCore + CryptoRng {
    let mut buf = [0u8; 64];
    rng.fill_bytes(&mut buf);
    buf
}

/// What the vulnerable signing path returns: the hashed message scaled by
/// the secret scalar.
pub open spec fn sign_vulnerable_spec(sk: Seq<u8>, m: Seq<u8>) -> Seq<u8> {
    g1_scale(h0_spec(m), sk)
}

/// What the rogue-key resistant signing path returns: the vulnerable
/// signature scaled once more by the binding scalar of the signer's own
/// public key.
pub open spec fn sign_spec(sk: Seq<u8>, pk: Seq<u8>, m: Seq<u8>) -> Seq<u8> {
    g1_scale(sign_vulnerable_spec(sk, m), h1_spec(pk))
}

/// A BLS secret key, holding a scalar of the BLS12-381 scalar field in its
/// canonical encoding. Can be used for signing messages.
#[derive(Copy, Clone, Debug, PartialEq, Eq)]
pub struct SecretKey {
    bytes: [u8; 32],
}

impl View for SecretKey {
    type V = Seq<u8>;

    closed spec fn view(&self) -> Seq<u8> {
        self.bytes@
    }
}

impl SecretKey {
    /// Every secret key holds a canonical scalar encoding.
    #[verifier::type_invariant]
    pub open spec fn wf(self) -> bool {
        scalar_valid(self@) && self@.len() == 32
    }

    /// Generates a new uniformly random [`SecretKey`] from the given
    /// entropy source: 64 random bytes reduced modulo the field order.
    pub fn random<T>(rng: &mut T) -> SecretKey where T: RngCore + CryptoRng {
        let wide = fill_random_wide(rng);
        let bytes = scalar_from_wide(&wide);
        SecretKey { bytes }
    }

    /// Generates a new random [`SecretKey`] (same as [`SecretKey::random`]).
    pub fn new<T>(rng: &mut T) -> SecretKey where T: RngCore + CryptoRng {
        SecretKey::random(rng)
    }

    /// The scalar bytes, for crate-internal use.
    pub(crate) fn bytes_ref(&self) -> (r: &[u8; 32])
        ensures
            r@ == self@,
            scalar_valid(self@),
    {
        proof {
            use_type_invariant(self);
        }
        &self.bytes
    }

    /// Sign a message, producing a [`Signature`].
    /// The signature produced is vulnerable to a rogue-key attack.
    pub fn sign_vulnerable(&self, msg: &[u8]) -> (r: Signature)
        ensures
            r@ == sign_vulnerable_spec(self@, msg@),
    {
        proof {
            use_type_invariant(self);
        }
        let hm = h0(msg);
        let e = g1_mul_point(&hm, &self.bytes);
        Signature::from_validated_bytes(e)
    }

    /// Sign a message in a rogue-key attack resistant way: the caller
    /// passes the public key that corresponds to this secret key, and the
    /// signature is bound to it. The result verifies only against an
    /// aggregated public key that includes `pk`.
    pub fn sign(&self, pk: &PublicKey, msg: &[u8]) -> (r: Signature)
        ensures
            r@ == sign_spec(self@, pk@, msg@),
    {
        proof {
            use_type_invariant(self);
        }
        let sig = self.sign_vulnerable(msg);
        let t = h1(pk);
        let bound = g1_mul_point(&sig.to_bytes(), &t);
        Signature::from_validated_bytes(bound)
    }

    /// Return the canonical byte representation of the [`SecretKey`].
    pub fn to_bytes(&self) -> (r: [u8; 32])
        ensures
            r@ == self@,
            scalar_valid(r@),
    {
        proof {
            use_type_invariant(self);
        }
        self.bytes
    }

    /// Attempt to create a [`SecretKey`] from a scalar byte representation,
    /// failing on any non-canonical encoding.
    pub fn from_bytes(bytes: &[u8; 32]) -> (r: Result<SecretKey, Error>)
        ensures
            match r {
                Ok(sk) => scalar_valid(bytes@) && sk@ == bytes@,
                Err(e) => !scalar_valid(bytes@) && e == Error::InvalidBytes,
            },
    {
        if check_scalar(bytes) {
            Ok(SecretKey { bytes: *bytes })
        } else {
            Err(Error::InvalidBytes)
        }
    }

    /// Return the amount of bytes needed to serialize a [`SecretKey`].
    pub fn serialized_size() -> (r: usize)
        ensures
            r == 32,
    {
        32
    }
}

} // verus!
