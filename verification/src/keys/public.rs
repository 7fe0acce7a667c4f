//! The public key: a G2 point, held in its canonical 96-byte compressed
//! encoding. Derived from a secret key as `sk · G2 generator`.

use vstd::prelude::*;

use crate::curve::{
    check_g2, g2_base_mul, g2_identity, g2_mul_base, g2_mul_point, g2_recompress, g2_scale,
    g2_to_uncompressed, g2_uncompress, g2_valid, pairing_check, pairing_holds,
    g2_from_uncompressed_unchecked,
};
use crate::error::Error;
use crate::hash::{h0, h0_spec, h1, h1_spec};
use crate::keys::secret::SecretKey;
use crate::signature::Signature;

verus! {

/// What deriving a public key returns: the G2 generator scaled by the
/// secret scalar.
pub open spec fn derive_spec(sk: Seq<u8>) -> Seq<u8> {
    g2_base_mul(sk)
}

/// What `pk_t` returns: the key scaled by its own binding scalar,
/// `pk · h1(pk)`. This is the per-key transform applied before any
/// aggregation.
pub open spec fn pk_t_spec(pk: Seq<u8>) -> Seq<u8> {
    g2_scale(pk, h1_spec(pk))
}

/// Whether a single verification succeeds: the pairing equation
/// `e(sig, G2 generator) == e(h0(m), pk)` holds.
pub open spec fn verify_spec(pk: Seq<u8>, sig: Seq<u8>, m: Seq<u8>) -> bool {
    pairing_holds(sig, h0_spec(m), pk)
}

/// A BLS public key, holding the compressed encoding of a G2 point.
/// Can be used for signature verification.
#[derive(Copy, Clone, Debug, PartialEq, Eq)]
pub struct PublicKey {
    bytes: [u8; 96],
}

impl View for PublicKey {
    type V = Seq<u8>;

    closed spec fn view(&self) -> Seq<u8> {
        self.bytes@
    }
}

impl PublicKey {
    /// Every public key holds a valid compressed G2 encoding: on the
    /// curve and in the prime-order subgroup.
    #[verifier::type_invariant]
    pub open spec fn wf(self) -> bool {
        g2_valid(self@) && self@.len() == 96
    }

    /// Wrap bytes already known to be a valid compressed G2 encoding.
    pub(crate) fn from_validated_bytes(bytes: [u8; 96]) -> (r: PublicKey)
        requires
            g2_valid(bytes@),
        ensures
            r@ == bytes@,
    {
        PublicKey { bytes }
    }

    /// Generates the [`PublicKey`] that matches a [`SecretKey`]:
    /// `pk = sk · g2`.
    pub fn new(sk: &SecretKey) -> (r: PublicKey)
        ensures
            r@ == derive_spec(sk@),
    {
        let gx = g2_mul_base(sk.bytes_ref());
        PublicKey { bytes: gx }
    }

    /// Verify a [`Signature`] by comparing the results of the two pairing
    /// operations: `e(sig, g2) == e(h0(m), pk)`. Succeeds only on the
    /// vulnerable (unprotected) signature form; a protected signature is
    /// only meaningful against an aggregated public key.
    pub fn verify(&self, sig: &Signature, msg: &[u8]) -> (r: Result<(), Error>)
        ensures
            r is Ok <==> verify_spec(self@, sig@, msg@),
            r is Err ==> r->Err_0 == Error::InvalidSignature,
    {
        proof {
            use_type_invariant(self);
        }
        let hm = h0(msg);
        if pairing_check(&sig.to_bytes(), &hm, &self.bytes) {
            Ok(())
        } else {
            Err(Error::InvalidSignature)
        }
    }

    /// Return `pk · t`, where `t = h1(pk)` is this key's binding scalar.
    pub fn pk_t(&self) -> (r: [u8; 96])
        ensures
            r@ == pk_t_spec(self@),
            g2_valid(r@),
    {
        proof {
            use_type_invariant(self);
        }
        let t = h1(self);
        g2_mul_point(&self.bytes, &t)
    }

    /// Return the compressed byte representation of the [`PublicKey`].
    pub fn to_bytes(&self) -> (r: [u8; 96])
        ensures
            r@ == self@,
            g2_valid(r@),
    {
        proof {
            use_type_invariant(self);
        }
        self.bytes
    }

    /// Attempt to create a [`PublicKey`] from a compressed G2 byte
    /// representation. Fails on any encoding that is not a valid curve
    /// point of the prime-order subgroup, and on the identity.
    pub fn from_bytes(bytes: &[u8; 96]) -> (r: Result<PublicKey, Error>)
        ensures
            match r {
                Ok(pk) => g2_valid(bytes@) && !g2_identity(bytes@) && pk@ == bytes@,
                Err(e) => !(g2_valid(bytes@) && !g2_identity(bytes@)) && e == Error::InvalidBytes,
            },
    {
        let (valid, identity) = check_g2(bytes);
        if valid && !identity {
            Ok(PublicKey { bytes: *bytes })
        } else {
            Err(Error::InvalidBytes)
        }
    }

    /// Raw bytes representation: the uncompressed encoding, which can be
    /// read back without the expensive validity checks.
    ///
    /// The intended usage of this function is for trusted sets of data
    /// where performance is critical. For secure serialization, check
    /// [`PublicKey::to_bytes`].
    pub fn to_raw_bytes(&self) -> (r: [u8; 192])
        ensures
            r@ == g2_uncompress(self@),
            g2_recompress(r@) == Some(self@),
    {
        proof {
            use_type_invariant(self);
        }
        g2_to_uncompressed(&self.bytes)
    }

    /// Create a [`PublicKey`] from bytes created by
    /// [`PublicKey::to_raw_bytes`], skipping every validity check.
    ///
    /// The caller must pass only bytes that were produced by
    /// `to_raw_bytes` on a validated key — that is what the precondition
    /// states. On any other input the scheme's security assumptions are
    /// violated without a detectable error, so no weaker contract is
    /// offered. For secure deserialization, check [`PublicKey::from_bytes`].
    pub fn from_slice_unchecked(raw: &[u8]) -> (r: PublicKey)
        requires
            raw@.len() == 192,
            g2_recompress(raw@) is Some,
            g2_valid(g2_recompress(raw@)->Some_0),
        ensures
            r@ == g2_recompress(raw@)->Some_0,
    {
        let mut fixed = [0u8; 192];
        let mut i: usize = 0;
        while i < 192
            invariant
                i <= 192,
                raw@.len() == 192,
                fixed@.len() == 192,
                forall|j: int| 0 <= j < i ==> fixed@[j] == raw@[j],
            decreases 192 - i,
        {
            fixed[i] = raw[i];
            i = i + 1;
        }
        proof {
            assert(fixed@ =~= raw@);
        }
        match g2_from_uncompressed_unchecked(&fixed) {
            Some(c) => PublicKey { bytes: c },
            None => {
                proof {
                    assert(false);
                }
                PublicKey { bytes: [0u8; 96] }
            },
        }
    }

    /// Returns true if the inner point is the identity (the point at
    /// infinity).
    pub fn is_identity(&self) -> (r: bool)
        ensures
            r == g2_identity(self@),
    {
        proof {
            use_type_invariant(self);
        }
        let (_, identity) = check_g2(&self.bytes);
        identity
    }

    /// Returns true if the inner point is valid: on the curve, in the
    /// prime-order subgroup, and not the identity.
    pub fn is_valid(&self) -> (r: bool)
        ensures
            r == (g2_valid(self@) && !g2_identity(self@)),
    {
        proof {
            use_type_invariant(self);
        }
        let (valid, identity) = check_g2(&self.bytes);
        valid && !identity
    }

    /// Return the amount of bytes needed to serialize a [`PublicKey`].
    pub fn serialized_size() -> (r: usize)
        ensures
            r == 96,
    {
        96
    }
}

} // verus!
