//! The stateless service core: the six request operations over plain byte
//! strings, with full validation of every inbound encoding. A transport
//! layer decodes its wire format, hands the byte strings to these
//! methods, and sends the returned bytes back; a decode failure
//! (`Error::InvalidBytes`) is reported distinctly from a failed
//! verification, which is an ordinary `Ok(false)` outcome.

use vstd::prelude::*;

use rand_core::{CryptoRng, RngCore};

use crate::curve::{g1_valid, g2_identity, g2_valid, scalar_valid};
use crate::error::Error;
use crate::keys::apk::{apk_fold, APK};
use crate::keys::public::{derive_spec, pk_t_spec, verify_spec, PublicKey};
use crate::keys::secret::{sign_spec, SecretKey};
use crate::signature::{sig_fold, Signature};

verus! {

/// Whether a byte string is accepted as a public key or aggregated public
/// key: 96 bytes, a valid compressed G2 encoding, not the identity.
pub open spec fn pk_bytes_ok(b: Seq<u8>) -> bool {
    b.len() == 96 && g2_valid(b) && !g2_identity(b)
}

/// Whether a byte string is accepted as a signature: 48 bytes, a valid
/// compressed G1 encoding.
pub open spec fn sig_bytes_ok(b: Seq<u8>) -> bool {
    b.len() == 48 && g1_valid(b)
}

/// Whether a byte string is accepted as a secret key: 32 bytes, a
/// canonical scalar encoding.
pub open spec fn sk_bytes_ok(b: Seq<u8>) -> bool {
    b.len() == 32 && scalar_valid(b)
}

/// The signer service with no state: every inbound key is validated in
/// full on every request.
pub struct MySign {}

impl Default for MySign {
    fn default() -> MySign {
        MySign {  }
    }
}

impl MySign {
    /// Copy a slice into a fixed-size array, failing on any other length.
    /// This is the only length check of the service: past it, every
    /// encoding has its expected width.
    pub fn slice_to_fixed<const N: usize>(s: &[u8]) -> (r: Result<[u8; N], Error>)
        ensures
            match r {
                Ok(a) => s@.len() == N && a@ == s@,
                Err(e) => s@.len() != N && e == Error::InvalidBytes,
            },
    {
        if s.len() != N {
            return Err(Error::InvalidBytes);
        }
        let mut a = [0u8; N];
        let mut i: usize = 0;
        while i < N
            invariant
                i <= N,
                s@.len() == N,
                a@.len() == N,
                forall|j: int| 0 <= j < i ==> a@[j] == s@[j],
            decreases N - i,
        {
            a[i] = s[i];
            i = i + 1;
        }
        proof {
            assert(a@ =~= s@);
        }
        Ok(a)
    }

    /// Decode a signature from a byte string, validating length and
    /// encoding.
    pub fn signature_from_bytes(s: &[u8]) -> (r: Result<Signature, Error>)
        ensures
            match r {
                Ok(sig) => sig_bytes_ok(s@) && sig@ == s@,
                Err(e) => !sig_bytes_ok(s@) && e == Error::InvalidBytes,
            },
    {
        let fixed = MySign::slice_to_fixed::<48>(s)?;
        match Signature::from_bytes(&fixed) {
            Ok(sig) => Ok(sig),
            Err(e) => Err(e),
        }
    }

    /// Decode a public key from a byte string, validating length and
    /// encoding in full.
    pub fn public_from_bytes(s: &[u8]) -> (r: Result<PublicKey, Error>)
        ensures
            match r {
                Ok(pk) => pk_bytes_ok(s@) && pk@ == s@,
                Err(e) => !pk_bytes_ok(s@) && e == Error::InvalidBytes,
            },
    {
        let fixed = MySign::slice_to_fixed::<96>(s)?;
        match PublicKey::from_bytes(&fixed) {
            Ok(pk) => Ok(pk),
            Err(e) => Err(e),
        }
    }

    /// Decode a secret key from a byte string, validating length and
    /// canonicity.
    pub fn secret_from_bytes(s: &[u8]) -> (r: Result<SecretKey, Error>)
        ensures
            match r {
                Ok(sk) => sk_bytes_ok(s@) && sk@ == s@,
                Err(e) => !sk_bytes_ok(s@) && e == Error::InvalidBytes,
            },
    {
        let fixed = MySign::slice_to_fixed::<32>(s)?;
        match SecretKey::from_bytes(&fixed) {
            Ok(sk) => Ok(sk),
            Err(e) => Err(e),
        }
    }

    /// Generate a new key pair from the given entropy source, returning
    /// the serialized secret and public key.
    pub fn generate_keys<T>(&self, rng: &mut T) -> (r: ([u8; 32], [u8; 96])) where
        T: RngCore + CryptoRng,

        ensures
            sk_bytes_ok(r.0@),
            r.1@ == derive_spec(r.0@),
    {
        let sk = SecretKey::random(rng);
        let pk = PublicKey::new(&sk);
        (sk.to_bytes(), pk.to_bytes())
    }

    /// Sign a message with a serialized key pair, returning the
    /// serialized signature of the rogue-key resistant construction.
    pub fn sign_sync(&self, sk: &[u8], pk: &[u8], msg: &[u8]) -> (r: Result<[u8; 48], Error>)
        ensures
            match r {
                Ok(sig) => sk_bytes_ok(sk@) && pk_bytes_ok(pk@) && sig@ == sign_spec(
                    sk@,
                    pk@,
                    msg@,
                ),
                Err(e) => !(sk_bytes_ok(sk@) && pk_bytes_ok(pk@)) && e == Error::InvalidBytes,
            },
    {
        let secret = MySign::secret_from_bytes(sk)?;
        let public = MySign::public_from_bytes(pk)?;
        Ok(secret.sign(&public, msg).to_bytes())
    }

    /// Verify a serialized signature on a message against a serialized
    /// aggregated public key. A decode failure is an error; a failed
    /// pairing check is the ordinary `Ok(false)` outcome.
    pub fn verify_sync(&self, apk: &[u8], sig: &[u8], msg: &[u8]) -> (r: Result<bool, Error>)
        ensures
            match r {
                Ok(valid) => pk_bytes_ok(apk@) && sig_bytes_ok(sig@) && valid == verify_spec(
                    apk@,
                    sig@,
                    msg@,
                ),
                Err(e) => !(pk_bytes_ok(apk@) && sig_bytes_ok(sig@)) && e == Error::InvalidBytes,
            },
    {
        let fixed = MySign::slice_to_fixed::<96>(apk)?;
        let aggregate = match APK::from_bytes(&fixed) {
            Ok(a) => a,
            Err(e) => {
                return Err(e);
            },
        };
        let signature = MySign::signature_from_bytes(sig)?;
        Ok(aggregate.verify(&signature, msg).is_ok())
    }

    /// Create a one-member aggregated public key from a serialized public
    /// key, returning the serialized aggregate.
    pub fn create_apk(&self, pk: &[u8]) -> (r: Result<[u8; 96], Error>)
        ensures
            match r {
                Ok(out) => pk_bytes_ok(pk@) && out@ == pk_t_spec(pk@),
                Err(e) => !pk_bytes_ok(pk@) && e == Error::InvalidBytes,
            },
    {
        let public = MySign::public_from_bytes(pk)?;
        let aggregate = APK::new(&public);
        Ok(aggregate.to_bytes())
    }

    /// Fold a list of serialized public keys into a serialized aggregated
    /// public key.
    pub fn aggregate_pk_sync(&self, apk: &[u8], keys: &[Vec<u8>]) -> (r: Result<[u8; 96], Error>)
        ensures
            match r {
                Ok(out) => pk_bytes_ok(apk@) && (forall|j: int|
                    0 <= j < keys@.len() ==> pk_bytes_ok(keys@[j]@)) && out@ == apk_fold(
                    apk@,
                    keys@.map_values(|k: Vec<u8>| k@),
                ),
                Err(e) => !(pk_bytes_ok(apk@) && (forall|j: int|
                    0 <= j < keys@.len() ==> pk_bytes_ok(keys@[j]@))) && e == Error::InvalidBytes,
            },
    {
        let fixed = MySign::slice_to_fixed::<96>(apk)?;
        let mut aggregate = match APK::from_bytes(&fixed) {
            Ok(a) => a,
            Err(e) => {
                return Err(e);
            },
        };
        let ghost key_views = keys@.map_values(|k: Vec<u8>| k@);
        let mut pks: Vec<PublicKey> = Vec::new();
        let mut i: usize = 0;
        while i < keys.len()
            invariant
                i <= keys@.len(),
                key_views == keys@.map_values(|k: Vec<u8>| k@),
                pks@.len() == i as int,
                forall|j: int| 0 <= j < i ==> pk_bytes_ok(#[trigger] keys@[j]@),
                forall|j: int| 0 <= j < i ==> pks@[j]@ == key_views[j],
            decreases keys@.len() - i,
        {
            let public = MySign::public_from_bytes(keys[i].as_slice())?;
            pks.push(public);
            i = i + 1;
        }
        proof {
            assert(pks@.map_values(|p: PublicKey| p@) =~= key_views);
        }
        aggregate.aggregate(pks.as_slice());
        Ok(aggregate.to_bytes())
    }

    /// Fold a list of serialized signatures into one serialized aggregate
    /// signature.
    pub fn aggregate_sig(&self, sig: &[u8], sigs: &[Vec<u8>]) -> (r: Result<[u8; 48], Error>)
        ensures
            match r {
                Ok(out) => sig_bytes_ok(sig@) && (forall|j: int|
                    0 <= j < sigs@.len() ==> sig_bytes_ok(sigs@[j]@)) && out@ == sig_fold(
                    sig@,
                    sigs@.map_values(|s: Vec<u8>| s@),
                ),
                Err(e) => !(sig_bytes_ok(sig@) && (forall|j: int|
                    0 <= j < sigs@.len() ==> sig_bytes_ok(sigs@[j]@))) && e == Error::InvalidBytes,
            },
    {
        let base = MySign::signature_from_bytes(sig)?;
        let ghost sig_views = sigs@.map_values(|s: Vec<u8>| s@);
        let mut parsed: Vec<Signature> = Vec::new();
        let mut i: usize = 0;
        while i < sigs.len()
            invariant
                i <= sigs@.len(),
                sig_views == sigs@.map_values(|s: Vec<u8>| s@),
                parsed@.len() == i as int,
                forall|j: int| 0 <= j < i ==> sig_bytes_ok(#[trigger] sigs@[j]@),
                forall|j: int| 0 <= j < i ==> parsed@[j]@ == sig_views[j],
            decreases sigs@.len() - i,
        {
            let one = MySign::signature_from_bytes(sigs[i].as_slice())?;
            parsed.push(one);
            i = i + 1;
        }
        proof {
            assert(parsed@.map_values(|s: Signature| s@) =~= sig_views);
        }
        let folded = base.aggregate(parsed.as_slice());
        Ok(folded.to_bytes())
    }
}

} // verus!
