//! The signer service with a validation cache.
//!
//! The cache maps each compressed public-key encoding that was validated
//! once to its raw (uncompressed) encoding, so a repeated inbound key is
//! reconstructed by the cheap unchecked parse instead of the expensive
//! curve and subgroup checks. Entries are only ever inserted — a
//! validated mapping never changes — and failed decodes are never
//! cached, so the cache is transparent: every request gets exactly the
//! answer it would get without it.

use vstd::prelude::*;

use rand_core::{CryptoRng, RngCore};

use crate::curve::{g2_identity, g2_recompress, g2_valid};
use crate::error::Error;
use crate::keys::apk::{apk_fold, APK};
use crate::keys::public::{derive_spec, pk_t_spec, verify_spec, PublicKey};
use crate::keys::secret::{sign_spec, SecretKey};
use crate::service::{pk_bytes_ok, sig_bytes_ok, sk_bytes_ok, MySign};
use crate::signature::{sig_fold, Signature};

verus! {

/// What the cache invariant holds of every entry: the key is a validated
/// non-identity compressed G2 encoding, and the stored raw bytes parse
/// back (unchecked) to exactly that encoding.
pub open spec fn cache_entry_ok(e: (Seq<u8>, Seq<u8>)) -> bool {
    &&& e.0.len() == 96
    &&& g2_valid(e.0)
    &&& !g2_identity(e.0)
    &&& e.1.len() == 192
    &&& g2_recompress(e.1) == Some(e.0)
}

/// Compare two 96-byte keys.
fn key_bytes_eq(a: &[u8; 96], b: &[u8; 96]) -> (r: bool)
    ensures
        r == (a@ == b@),
{
    let mut i: usize = 0;
    while i < 96
        invariant
            i <= 96,
            forall|j: int| 0 <= j < i ==> a@[j] == b@[j],
        decreases 96 - i,
    {
        if a[i] != b[i] {
            return false;
        }
        i = i + 1;
    }
    proof {
        assert(a@ =~= b@);
    }
    true
}

/// The signer service backed by the validation cache. The cache is owned
/// by the instance; a server shares it behind a reference-counted,
/// lock-guarded handle.
pub struct BlsSigner {
    cache: Vec<([u8; 96], [u8; 192])>,
}

impl View for BlsSigner {
    type V = Seq<(Seq<u8>, Seq<u8>)>;

    closed spec fn view(&self) -> Seq<(Seq<u8>, Seq<u8>)> {
        self.cache@.map_values(|e: ([u8; 96], [u8; 192])| (e.0@, e.1@))
    }
}

impl Default for BlsSigner {
    /// A fresh signer with an empty cache.
    fn default() -> (r: BlsSigner)
        ensures
            r@ == Seq::<(Seq<u8>, Seq<u8>)>::empty(),
    {
        BlsSigner::new()
    }
}

impl BlsSigner {
    /// Every cached entry is a validated mapping, and no compressed
    /// encoding is cached twice.
    #[verifier::type_invariant]
    pub open spec fn wf(self) -> bool {
        &&& forall|j: int| 0 <= j < self@.len() ==> cache_entry_ok(#[trigger] self@[j])
        &&& forall|j: int, k: int| 0 <= j < k < self@.len() ==> self@[j].0 != self@[k].0
    }

    /// A fresh signer with an empty cache.
    pub fn new() -> (r: BlsSigner)
        ensures
            r@ == Seq::<(Seq<u8>, Seq<u8>)>::empty(),
    {
        let cache: Vec<([u8; 96], [u8; 192])> = Vec::new();
        proof {
            assert(cache@.map_values(|e: ([u8; 96], [u8; 192])| (e.0@, e.1@)) =~= Seq::<
                (Seq<u8>, Seq<u8>),
            >::empty());
        }
        BlsSigner { cache }
    }

    /// Look a compressed key up in the cache.
    fn lookup(&self, key: &[u8; 96]) -> (r: Option<[u8; 192]>)
        ensures
            match r {
                Some(raw) => exists|j: int|
                    0 <= j < self@.len() && self@[j].0 == key@ && self@[j].1 == raw@,
                None => forall|j: int| 0 <= j < self@.len() ==> (#[trigger] self@[j]).0 != key@,
            },
    {
        let mut i: usize = 0;
        while i < self.cache.len()
            invariant
                i <= self.cache@.len(),
                self@.len() == self.cache@.len(),
                forall|j: int| 0 <= j < i ==> (#[trigger] self@[j]).0 != key@,
            decreases self.cache@.len() - i,
        {
            let entry = &self.cache[i];
            if key_bytes_eq(&entry.0, key) {
                proof {
                    assert(self@[i as int] == (self.cache@[i as int].0@, self.cache@[i as int].1@));
                }
                return Some(entry.1);
            }
            i = i + 1;
        }
        None
    }

    /// Insert a validated mapping. The caller shows the entry is valid
    /// and its key not yet cached.
    fn insert(&mut self, key: [u8; 96], raw: [u8; 192])
        requires
            cache_entry_ok((key@, raw@)),
            forall|j: int| 0 <= j < old(self)@.len() ==> (#[trigger] old(self)@[j]).0 != key@,
        ensures
            final(self)@ == old(self)@.push((key@, raw@)),
    {
        proof {
            use_type_invariant(&*self);
        }
        let ghost prior = self@;
        let mut cache: Vec<([u8; 96], [u8; 192])> = Vec::new();
        std::mem::swap(&mut cache, &mut self.cache);
        cache.push((key, raw));
        proof {
            assert(cache@.map_values(|e: ([u8; 96], [u8; 192])| (e.0@, e.1@)) =~= prior.push(
                (key@, raw@),
            ));
        }
        self.cache = cache;
    }

    /// Reconstruct a public key from inbound compressed bytes through the
    /// cache: a hit skips the validity checks by parsing the stored raw
    /// bytes; a miss validates in full and, on success, caches the
    /// mapping. The outcome is exactly that of [`PublicKey::from_bytes`],
    /// whatever the cache held.
    pub fn public_from_cache(&mut self, pk: &[u8]) -> (r: Result<PublicKey, Error>)
        ensures
            match r {
                Ok(k) => pk_bytes_ok(pk@) && k@ == pk@,
                Err(e) => !pk_bytes_ok(pk@) && e == Error::InvalidBytes,
            },
            old(self)@.len() <= final(self)@.len(),
            forall|j: int| 0 <= j < old(self)@.len() ==> final(self)@[j] == old(self)@[j],
    {
        proof {
            use_type_invariant(&*self);
        }
        let fixed = match MySign::slice_to_fixed::<96>(pk) {
            Ok(a) => a,
            Err(e) => {
                return Err(e);
            },
        };
        match self.lookup(&fixed) {
            Some(raw) => Ok(PublicKey::from_slice_unchecked(raw.as_slice())),
            None => {
                match PublicKey::from_bytes(&fixed) {
                    Ok(k) => {
                        let raw = k.to_raw_bytes();
                        self.insert(fixed, raw);
                        Ok(k)
                    },
                    Err(e) => Err(e),
                }
            },
        }
    }

    /// Reconstruct an aggregated public key from inbound compressed bytes
    /// through the cache, with the same outcome as [`APK::from_bytes`].
    pub fn apk_from_cache(&mut self, apk: &[u8]) -> (r: Result<APK, Error>)
        ensures
            match r {
                Ok(a) => pk_bytes_ok(apk@) && a@ == apk@,
                Err(e) => !pk_bytes_ok(apk@) && e == Error::InvalidBytes,
            },
            old(self)@.len() <= final(self)@.len(),
            forall|j: int| 0 <= j < old(self)@.len() ==> final(self)@[j] == old(self)@[j],
    {
        proof {
            use_type_invariant(&*self);
        }
        let fixed = match MySign::slice_to_fixed::<96>(apk) {
            Ok(a) => a,
            Err(e) => {
                return Err(e);
            },
        };
        match self.lookup(&fixed) {
            Some(raw) => Ok(APK::from_slice_unchecked(raw.as_slice())),
            None => {
                match APK::from_bytes(&fixed) {
                    Ok(a) => {
                        let raw = a.to_raw_bytes();
                        self.insert(fixed, raw);
                        Ok(a)
                    },
                    Err(e) => Err(e),
                }
            },
        }
    }

    /// Generate a new key pair, returning the serialized secret and
    /// public key and caching the public key's validated mapping.
    pub fn generate_keys_sync<T>(&mut self, rng: &mut T) -> (r: ([u8; 32], [u8; 96])) where
        T: RngCore + CryptoRng,

        ensures
            sk_bytes_ok(r.0@),
            r.1@ == derive_spec(r.0@),
            old(self)@.len() <= final(self)@.len(),
            forall|j: int| 0 <= j < old(self)@.len() ==> final(self)@[j] == old(self)@[j],
    {
        let sk = SecretKey::random(rng);
        let pk = PublicKey::new(&sk);
        let pk_bytes = pk.to_bytes();
        if pk.is_valid() {
            if self.lookup(&pk_bytes).is_none() {
                let raw = pk.to_raw_bytes();
                self.insert(pk_bytes, raw);
            }
        }
        (sk.to_bytes(), pk_bytes)
    }

    /// Sign a message with a serialized key pair; the public key may come
    /// from the cache.
    pub fn sign_sync(&mut self, sk: &[u8], pk: &[u8], msg: &[u8]) -> (r: Result<[u8; 48], Error>)
        ensures
            match r {
                Ok(sig) => sk_bytes_ok(sk@) && pk_bytes_ok(pk@) && sig@ == sign_spec(
                    sk@,
                    pk@,
                    msg@,
                ),
                Err(e) => !(sk_bytes_ok(sk@) && pk_bytes_ok(pk@)) && e == Error::InvalidBytes,
            },
    {
        let secret = MySign::secret_from_bytes(sk)?;
        let public = self.public_from_cache(pk)?;
        Ok(secret.sign(&public, msg).to_bytes())
    }

    /// Verify a serialized signature on a message against a serialized
    /// aggregated public key. A decode failure is an error; a failed
    /// pairing check is the ordinary `Ok(false)` outcome.
    pub fn verify_sync(&mut self, apk: &[u8], sig: &[u8], msg: &[u8]) -> (r: Result<bool, Error>)
        ensures
            match r {
                Ok(valid) => pk_bytes_ok(apk@) && sig_bytes_ok(sig@) && valid == verify_spec(
                    apk@,
                    sig@,
                    msg@,
                ),
                Err(e) => !(pk_bytes_ok(apk@) && sig_bytes_ok(sig@)) && e == Error::InvalidBytes,
            },
    {
        let aggregate = self.apk_from_cache(apk)?;
        let signature = MySign::signature_from_bytes(sig)?;
        Ok(aggregate.verify(&signature, msg).is_ok())
    }

    /// Create a one-member aggregated public key from a serialized public
    /// key (which may come from the cache), returning the serialized
    /// aggregate.
    pub fn create_apk_sync(&mut self, pk: &[u8]) -> (r: Result<[u8; 96], Error>)
        ensures
            match r {
                Ok(out) => pk_bytes_ok(pk@) && out@ == pk_t_spec(pk@),
                Err(e) => !pk_bytes_ok(pk@) && e == Error::InvalidBytes,
            },
    {
        let public = self.public_from_cache(pk)?;
        let aggregate = APK::new(&public);
        Ok(aggregate.to_bytes())
    }

    /// Fold a list of serialized public keys (each resolved through the
    /// cache) into a serialized aggregated public key.
    pub fn aggregate_pk_sync(&mut self, apk: &[u8], keys: &[Vec<u8>]) -> (r: Result<
        [u8; 96],
        Error,
    >)
        ensures
            match r {
                Ok(out) => pk_bytes_ok(apk@) && (forall|j: int|
                    0 <= j < keys@.len() ==> pk_bytes_ok(keys@[j]@)) && out@ == apk_fold(
                    apk@,
                    keys@.map_values(|k: Vec<u8>| k@),
                ),
                Err(e) => !(pk_bytes_ok(apk@) && (forall|j: int|
                    0 <= j < keys@.len() ==> pk_bytes_ok(keys@[j]@))) && e == Error::InvalidBytes,
            },
    {
        let mut aggregate = self.apk_from_cache(apk)?;
        let ghost key_views = keys@.map_values(|k: Vec<u8>| k@);
        let mut pks: Vec<PublicKey> = Vec::new();
        let mut i: usize = 0;
        while i < keys.len()
            invariant
                i <= keys@.len(),
                key_views == keys@.map_values(|k: Vec<u8>| k@),
                pks@.len() == i as int,
                forall|j: int| 0 <= j < i ==> pk_bytes_ok(#[trigger] keys@[j]@),
                forall|j: int| 0 <= j < i ==> pks@[j]@ == key_views[j],
            decreases keys@.len() - i,
        {
            let public = self.public_from_cache(keys[i].as_slice())?;
            pks.push(public);
            i = i + 1;
        }
        proof {
            assert(pks@.map_values(|p: PublicKey| p@) =~= key_views);
        }
        aggregate.aggregate(pks.as_slice());
        Ok(aggregate.to_bytes())
    }

    /// Fold a list of serialized signatures into one serialized aggregate
    /// signature. Signatures carry no validation cache: decoding them is
    /// cheap.
    pub fn aggregate_sig_sync(&self, sig: &[u8], sigs: &[Vec<u8>]) -> (r: Result<[u8; 48], Error>)
        ensures
            match r {
                Ok(out) => sig_bytes_ok(sig@) && (forall|j: int|
                    0 <= j < sigs@.len() ==> sig_bytes_ok(sigs@[j]@)) && out@ == sig_fold(
                    sig@,
                    sigs@.map_values(|s: Vec<u8>| s@),
                ),
                Err(e) => !(sig_bytes_ok(sig@) && (forall|j: int|
                    0 <= j < sigs@.len() ==> sig_bytes_ok(sigs@[j]@))) && e == Error::InvalidBytes,
            },
    {
        let service = MySign {};
        service.aggregate_sig(sig, sigs)
    }
}

} // verus!
