//! The aggregated public key (APK): a G2 point obtained by applying the
//! per-key binding transform `pk · h1(pk)` to each member key and summing
//! the results. The binding transform is what confers rogue-key
//! resistance, and it is always computed against each individual key,
//! never against the running aggregate.

use vstd::prelude::*;

use crate::curve::{g2_add_points, g2_identity, g2_recompress, g2_sum, g2_uncompress, g2_valid};
use crate::error::Error;
use crate::keys::public::{pk_t_spec, verify_spec, PublicKey};
use crate::keys::secret::SecretKey;
use crate::signature::Signature;

verus! {

/// The result of folding a list of public keys into an aggregate: each
/// key is bound by its own scalar (`pk_t`) and added in, left to right.
pub open spec fn apk_fold(acc: Seq<u8>, pks: Seq<Seq<u8>>) -> Seq<u8>
    decreases pks.len(),
{
    if pks.len() == 0 {
        acc
    } else {
        apk_fold(g2_sum(acc, pk_t_spec(pks[0])), pks.skip(1))
    }
}

/// Appending one key to the list folds its bound form onto the result.
proof fn lemma_apk_fold_push(acc: Seq<u8>, xs: Seq<Seq<u8>>, x: Seq<u8>)
    ensures
        apk_fold(acc, xs.push(x)) == g2_sum(apk_fold(acc, xs), pk_t_spec(x)),
    decreases xs.len(),
{
    if xs.len() == 0 {
        assert(xs.push(x)[0] == x);
        assert(xs.push(x).skip(1) =~= Seq::<Seq<u8>>::empty());
        assert(apk_fold(g2_sum(acc, pk_t_spec(x)), Seq::<Seq<u8>>::empty()) == g2_sum(
            acc,
            pk_t_spec(x),
        ));
    } else {
        assert(xs.push(x)[0] == xs[0]);
        assert(xs.push(x).skip(1) =~= xs.skip(1).push(x));
        lemma_apk_fold_push(g2_sum(acc, pk_t_spec(xs[0])), xs.skip(1), x);
    }
}

/// Aggregated form of a BLS public key. The member keys are aggregated in
/// a rogue-key attack resistant manner, through the binding transform of
/// the modified BLS construction.
#[derive(Copy, Clone, Debug, PartialEq, Eq)]
pub struct APK {
    inner: PublicKey,
}

impl View for APK {
    type V = Seq<u8>;

    closed spec fn view(&self) -> Seq<u8> {
        self.inner@
    }
}

impl APK {
    /// Create a one-member aggregate from a public key, applying the
    /// binding transform `pk · h1(pk)`. This is the required first step
    /// before any signature produced with the protected signing path can
    /// be verified.
    pub fn new(pk: &PublicKey) -> (r: APK)
        ensures
            r@ == pk_t_spec(pk@),
    {
        let bytes = pk.pk_t();
        APK { inner: PublicKey::from_validated_bytes(bytes) }
    }

    /// Create a one-member aggregate for the public key that matches a
    /// secret key.
    pub fn from_secret(sk: &SecretKey) -> (r: APK)
        ensures
            r@ == pk_t_spec(crate::keys::public::derive_spec(sk@)),
    {
        let pk = PublicKey::new(sk);
        APK::new(&pk)
    }

    /// Aggregate a set of [`PublicKey`] into the [`APK`]: each key is
    /// bound by its own scalar — never by a hash of the running
    /// aggregate — and added in, left to right.
    pub fn aggregate(&mut self, pks: &[PublicKey])
        ensures
            final(self)@ == apk_fold(old(self)@, pks@.map_values(|p: PublicKey| p@)),
    {
        let ghost views = pks@.map_values(|p: PublicKey| p@);
        let mut acc = self.inner.to_bytes();
        let mut i: usize = 0;
        while i < pks.len()
            invariant
                i <= pks.len(),
                g2_valid(acc@),
                views == pks@.map_values(|p: PublicKey| p@),
                acc@ == apk_fold(old(self)@, views.take(i as int)),
            decreases pks.len() - i,
        {
            let bound = pks[i].pk_t();
            proof {
                lemma_apk_fold_push(old(self)@, views.take(i as int), views[i as int]);
                assert(views.take(i as int + 1) =~= views.take(i as int).push(views[i as int]));
            }
            acc = g2_add_points(&acc, &bound);
            i = i + 1;
        }
        proof {
            assert(views.take(pks@.len() as int) =~= views);
        }
        self.inner = PublicKey::from_validated_bytes(acc);
    }

    /// Verify a [`Signature`] against this aggregate.
    /// Currently, this function only supports batched signature
    /// verification for the same message; distinct messages are not
    /// supported.
    pub fn verify(&self, sig: &Signature, msg: &[u8]) -> (r: Result<(), Error>)
        ensures
            r is Ok <==> verify_spec(self@, sig@, msg@),
            r is Err ==> r->Err_0 == Error::InvalidSignature,
    {
        self.inner.verify(sig, msg)
    }

    /// Return the compressed byte representation of the [`APK`].
    pub fn to_bytes(&self) -> (r: [u8; 96])
        ensures
            r@ == self@,
            g2_valid(r@),
    {
        self.inner.to_bytes()
    }

    /// Attempt to create an [`APK`] from a compressed G2 byte
    /// representation, with the same validation as
    /// [`PublicKey::from_bytes`].
    pub fn from_bytes(bytes: &[u8; 96]) -> (r: Result<APK, Error>)
        ensures
            match r {
                Ok(apk) => g2_valid(bytes@) && !g2_identity(bytes@) && apk@ == bytes@,
                Err(e) => !(g2_valid(bytes@) && !g2_identity(bytes@)) && e == Error::InvalidBytes,
            },
    {
        let pk = PublicKey::from_bytes(bytes)?;
        Ok(APK { inner: pk })
    }

    /// Raw bytes representation, for trusted data where performance is
    /// critical. For secure serialization, check [`APK::to_bytes`].
    pub fn to_raw_bytes(&self) -> (r: [u8; 192])
        ensures
            r@ == g2_uncompress(self@),
            g2_recompress(r@) == Some(self@),
    {
        self.inner.to_raw_bytes()
    }

    /// Create an [`APK`] from bytes created by [`APK::to_raw_bytes`],
    /// skipping every validity check; the precondition restricts the
    /// input to such bytes, as passing anything else violates the
    /// scheme's security assumptions without a detectable error.
    pub fn from_slice_unchecked(raw: &[u8]) -> (r: APK)
        requires
            raw@.len() == 192,
            g2_recompress(raw@) is Some,
            g2_valid(g2_recompress(raw@)->Some_0),
        ensures
            r@ == g2_recompress(raw@)->Some_0,
    {
        APK { inner: PublicKey::from_slice_unchecked(raw) }
    }

    /// Return the amount of bytes needed to serialize an [`APK`].
    pub fn serialized_size() -> (r: usize)
        ensures
            r == 96,
    {
        96
    }
}

} // verus!
