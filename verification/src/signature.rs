//! The signature: a G1 point, held in its canonical 48-byte compressed
//! encoding. Signatures over the same message aggregate by point addition.

use vstd::prelude::*;

use crate::curve::{check_g1, g1_add_points, g1_sum, g1_valid};
use crate::error::Error;

verus! {

/// The result of folding a list of signatures into an accumulator by
/// iterated group addition, left to right.
pub open spec fn sig_fold(acc: Seq<u8>, sigs: Seq<Seq<u8>>) -> Seq<u8>
    decreases sigs.len(),
{
    if sigs.len() == 0 {
        acc
    } else {
        sig_fold(g1_sum(acc, sigs[0]), sigs.skip(1))
    }
}

/// Appending one signature to the list folds it onto the result:
/// `sig_fold(acc, xs.push(x)) == g1_sum(sig_fold(acc, xs), x)`.
proof fn lemma_sig_fold_push(acc: Seq<u8>, xs: Seq<Seq<u8>>, x: Seq<u8>)
    ensures
        sig_fold(acc, xs.push(x)) == g1_sum(sig_fold(acc, xs), x),
    decreases xs.len(),
{
    if xs.len() == 0 {
        assert(xs.push(x)[0] == x);
        assert(xs.push(x).skip(1) =~= Seq::<Seq<u8>>::empty());
        assert(sig_fold(g1_sum(acc, x), Seq::<Seq<u8>>::empty()) == g1_sum(acc, x));
    } else {
        assert(xs.push(x)[0] == xs[0]);
        assert(xs.push(x).skip(1) =~= xs.skip(1).push(x));
        lemma_sig_fold_push(g1_sum(acc, xs[0]), xs.skip(1), x);
    }
}

/// Law: aggregation can be split anywhere. Folding the concatenation
/// `xs + ys` onto `a` equals folding `xs` first and then `ys` onto the
/// intermediate aggregate, so it makes no difference how a list of
/// signatures is partitioned across calls to [`Signature::aggregate`].
pub proof fn lemma_aggregate_split(a: Seq<u8>, xs: Seq<Seq<u8>>, ys: Seq<Seq<u8>>)
    ensures
        sig_fold(a, xs + ys) == sig_fold(sig_fold(a, xs), ys),
    decreases xs.len(),
{
    if xs.len() == 0 {
        assert(xs + ys =~= ys);
    } else {
        assert((xs + ys)[0] == xs[0]);
        assert((xs + ys).skip(1) =~= xs.skip(1) + ys);
        lemma_aggregate_split(g1_sum(a, xs[0]), xs.skip(1), ys);
    }
}

/// Law: aggregation associativity. Aggregating `[b, c]` onto `a` in one
/// call yields the same bytes as aggregating `[b]` and then `[c]` in two.
pub proof fn lemma_aggregate_associative(a: Seq<u8>, b: Seq<u8>, c: Seq<u8>)
    ensures
        sig_fold(a, seq![b, c]) == sig_fold(sig_fold(a, seq![b]), seq![c]),
{
    assert(seq![b, c] =~= seq![b] + seq![c]);
    lemma_aggregate_split(a, seq![b], seq![c]);
}

/// A BLS signature, holding the compressed encoding of a G1 point. The
/// identity is syntactically valid (it decodes), though it verifies
/// against no honest message.
#[derive(Copy, Clone, Debug, PartialEq, Eq)]
pub struct Signature {
    bytes: [u8; 48],
}

impl View for Signature {
    type V = Seq<u8>;

    closed spec fn view(&self) -> Seq<u8> {
        self.bytes@
    }
}

impl Signature {
    /// Every signature holds a valid compressed G1 encoding.
    #[verifier::type_invariant]
    pub open spec fn wf(self) -> bool {
        g1_valid(self@) && self@.len() == 48
    }

    /// Wrap bytes already known to be a valid compressed G1 encoding.
    pub(crate) fn from_validated_bytes(bytes: [u8; 48]) -> (r: Signature)
        requires
            g1_valid(bytes@),
        ensures
            r@ == bytes@,
    {
        Signature { bytes }
    }

    /// Aggregate a set of signatures by simply adding up the points,
    /// left to right.
    pub fn aggregate(&self, sigs: &[Signature]) -> (r: Signature)
        ensures
            r@ == sig_fold(self@, sigs@.map_values(|s: Signature| s@)),
    {
        proof {
            use_type_invariant(self);
        }
        let ghost views = sigs@.map_values(|s: Signature| s@);
        let mut acc = self.bytes;
        let mut i: usize = 0;
        while i < sigs.len()
            invariant
                i <= sigs.len(),
                g1_valid(acc@),
                views == sigs@.map_values(|s: Signature| s@),
                acc@ == sig_fold(self@, views.take(i as int)),
            decreases sigs.len() - i,
        {
            let s = &sigs[i];
            proof {
                use_type_invariant(s);
                lemma_sig_fold_push(self@, views.take(i as int), views[i as int]);
                assert(views.take(i as int + 1) =~= views.take(i as int).push(views[i as int]));
            }
            acc = g1_add_points(&acc, &s.bytes);
            i = i + 1;
        }
        proof {
            assert(views.take(sigs@.len() as int) =~= views);
        }
        Signature { bytes: acc }
    }

    /// Return the compressed byte representation of the [`Signature`].
    pub fn to_bytes(&self) -> (r: [u8; 48])
        ensures
            r@ == self@,
            g1_valid(r@),
    {
        proof {
            use_type_invariant(self);
        }
        self.bytes
    }

    /// Attempt to create a [`Signature`] from a compressed G1 byte
    /// representation, validating the encoding.
    pub fn from_bytes(bytes: &[u8; 48]) -> (r: Result<Signature, Error>)
        ensures
            match r {
                Ok(sig) => g1_valid(bytes@) && sig@ == bytes@,
                Err(e) => !g1_valid(bytes@) && e == Error::InvalidBytes,
            },
    {
        if check_g1(bytes) {
            Ok(Signature { bytes: *bytes })
        } else {
            Err(Error::InvalidBytes)
        }
    }

    /// Return the amount of bytes needed to serialize a [`Signature`].
    pub fn serialized_size() -> (r: usize)
        ensures
            r == 48,
    {
        48
    }
}

} // verus!
