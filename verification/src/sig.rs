//! The structured signature and its canonical byte encoding.

use vstd::prelude::*;

use crate::params::SIGNATURE_SIZE;

verus! {

/// A structured ML-DSA-65 signature, modelled by its canonical fixed-size
/// encoding: the scheme's encode algorithm is injective on the signatures the
/// signer produces, so the encoding determines the value.
pub struct Signature {
    bytes: Vec<u8>,
}

impl View for Signature {
    type V = Seq<u8>;

    closed spec fn view(&self) -> Seq<u8> {
        self.bytes@
    }
}

/// What `Signature::encode` promises of its output: the canonical encoding of
/// the signature value, nothing else.
pub open spec fn encode_post(sig: &Signature, out: Seq<u8>) -> bool {
    out == sig@
}

impl Signature {
    /// A well-formed signature holds exactly the scheme's encoded length.
    pub open spec fn wf(&self) -> bool {
        self@.len() == SIGNATURE_SIZE
    }

    pub(crate) fn from_bytes(bytes: Vec<u8>) -> (sig: Signature)
        ensures
            sig@ == bytes@,
    {
        Signature { bytes }
    }

    /// Serializes the signature to its canonical fixed-size byte encoding.
    pub fn encode(&self) -> (out: Vec<u8>)
        ensures
            encode_post(self, out@),
    {
        let mut buf: Vec<u8> = Vec::new();
        let mut i: usize = 0;
        while i < self.bytes.len()
            invariant
                i <= self.bytes@.len(),
                buf@ == self.bytes@.subrange(0, i as int),
            decreases self.bytes@.len() - i,
        {
            buf.push(self.bytes[i]);
            i = i + 1;
        }
        assert(buf@ == self.bytes@);
        buf
    }
}

/// Determinism of encoding: any two outputs that `encode` can produce for
/// equal signature values are byte-identical.
pub proof fn lemma_encode_deterministic(sig1: &Signature, sig2: &Signature, out1: Seq<u8>, out2: Seq<u8>)
    requires
        sig1@ == sig2@,
        encode_post(sig1, out1),
        encode_post(sig2, out2),
    ensures
        out1 == out2,
{
}

} // verus!
