//! Trusted boundary to the ML-DSA-65 implementation of the `ml_dsa` crate.

use vstd::prelude::*;

use crate::key::secret_coeffs_in_range;
use crate::params::{SIGNATURE_SIZE, SIGNING_KEY_SIZE};

verus! {

/// The canonical encoding of the ML-DSA-65 signature produced by the scheme's
/// deterministic sign variant (empty context string) for the signing key whose
/// encoding is `key` and the message `msg`. The algorithm is fixed by FIPS 204,
/// so the result is a function of the key bytes and the message alone.
pub uninterp spec fn mldsa65_signature(key: Seq<u8>, msg: Seq<u8>) -> Seq<u8>;

/// Relies on the `ml_dsa` crate, parameter set ML-DSA-65:
/// `SigningKey::decode` (FIPS 204 skDecode) is deterministic over 4032-byte
/// buffers, and returns normally exactly when every packed coefficient of the
/// short secret vectors is within the range bound — its `BitPack::unpack`
/// asserts that bound per coefficient and aborts otherwise, so the `requires`
/// leaves such buffers out (the t0 region's wider bound can never fail);
/// `signature::Signer::sign` runs the deterministic sign variant with an
/// empty context string, so it cannot fail and its result depends on the key
/// and the message alone (its rejection-sampling loop is relied on to
/// terminate); `Signature::encode` (FIPS 204 sigEncode) yields the canonical
/// 3309-byte encoding.
#[verifier::external_body]
pub(crate) fn mldsa65_sign_encoded(key: &[u8], msg: &[u8]) -> (sig: Vec<u8>)
    requires
        key@.len() == SIGNING_KEY_SIZE,
        secret_coeffs_in_range(key@),
    ensures
        sig@ == mldsa65_signature(key@, msg@),
        sig@.len() == SIGNATURE_SIZE,
{
    let mut encoded: ml_dsa::EncodedSigningKey<ml_dsa::MlDsa65> = Default::default();
    encoded.copy_from_slice(key);
    let signing_key = ml_dsa::SigningKey::<ml_dsa::MlDsa65>::decode(&encoded);
    let sig = ml_dsa::signature::Signer::sign(&signing_key, msg);
    sig.encode().as_slice().to_vec()
}

} // verus!
