//! Reconstruction of a signing key from raw, untrusted bytes.

use vstd::prelude::*;

use crate::error::KeyError;
use crate::mldsa::mldsa65_sign_encoded;
use crate::mldsa::mldsa65_signature;
use crate::params::{SECRET_VEC_END, SECRET_VEC_START, SIGNING_KEY_SIZE};
use crate::sig::Signature;

verus! {

/// Both 4-bit groups of a packed secret-vector byte are at most 8, the
/// largest value the scheme's range encoding of a coefficient in [-4, 4]
/// can produce.
pub open spec fn secret_byte_in_range(b: u8) -> bool {
    b & 0x0f <= 8 && b >> 4 <= 8
}

/// Every packed coefficient of the short secret vectors s1 and s2 inside an
/// encoded signing key is within the scheme's range. The scheme's decode
/// asserts exactly this bound per coefficient, so only buffers satisfying it
/// can be decoded; a genuine key encoding always does.
pub open spec fn secret_coeffs_in_range(key: Seq<u8>) -> bool {
    forall|i: int|
        SECRET_VEC_START <= i < SECRET_VEC_END ==> secret_byte_in_range(#[trigger] key[i])
}

/// A structured ML-DSA-65 signing key, modelled by its canonical encoding:
/// the scheme's decode algorithm is deterministic over buffers of the exact
/// encoded-key size, so the encoding determines the key.
pub struct SigningKey {
    bytes: Vec<u8>,
}

impl View for SigningKey {
    type V = Seq<u8>;

    closed spec fn view(&self) -> Seq<u8> {
        self.bytes@
    }
}

impl SigningKey {
    /// A well-formed key holds exactly the scheme's encoded signing-key bytes,
    /// with every packed secret coefficient in the range the scheme's decode
    /// accepts.
    pub open spec fn wf(&self) -> bool {
        self@.len() == SIGNING_KEY_SIZE && secret_coeffs_in_range(self@)
    }

    /// Signs an arbitrary message (the empty message included) with this key,
    /// by the scheme's deterministic sign variant: the signature is a function
    /// of the key and the message alone, and signing cannot fail.
    pub fn sign(&self, message: &[u8]) -> (sig: Signature)
        requires
            self.wf(),
        ensures
            sig.wf(),
            sig@ == mldsa65_signature(self@, message@),
    {
        let bytes = mldsa65_sign_encoded(self.bytes.as_slice(), message);
        Signature::from_bytes(bytes)
    }
}

/// Reports whether every byte of the packed secret-vector region carries
/// only in-range coefficient groups.
fn secret_coeffs_ok(bytes: &[u8]) -> (ok: bool)
    requires
        bytes@.len() == SIGNING_KEY_SIZE,
    ensures
        ok == secret_coeffs_in_range(bytes@),
{
    let mut i: usize = SECRET_VEC_START;
    while i < SECRET_VEC_END
        invariant
            SECRET_VEC_START <= i <= SECRET_VEC_END,
            bytes@.len() == SIGNING_KEY_SIZE,
            forall|j: int| SECRET_VEC_START <= j < i ==> secret_byte_in_range(#[trigger] bytes@[j]),
        decreases SECRET_VEC_END - i,
    {
        let b = bytes[i];
        if (b & 0x0f) > 8 || (b >> 4) > 8 {
            assert(!secret_byte_in_range(bytes@[i as int]));
            return false;
        }
        i = i + 1;
    }
    true
}

/// Validates that `bytes` has exactly the encoded signing-key length of
/// ML-DSA-65 and, if so, copies it byte-for-byte into a reconstructed key.
/// A buffer of any other length is rejected before any interpretation.
///
/// The scheme's decode in the `ml_dsa` crate is not total over well-sized
/// buffers: it asserts, per packed coefficient of the short secret vectors
/// s1 and s2, the range bound of the key encoding, and aborts where the
/// bound fails. A well-sized buffer violating it is therefore rejected here,
/// as `SecretOutOfRange`, rather than handed to a decode that would abort.
pub fn convert_to_signing_key(bytes: &[u8]) -> (r: Result<SigningKey, KeyError>)
    ensures
        r is Ok <==> bytes@.len() == SIGNING_KEY_SIZE && secret_coeffs_in_range(bytes@),
        r matches Ok(k) ==> k.wf() && k@ == bytes@,
        bytes@.len() != SIGNING_KEY_SIZE <==> r == Err::<SigningKey, KeyError>(
            KeyError::WrongSize,
        ),
        bytes@.len() == SIGNING_KEY_SIZE && !secret_coeffs_in_range(bytes@) <==> r == Err::<
            SigningKey,
            KeyError,
        >(KeyError::SecretOutOfRange),
{
    if bytes.len() != SIGNING_KEY_SIZE {
        return Err(KeyError::WrongSize);
    }
    if !secret_coeffs_ok(bytes) {
        return Err(KeyError::SecretOutOfRange);
    }

    let mut buf: Vec<u8> = Vec::new();
    let mut i: usize = 0;
    while i < bytes.len()
        invariant
            i <= bytes@.len(),
            buf@ == bytes@.subrange(0, i as int),
        decreases bytes@.len() - i,
    {
        buf.push(bytes[i]);
        i = i + 1;
    }
    assert(buf@ == bytes@);

    Ok(SigningKey { bytes: buf })
}

} // verus!
