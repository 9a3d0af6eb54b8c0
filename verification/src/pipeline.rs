//! The full signing pipeline: decode, reconstruct, sign, encode.

use vstd::prelude::*;

use crate::b64::base64_decoding;
use crate::b64::decode_base64;
use crate::b64::is_base64_symbol;
use crate::error::KeyError;
use crate::error::PipelineError;
use crate::key::convert_to_signing_key;
use crate::key::secret_coeffs_in_range;
use crate::mldsa::mldsa65_signature;
use crate::params::{SIGNATURE_SIZE, SIGNING_KEY_SIZE};

verus! {

/// What the pipeline returns for key text `s` and message `msg`: a failure is
/// pinned to its category, and a success is pinned to the scheme's encoded
/// signature for the decoded key bytes and the message.
pub open spec fn sign_payload_post(s: Seq<char>, msg: Seq<u8>, r: Result<Vec<u8>, PipelineError>) -> bool {
    match base64_decoding(s) {
        Option::None => r == Err::<Vec<u8>, PipelineError>(PipelineError::Base64Decode),
        Option::Some(key) => if key.len() != SIGNING_KEY_SIZE {
            r == Err::<Vec<u8>, PipelineError>(PipelineError::Key(KeyError::WrongSize))
        } else if !secret_coeffs_in_range(key) {
            r == Err::<Vec<u8>, PipelineError>(PipelineError::Key(KeyError::SecretOutOfRange))
        } else {
            &&& r is Ok
            &&& r->Ok_0@ == mldsa65_signature(key, msg)
            &&& r->Ok_0@.len() == SIGNATURE_SIZE
        },
    }
}

/// Runs the core pipeline on a base64 key text and a message: decodes the
/// text, reconstructs the signing key — rejecting a buffer of any length
/// other than the exact encoded-key size, or with a packed secret
/// coefficient out of the range the scheme's decode accepts, before any
/// decode attempt — signs the message, and serializes the signature to its
/// canonical encoding. A text that is not valid base64 fails at the decode
/// stage, before any key-size check.
pub fn sign_payload(sign_b64: &str, message: &[u8]) -> (r: Result<Vec<u8>, PipelineError>)
    ensures
        sign_payload_post(sign_b64@, message@, r),
        (exists|i: int| 0 <= i < sign_b64@.len() && !is_base64_symbol(sign_b64@[i]))
            ==> r == Err::<Vec<u8>, PipelineError>(PipelineError::Base64Decode),
{
    let raw = match decode_base64(sign_b64) {
        Ok(bytes) => bytes,
        Err(e) => {
            return Err(e);
        },
    };
    let key = match convert_to_signing_key(raw.as_slice()) {
        Ok(k) => k,
        Err(e) => {
            return Err(PipelineError::Key(e));
        },
    };
    let signature = key.sign(message);
    Ok(signature.encode())
}

/// Idempotence of failure: any two pipeline results for the same inputs fail
/// together, and with the same error.
pub proof fn lemma_failure_deterministic(
    s: Seq<char>,
    msg: Seq<u8>,
    r1: Result<Vec<u8>, PipelineError>,
    r2: Result<Vec<u8>, PipelineError>,
)
    requires
        sign_payload_post(s, msg, r1),
        sign_payload_post(s, msg, r2),
    ensures
        r1 is Err <==> r2 is Err,
        r1 is Err ==> r1 == r2,
{
}

} // verus!
