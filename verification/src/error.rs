//! Error taxonomy of the signing pipeline.

use vstd::prelude::*;

verus! {

/// Failure of key reconstruction.
#[derive(Clone, Copy, Debug, PartialEq, Eq, Structural)]
pub enum KeyError {
    /// The raw key bytes do not have the exact encoded signing-key length.
    WrongSize,
    /// A packed coefficient of the short secret vectors s1 or s2 exceeds the
    /// scheme's bound of 8 (two times eta, with eta 4 for ML-DSA-65). The
    /// scheme's decode asserts this bound per coefficient and would abort on
    /// such a buffer, so it is rejected before any decode attempt.
    SecretOutOfRange,
}

/// Failure anywhere along the decode/reconstruct chain.
#[derive(Clone, Copy, Debug, PartialEq, Eq, Structural)]
pub enum PipelineError {
    /// The key argument is not valid base64 text.
    Base64Decode,
    /// The decoded bytes do not form a well-sized encoded signing key.
    Key(KeyError),
}

} // verus!
