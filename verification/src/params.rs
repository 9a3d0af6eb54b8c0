//! Fixed sizes of the ML-DSA-65 parameter set (FIPS 204).

use vstd::prelude::*;

verus! {

/// Length in bytes of the encoded ML-DSA-65 signing (private) key.
pub const SIGNING_KEY_SIZE: usize = 4032;

/// Length in bytes of the encoded ML-DSA-65 signature.
pub const SIGNATURE_SIZE: usize = 3309;

/// First byte of the packed short secret vectors s1 and s2 inside the encoded
/// signing key: they follow rho (32 bytes), K (32 bytes) and tr (64 bytes).
pub const SECRET_VEC_START: usize = 128;

/// One past the last byte of the packed short secret vectors: s1 (5
/// polynomials) and s2 (6 polynomials) of 256 coefficients each, packed as
/// one 4-bit group per coefficient.
pub const SECRET_VEC_END: usize = 1536;

} // verus!
