//! Reconstruction of an ML-DSA-65 signing key from raw bytes, and detached
//! signing of a message with the reconstructed key.
//!
//! The pipeline is strictly linear: base64 text is decoded to raw key bytes,
//! the bytes are validated for the exact encoded-key size and decoded into a
//! structured signing key, the key signs the message, and the signature is
//! serialized to its canonical fixed-size byte encoding.

pub mod params;
pub mod error;
pub mod b64;
pub mod mldsa;
pub mod sig;
pub mod key;
pub mod pipeline;
