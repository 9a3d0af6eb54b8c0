use base64::Engine;
use ml_dsa::signature::Verifier;
use ml_dsa::KeyGen;

use mldsa_signer::b64::decode_base64;
use mldsa_signer::error::{KeyError, PipelineError};
use mldsa_signer::key::convert_to_signing_key;
use mldsa_signer::params::{SIGNATURE_SIZE, SIGNING_KEY_SIZE};
use mldsa_signer::pipeline::sign_payload;

fn test_key_pair() -> ml_dsa::KeyPair<ml_dsa::MlDsa65> {
    let seed = ml_dsa::B32::from([7u8; 32]);
    ml_dsa::MlDsa65::key_gen_internal(&seed)
}

fn encoded_signing_key() -> Vec<u8> {
    test_key_pair().signing_key().encode().as_slice().to_vec()
}

fn verify_encoded(msg: &[u8], sig_bytes: &[u8]) -> bool {
    let sig = match ml_dsa::Signature::<ml_dsa::MlDsa65>::try_from(sig_bytes) {
        Ok(sig) => sig,
        Err(_) => return false,
    };
    test_key_pair().verifying_key().verify(msg, &sig).is_ok()
}

#[test]
fn wrong_size_empty() {
    assert!(matches!(
        convert_to_signing_key(&[]),
        Err(KeyError::WrongSize)
    ));
}

#[test]
fn wrong_size_zero_64() {
    let bytes = [0u8; 64];
    assert!(matches!(
        convert_to_signing_key(&bytes),
        Err(KeyError::WrongSize)
    ));
}

#[test]
fn wrong_size_boundaries() {
    for len in [
        SIGNING_KEY_SIZE - 1,
        SIGNING_KEY_SIZE + 1,
        2 * SIGNING_KEY_SIZE,
    ] {
        let bytes = vec![1u8; len];
        assert!(matches!(
            convert_to_signing_key(&bytes),
            Err(KeyError::WrongSize)
        ));
    }
}

#[test]
fn exact_size_accepted() {
    // All-zero and boundary-value (both 4-bit groups equal to 8) secret
    // regions are within the range the scheme's decode accepts.
    let bytes = vec![0u8; SIGNING_KEY_SIZE];
    assert!(convert_to_signing_key(&bytes).is_ok());
    let mut bytes = vec![0u8; SIGNING_KEY_SIZE];
    for b in bytes.iter_mut().take(1536).skip(128) {
        *b = 0x88;
    }
    assert!(convert_to_signing_key(&bytes).is_ok());
}

#[test]
fn secret_out_of_range_rejected() {
    let bytes = vec![0xABu8; SIGNING_KEY_SIZE];
    assert!(matches!(
        convert_to_signing_key(&bytes),
        Err(KeyError::SecretOutOfRange)
    ));

    // A single out-of-range 4-bit group anywhere in the s1/s2 region is
    // rejected; the same byte outside that region is not interpreted as a
    // secret coefficient.
    let mut bytes = vec![0u8; SIGNING_KEY_SIZE];
    bytes[128] = 0x09;
    assert!(matches!(
        convert_to_signing_key(&bytes),
        Err(KeyError::SecretOutOfRange)
    ));
    let mut bytes = vec![0u8; SIGNING_KEY_SIZE];
    bytes[1535] = 0x90;
    assert!(matches!(
        convert_to_signing_key(&bytes),
        Err(KeyError::SecretOutOfRange)
    ));
    let mut bytes = vec![0u8; SIGNING_KEY_SIZE];
    bytes[127] = 0xFF;
    bytes[1536] = 0xFF;
    assert!(convert_to_signing_key(&bytes).is_ok());
}

#[test]
fn garbage_key_signs_without_abort() {
    // A well-sized buffer that is not a genuine key encoding but passes the
    // range bound decodes into some structured key and signs deterministically.
    let bytes = vec![0u8; SIGNING_KEY_SIZE];
    let key = convert_to_signing_key(&bytes).unwrap();
    let first = key.sign(b"message").encode();
    let second = key.sign(b"message").encode();
    assert_eq!(first.len(), SIGNATURE_SIZE);
    assert_eq!(first, second);
}

#[test]
fn base64_decode_exact_values() {
    assert_eq!(decode_base64("AAAA"), Ok(vec![0u8, 0u8, 0u8]));
    assert_eq!(decode_base64("aGVsbG8="), Ok(b"hello".to_vec()));
    assert_eq!(decode_base64(""), Ok(Vec::new()));
}

#[test]
fn base64_reject_bang() {
    assert_eq!(decode_base64("ab!c"), Err(PipelineError::Base64Decode));
    assert_eq!(
        sign_payload("ab!c", b"message"),
        Err(PipelineError::Base64Decode)
    );
}

#[test]
fn base64_reject_outside_alphabet() {
    for text in ["####", "a b c", "abc\n", "caf\u{00e9}"] {
        assert_eq!(sign_payload(text, b"m"), Err(PipelineError::Base64Decode));
    }
}

#[test]
fn base64_reject_bad_length() {
    assert_eq!(sign_payload("A", b"m"), Err(PipelineError::Base64Decode));
}

#[test]
fn pipeline_wrong_key_size() {
    let text = base64::engine::general_purpose::STANDARD.encode([0u8; 64]);
    assert_eq!(
        sign_payload(&text, b"message"),
        Err(PipelineError::Key(KeyError::WrongSize))
    );
}

#[test]
fn pipeline_secret_out_of_range() {
    let text = base64::engine::general_purpose::STANDARD.encode(vec![0xFFu8; SIGNING_KEY_SIZE]);
    assert_eq!(
        sign_payload(&text, b"message"),
        Err(PipelineError::Key(KeyError::SecretOutOfRange))
    );
}

#[test]
fn round_trip_signs_and_verifies() {
    let enc = encoded_signing_key();
    let key = convert_to_signing_key(&enc).unwrap();
    for msg in [&b"hello world"[..], &b"{\"a\":1}"[..], &[0u8, 255u8, 7u8][..]] {
        let sig = key.sign(msg).encode();
        assert_eq!(sig.len(), SIGNATURE_SIZE);
        assert!(verify_encoded(msg, &sig));
    }
}

#[test]
fn round_trip_empty_message() {
    let enc = encoded_signing_key();
    let key = convert_to_signing_key(&enc).unwrap();
    let sig = key.sign(&[]).encode();
    assert!(verify_encoded(&[], &sig));
}

#[test]
fn scenario_json_message() {
    let enc = encoded_signing_key();
    let text = base64::engine::general_purpose::STANDARD.encode(&enc);
    let msg = b"{\"a\":1}";
    assert_eq!(msg.len(), 7);
    let sig = sign_payload(&text, msg).unwrap();
    assert_eq!(sig.len(), SIGNATURE_SIZE);
    assert!(verify_encoded(msg, &sig));
}

#[test]
fn encoding_deterministic() {
    let enc = encoded_signing_key();
    let key = convert_to_signing_key(&enc).unwrap();
    let sig = key.sign(b"same message");
    assert_eq!(sig.encode(), sig.encode());
}

#[test]
fn signing_deterministic() {
    let enc = encoded_signing_key();
    let text = base64::engine::general_purpose::STANDARD.encode(&enc);
    let first = sign_payload(&text, b"same message");
    let second = sign_payload(&text, b"same message");
    assert_eq!(first, second);
}

#[test]
fn failure_idempotent() {
    let first = sign_payload("!!bad!!", b"m");
    let second = sign_payload("!!bad!!", b"m");
    assert_eq!(first, Err(PipelineError::Base64Decode));
    assert_eq!(first, second);

    let short = base64::engine::general_purpose::STANDARD.encode([9u8; 10]);
    let first = sign_payload(&short, b"m");
    let second = sign_payload(&short, b"m");
    assert_eq!(first, Err(PipelineError::Key(KeyError::WrongSize)));
    assert_eq!(first, second);
}

#[test]
fn pipeline_matches_components() {
    let enc = encoded_signing_key();
    let text = base64::engine::general_purpose::STANDARD.encode(&enc);
    let msg = b"component check";
    let via_pipeline = sign_payload(&text, msg).unwrap();
    let via_components = convert_to_signing_key(&enc).unwrap().sign(msg).encode();
    assert_eq!(via_pipeline, via_components);
}
