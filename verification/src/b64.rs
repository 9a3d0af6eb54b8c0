//! Trusted boundary to the base64 crate's standard-alphabet decoder.

use vstd::prelude::*;

use crate::error::PipelineError;

verus! {

/// A character of the standard base64 alphabet, padding (`=`) included.
pub open spec fn is_base64_symbol(c: char) -> bool {
    ||| 'A' <= c && c <= 'Z'
    ||| 'a' <= c && c <= 'z'
    ||| '0' <= c && c <= '9'
    ||| c == '+'
    ||| c == '/'
    ||| c == '='
}

/// What the standard-alphabet, padded base64 decoder returns for the text `s`:
/// the decoded bytes, or `None` where `s` is not valid base64. Decoding is a
/// function of the text alone.
pub uninterp spec fn base64_decoding(s: Seq<char>) -> Option<Seq<u8>>;

#[verifier::external_type_specification]
#[verifier::external_body]
pub struct ExDecodeError(base64::DecodeError);

/// Relies on base64's `STANDARD` engine `decode`: the result is a function of
/// the input text alone, and any character outside the standard alphabet
/// (padding included) makes decoding fail with an error.
#[verifier::external_body]
fn base64_decode_raw(s: &str) -> (r: Result<Vec<u8>, base64::DecodeError>)
    ensures
        r is Ok <==> base64_decoding(s@) is Some,
        r matches Ok(b) ==> base64_decoding(s@) == Some(b@),
        (exists|i: int| 0 <= i < s@.len() && !is_base64_symbol(s@[i])) ==> r is Err,
{
    base64::Engine::decode(&base64::engine::general_purpose::STANDARD, s)
}

/// Decodes base64 text to raw bytes, mapping the decoder's error to the
/// pipeline's own error category.
pub fn decode_base64(s: &str) -> (r: Result<Vec<u8>, PipelineError>)
    ensures
        r matches Ok(b) ==> base64_decoding(s@) == Some(b@),
        r is Err <==> base64_decoding(s@) is None,
        r is Err ==> r == Err::<Vec<u8>, PipelineError>(PipelineError::Base64Decode),
        (exists|i: int| 0 <= i < s@.len() && !is_base64_symbol(s@[i])) ==> r is Err,
{
    match base64_decode_raw(s) {
        Ok(b) => Ok(b),
        Err(_) => Err(PipelineError::Base64Decode),
    }
}

} // verus!
