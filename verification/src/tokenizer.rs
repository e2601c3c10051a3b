//! What surrounds a tokenizer: the check that text is UTF-8 before it is
//! encoded, and the result that stands for each answer of the tokenizer.
//!
//! The tokenizer itself is an outside component and is called by the
//! caller, between `check_text` and `encode_outcome`, or before
//! `decode_outcome`.
use core::str::Utf8Error;
use kitoken::{DecodeError, EncodeError};
use vstd::prelude::*;
use vstd::string::StringSliceAdditionalSpecFns;
use vstd::utf8::valid_utf8;

verus! {

/// `kitoken::EncodeError`: why a text could not be encoded.
#[verifier::external_type_specification]
#[verifier::external_body]
pub struct ExEncodeError(EncodeError);

/// `kitoken::DecodeError`: why tokens could not be decoded.
#[verifier::external_type_specification]
#[verifier::external_body]
pub struct ExDecodeError(DecodeError);

/// `core::str::Utf8Error`: where a byte string stops being UTF-8.
#[verifier::external_type_specification]
#[verifier::external_body]
pub struct ExUtf8Error(Utf8Error);

/// `core::str::from_utf8` succeeds exactly on well-formed UTF-8, and the
/// text it returns has the bytes it was given.
pub assume_specification[ core::str::from_utf8 ](v: &[u8]) -> (r: Result<&str, Utf8Error>)
    ensures
        r is Ok <==> valid_utf8(v@),
        r matches Ok(s) ==> s.spec_bytes() == v@,
;

/// Why a text or a token sequence could not be converted.
#[derive(Debug)]
pub enum TokenizerError {
    /// The text is not well-formed UTF-8.
    InvalidUtf8(Utf8Error),
    /// The tokenizer has no token for some part of the text.
    EncodeFailed(EncodeError),
    /// The tokenizer does not know some token.
    DecodeFailed(DecodeError),
}

/// Reads bytes as the text that a tokenizer is to encode. Bytes that are
/// not well-formed UTF-8 are refused; the text of well-formed bytes has
/// exactly those bytes.
pub fn check_text(text: &[u8]) -> (r: Result<&str, TokenizerError>)
    ensures
        r is Ok <==> valid_utf8(text@),
        r matches Ok(s) ==> s.spec_bytes() == text@,
        r matches Err(e) ==> e is InvalidUtf8,
{
    match core::str::from_utf8(text) {
        Ok(s) => Ok(s),
        Err(e) => Err(TokenizerError::InvalidUtf8(e)),
    }
}

/// What encoding returns for each answer of the tokenizer: the tokens as
/// they came, or the tokenizer's own error as the reason.
pub open spec fn encoding(outcome: Result<Vec<u32>, EncodeError>) -> Result<
    Vec<u32>,
    TokenizerError,
> {
    match outcome {
        Ok(tokens) => Ok(tokens),
        Err(e) => Err(TokenizerError::EncodeFailed(e)),
    }
}

/// Turns the tokenizer's answer to an encoding request into the result of
/// encoding.
pub fn encode_outcome(outcome: Result<Vec<u32>, EncodeError>) -> (r: Result<
    Vec<u32>,
    TokenizerError,
>)
    ensures
        r == encoding(outcome),
{
    match outcome {
        Ok(tokens) => Ok(tokens),
        Err(e) => Err(TokenizerError::EncodeFailed(e)),
    }
}

/// What decoding returns for each answer of the tokenizer: the bytes as
/// they came, or the tokenizer's own error as the reason.
pub open spec fn decoding(outcome: Result<Vec<u8>, DecodeError>) -> Result<Vec<u8>, TokenizerError> {
    match outcome {
        Ok(bytes) => Ok(bytes),
        Err(e) => Err(TokenizerError::DecodeFailed(e)),
    }
}

/// Turns the tokenizer's answer to a decoding request into the result of
/// decoding.
pub fn decode_outcome(outcome: Result<Vec<u8>, DecodeError>) -> (r: Result<Vec<u8>, TokenizerError>)
    ensures
        r == decoding(outcome),
{
    match outcome {
        Ok(bytes) => Ok(bytes),
        Err(e) => Err(TokenizerError::DecodeFailed(e)),
    }
}

} // verus!
