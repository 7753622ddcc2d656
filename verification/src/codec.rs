//! Lossless conversion between raw byte sequences and the two text
//! encodings used throughout the API surface: Base58 (Bitcoin alphabet,
//! no padding) for key material and Base64 (standard alphabet, padded)
//! for binary payloads.

use base64::Engine;
use vstd::prelude::*;

use crate::errors::ApiError;

verus! {

/// The canonical Base58 encoding (Bitcoin alphabet, no padding) of a byte
/// sequence. Its value is fixed by the encoder relied on below; decoding
/// is its inverse.
pub uninterp spec fn base58_of(b: Seq<u8>) -> Seq<char>;

/// The canonical Base64 encoding (standard alphabet, with padding) of a
/// byte sequence. Its value is fixed by the encoder relied on below;
/// decoding is its inverse.
pub uninterp spec fn base64_of(b: Seq<u8>) -> Seq<char>;

#[verifier::external_type_specification]
#[verifier::external_body]
pub struct ExBs58DecodeError(bs58::decode::Error);

#[verifier::external_type_specification]
#[verifier::external_body]
pub struct ExBase64DecodeError(base64::DecodeError);

/// Relies on bs58::encode (into_string): the canonical Bitcoin-alphabet
/// Base58 encoding, a pure function of the input bytes; it encodes the
/// empty sequence to the empty string and nothing else to it.
#[verifier::external_body]
fn bs58_encode(data: &[u8]) -> (r: String)
    ensures
        r@ == base58_of(data@),
        (data@.len() == 0) <==> (r@.len() == 0),
{
    bs58::encode(data).into_string()
}

/// Relies on bs58::decode (into_vec), the inverse of bs58::encode: a
/// string that is the canonical encoding of some byte sequence decodes to
/// exactly that sequence, and whatever bytes come back re-encode to the
/// input; only strings holding a character outside the alphabet are
/// rejected.
#[verifier::external_body]
fn bs58_decode(data: &str) -> (r: Result<Vec<u8>, bs58::decode::Error>)
    ensures
        r matches Ok(v) ==> data@ == base58_of(v@),
        forall|b: Seq<u8>| data@ == base58_of(b) ==> r is Ok && r->Ok_0@ == b,
{
    bs58::decode(data).into_vec()
}

/// Relies on base64::engine::general_purpose::STANDARD (encode): the
/// canonical padded standard-alphabet Base64 encoding, a pure function of
/// the input bytes; it encodes the empty sequence to the empty string and
/// nothing else to it.
#[verifier::external_body]
fn b64_encode(data: &[u8]) -> (r: String)
    ensures
        r@ == base64_of(data@),
        (data@.len() == 0) <==> (r@.len() == 0),
{
    base64::engine::general_purpose::STANDARD.encode(data)
}

/// Relies on base64::engine::general_purpose::STANDARD (decode), the
/// inverse of its encode: the engine requires canonical padding and
/// rejects set trailing bits, so exactly the canonical encodings are
/// accepted, and each decodes to the byte sequence it encodes.
#[verifier::external_body]
fn b64_decode(data: &str) -> (r: Result<Vec<u8>, base64::DecodeError>)
    ensures
        r matches Ok(v) ==> data@ == base64_of(v@),
        forall|b: Seq<u8>| data@ == base64_of(b) ==> r is Ok && r->Ok_0@ == b,
{
    base64::engine::general_purpose::STANDARD.decode(data)
}

/// Base58-encode a byte sequence.
pub fn encode_base58(data: &[u8]) -> (r: String)
    ensures
        r@ == base58_of(data@),
        (data@.len() == 0) <==> (r@.len() == 0),
{
    bs58_encode(data)
}

/// Base58-decode a string. The empty string and strings holding a
/// character outside the alphabet are rejected; every string that
/// `encode_base58` produces from a nonempty input decodes back to
/// exactly that input.
pub fn decode_base58(data: &str) -> (r: Result<Vec<u8>, ApiError>)
    ensures
        r matches Ok(v) ==> data@.len() > 0 && data@ == base58_of(v@),
        forall|b: Seq<u8>| data@ == base58_of(b) && data@.len() > 0 ==> r is Ok && r->Ok_0@ == b,
        r matches Err(e) ==> e is EncodingError,
        data@.len() == 0 ==> r is Err,
{
    if data.is_empty() {
        return Err(ApiError::EncodingError("base58 input must not be empty".to_string()));
    }
    match bs58_decode(data) {
        Ok(v) => Ok(v),
        Err(_) => Err(ApiError::EncodingError("invalid base58 string".to_string())),
    }
}

/// Base64-encode a byte sequence.
pub fn encode_base64(data: &[u8]) -> (r: String)
    ensures
        r@ == base64_of(data@),
        (data@.len() == 0) <==> (r@.len() == 0),
{
    b64_encode(data)
}

/// Base64-decode a string. The empty string and strings with invalid
/// characters or padding are rejected; every string that `encode_base64`
/// produces from a nonempty input decodes back to exactly that input.
pub fn decode_base64(data: &str) -> (r: Result<Vec<u8>, ApiError>)
    ensures
        r matches Ok(v) ==> data@.len() > 0 && data@ == base64_of(v@),
        forall|b: Seq<u8>| data@ == base64_of(b) && data@.len() > 0 ==> r is Ok && r->Ok_0@ == b,
        r matches Err(e) ==> e is EncodingError,
        data@.len() == 0 ==> r is Err,
{
    if data.is_empty() {
        return Err(ApiError::EncodingError("base64 input must not be empty".to_string()));
    }
    match b64_decode(data) {
        Ok(v) => Ok(v),
        Err(_) => Err(ApiError::EncodingError("invalid base64 string".to_string())),
    }
}

} // verus!
