//! The error taxonomy of the core, and the transport status that each
//! kind maps to.

use vstd::prelude::*;

verus! {

/// Transport-level status classes that errors map to.
#[derive(Debug, Clone, Copy, PartialEq, Eq, Structural)]
pub enum ApiStatusCode {
    Success,
    BadRequest,
    InternalServerError,
}

impl ApiStatusCode {
    /// The numeric HTTP status for this class.
    pub fn code(&self) -> (r: u16)
        ensures
            r == (match self {
                ApiStatusCode::Success => 200u16,
                ApiStatusCode::BadRequest => 400u16,
                ApiStatusCode::InternalServerError => 500u16,
            }),
    {
        match self {
            ApiStatusCode::Success => 200,
            ApiStatusCode::BadRequest => 400,
            ApiStatusCode::InternalServerError => 500,
        }
    }
}

/// Every core operation either succeeds or fails with one of these
/// terminal kinds. The attached message is free text for the client;
/// contracts constrain only the kind.
#[derive(Debug)]
pub enum ApiError {
    /// Structurally malformed request data: wrong length, out-of-range
    /// field, empty required string.
    InvalidInput(String),
    /// A public-key or secret-key string that does not decode to the
    /// expected byte length.
    InvalidKey(String),
    /// Base58/Base64 decode failure.
    EncodingError(String),
    /// A signature that is not structurally a 64-byte value.
    VerificationFailed(String),
    /// Failure inside instruction construction.
    TokenCreation(String),
}

impl ApiError {
    /// Every error kind is a client error.
    pub fn status_code(&self) -> (r: ApiStatusCode)
        ensures
            r == ApiStatusCode::BadRequest,
    {
        match self {
            ApiError::InvalidInput(_) => ApiStatusCode::BadRequest,
            ApiError::InvalidKey(_) => ApiStatusCode::BadRequest,
            ApiError::EncodingError(_) => ApiStatusCode::BadRequest,
            ApiError::VerificationFailed(_) => ApiStatusCode::BadRequest,
            ApiError::TokenCreation(_) => ApiStatusCode::BadRequest,
        }
    }

    /// The message to surface to the client.
    pub fn message(&self) -> (r: &String)
        ensures
            r == (match self {
                ApiError::InvalidInput(m) => m,
                ApiError::InvalidKey(m) => m,
                ApiError::EncodingError(m) => m,
                ApiError::VerificationFailed(m) => m,
                ApiError::TokenCreation(m) => m,
            }),
    {
        match self {
            ApiError::InvalidInput(m) => m,
            ApiError::InvalidKey(m) => m,
            ApiError::EncodingError(m) => m,
            ApiError::VerificationFailed(m) => m,
            ApiError::TokenCreation(m) => m,
        }
    }
}

} // verus!
