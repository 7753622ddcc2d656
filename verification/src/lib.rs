//! Cryptographic and encoding core for a stateless key-service:
//! Base58/Base64 codecs, Ed25519 key derivation, message signing and
//! verification, and construction of the token-mint initialization
//! instruction with its account metadata.

pub mod api;
pub mod buf;
pub mod codec;
pub mod errors;
pub mod instruction;
pub mod keys;
pub mod signature;
