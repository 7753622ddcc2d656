//! Ed25519 signing and verification of arbitrary byte messages.

use solana_sdk::signer::Signer;
use vstd::prelude::*;

use crate::errors::ApiError;
use crate::keys::{pubkey_of_seed, KeyMaterial, PublicKey};

verus! {

/// The Ed25519 signature over a message under a 32-byte seed: signing is
/// deterministic, so the signature is a pure function of seed and
/// message, fixed by the signer relied on below.
pub uninterp spec fn ed25519_sig(seed: Seq<u8>, msg: Seq<u8>) -> Seq<u8>;

/// Whether a 64-byte signature verifies over a message under a 32-byte
/// public key: verification is deterministic, so the outcome is a pure
/// function of the three inputs, fixed by the verifier relied on below.
pub uninterp spec fn ed25519_verified(pk: Seq<u8>, msg: Seq<u8>, sig: Seq<u8>) -> bool;

/// Relies on solana_sdk's Signer::sign_message for Keypair: RFC 8032
/// Ed25519 signing, deterministic in seed and message, yielding a
/// 64-byte signature that verifies (RFC 8032 correctness) over the same
/// message under the public key derived from the seed. keypair_from_seed
/// fails only on a seed shorter than 32 bytes, which the precondition
/// rules out.
#[verifier::external_body]
fn ed25519_sign(seed: &Vec<u8>, msg: &[u8]) -> (r: Vec<u8>)
    requires
        seed@.len() == 32,
    ensures
        r@ == ed25519_sig(seed@, msg@),
        r@.len() == 64,
        ed25519_verified(pubkey_of_seed(seed@), msg@, r@),
{
    let kp = solana_sdk::signature::keypair_from_seed(seed).unwrap();
    kp.sign_message(msg).as_ref().to_vec()
}

/// Relies on solana_sdk's Signature::verify: deterministic Ed25519
/// verification of a 64-byte signature against a public key and message.
/// It returns false, rather than failing, on any cryptographic mismatch,
/// including public-key bytes that are no valid curve point. The
/// conversion into a Signature fails only on a slice that is not 64
/// bytes, which the precondition rules out.
#[verifier::external_body]
fn ed25519_verify(pk: &[u8], msg: &[u8], sig: &[u8]) -> (r: bool)
    requires
        pk@.len() == 32,
        sig@.len() == 64,
    ensures
        r == ed25519_verified(pk@, msg@, sig@),
{
    let signature = solana_sdk::signature::Signature::try_from(sig).unwrap();
    signature.verify(pk, msg)
}

/// Sign a message (the empty message included) with the given key
/// material. Signing is deterministic, and the 64-byte signature
/// verifies over the same message under the key's public key.
pub fn sign(message: &[u8], key: &KeyMaterial) -> (r: Vec<u8>)
    requires
        key.wf(),
    ensures
        r@ == ed25519_sig(key.seed_view(), message@),
        r@.len() == 64,
        ed25519_verified(key.pk_view(), message@, r@),
{
    ed25519_sign(key.seed(), message)
}

/// Verify a signature over a message under a public key. A cryptographic
/// mismatch yields false, never an error; only a signature that is not
/// structurally a 64-byte value is an error.
pub fn verify(message: &[u8], signature: &[u8], public_key: &PublicKey) -> (r: Result<
    bool,
    ApiError,
>)
    requires
        public_key.wf(),
    ensures
        signature@.len() == 64 ==> r is Ok,
        r matches Ok(valid) ==> signature@.len() == 64 && valid == ed25519_verified(
            public_key@,
            message@,
            signature@,
        ),
        signature@.len() != 64 ==> (r matches Err(e) && e is VerificationFailed),
{
    if signature.len() != 64 {
        return Err(
            ApiError::VerificationFailed("signature must be exactly 64 bytes".to_string()),
        );
    }
    let pk_bytes = public_key.as_bytes();
    Ok(ed25519_verify(pk_bytes.as_slice(), message, signature))
}

} // verus!
