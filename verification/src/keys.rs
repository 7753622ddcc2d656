//! Key material: canonical 32-byte public keys, Ed25519 key derivation
//! from a secret seed, and fresh keypair generation.

use vstd::prelude::*;

use crate::buf::copy_range;
use crate::codec::{base58_of, decode_base58, encode_base58};
use crate::errors::ApiError;

verus! {

/// The Ed25519 public key derived from a 32-byte seed: a pure,
/// deterministic function of the seed alone, fixed by the derivation
/// relied on below.
pub uninterp spec fn pubkey_of_seed(seed: Seq<u8>) -> Seq<u8>;

/// The first half of a 32- or 64-byte secret: the seed that Ed25519 key
/// derivation consumes. The second half of an expanded 64-byte secret is
/// ignored by derivation.
pub open spec fn seed_part(secret: Seq<u8>) -> Seq<u8> {
    secret.subrange(0, 32)
}

/// Relies on solana_sdk's keypair_from_seed and Keypair::to_bytes:
/// Ed25519 public-key derivation, a pure deterministic function of the
/// 32-byte seed; the derived public key is the last 32 of the keypair's
/// 64 bytes. keypair_from_seed fails only on a seed shorter than 32
/// bytes, which the precondition rules out.
#[verifier::external_body]
fn ed25519_derive_public(seed: &Vec<u8>) -> (r: Vec<u8>)
    requires
        seed@.len() == 32,
    ensures
        r@ == pubkey_of_seed(seed@),
        r@.len() == 32,
{
    let kp = solana_sdk::signature::keypair_from_seed(seed).unwrap();
    kp.to_bytes()[32..].to_vec()
}

/// Relies on solana_sdk's Keypair::new and Keypair::to_bytes: a fresh
/// keypair from operating-system entropy, returned as the 32-byte secret
/// seed followed by its derived Ed25519 public key. Nothing is assumed
/// about which seed was drawn.
#[verifier::external_body]
fn ed25519_generate() -> (r: Vec<u8>)
    ensures
        r@.len() == 64,
        r@.subrange(32, 64) == pubkey_of_seed(r@.subrange(0, 32)),
{
    solana_sdk::signature::Keypair::new().to_bytes().to_vec()
}

/// A 32-byte public key with a canonical Base58 string encoding.
pub struct PublicKey {
    bytes: Vec<u8>,
}

impl View for PublicKey {
    type V = Seq<u8>;

    closed spec fn view(&self) -> Seq<u8> {
        self.bytes@
    }
}

impl PublicKey {
    /// A well-formed public key holds exactly 32 bytes.
    pub open spec fn wf(&self) -> bool {
        self@.len() == 32
    }

    /// Wrap 32 raw bytes as a public key; any other length is rejected.
    pub fn from_bytes(bytes: Vec<u8>) -> (r: Result<PublicKey, ApiError>)
        ensures
            bytes@.len() == 32 ==> r is Ok,
            r matches Ok(k) ==> k.wf() && k@ == bytes@,
            bytes@.len() != 32 ==> (r matches Err(e) && e is InvalidKey),
    {
        if bytes.len() == 32 {
            Ok(PublicKey { bytes })
        } else {
            Err(ApiError::InvalidKey("public key must be exactly 32 bytes".to_string()))
        }
    }

    /// Wrap bytes already known to hold exactly 32 entries.
    pub(crate) fn from_fixed(bytes: Vec<u8>) -> (r: PublicKey)
        requires
            bytes@.len() == 32,
        ensures
            r@ == bytes@,
            r.wf(),
    {
        PublicKey { bytes }
    }

    /// A fresh key holding the same 32 bytes.
    pub fn clone_key(&self) -> (r: PublicKey)
        ensures
            r@ == self@,
    {
        PublicKey { bytes: copy_range(self.bytes.as_slice(), 0, self.bytes.len()) }
    }

    /// The raw 32 bytes.
    pub fn as_bytes(&self) -> (r: &Vec<u8>)
        ensures
            r@ == self@,
    {
        &self.bytes
    }

    /// A fresh copy of the raw 32 bytes.
    pub fn to_bytes_vec(&self) -> (r: Vec<u8>)
        ensures
            r@ == self@,
    {
        let r = copy_range(self.bytes.as_slice(), 0, self.bytes.len());
        assert(r@ == self@);
        r
    }

    /// The canonical Base58 string encoding of this key.
    pub fn to_base58(&self) -> (r: String)
        ensures
            r@ == base58_of(self@),
            self@.len() > 0 ==> r@.len() > 0,
    {
        encode_base58(self.bytes.as_slice())
    }
}

/// A 32-byte private seed together with the public key derived from it.
/// The public key is always recomputed from the seed, never taken from a
/// caller, so the pair is internally consistent by construction.
pub struct KeyMaterial {
    seed: Vec<u8>,
    public_key: PublicKey,
}

impl KeyMaterial {
    /// The 32-byte private seed.
    pub closed spec fn seed_view(&self) -> Seq<u8> {
        self.seed@
    }

    /// The 32-byte derived public key.
    pub closed spec fn pk_view(&self) -> Seq<u8> {
        self.public_key@
    }

    /// Well-formed key material: a 32-byte seed whose public key is
    /// exactly the one Ed25519 derivation yields from that seed.
    pub open spec fn wf(&self) -> bool {
        &&& self.seed_view().len() == 32
        &&& self.pk_view().len() == 32
        &&& self.pk_view() == pubkey_of_seed(self.seed_view())
    }

    /// Draw a fresh 32-byte seed from the system's entropy source and
    /// derive its public key.
    pub fn generate() -> (r: KeyMaterial)
        ensures
            r.wf(),
    {
        let bytes = ed25519_generate();
        let seed = copy_range(bytes.as_slice(), 0, 32);
        let pk = copy_range(bytes.as_slice(), 32, 64);
        KeyMaterial { seed, public_key: PublicKey { bytes: pk } }
    }

    /// Normalize a supplied secret into key material. A 32-byte secret is
    /// taken as the seed; of a 64-byte expanded secret (seed followed by
    /// public key) only the first 32 bytes are used and the public key is
    /// recomputed fresh. Any other length is rejected.
    pub fn derive_from_secret(secret: &[u8]) -> (r: Result<KeyMaterial, ApiError>)
        ensures
            secret@.len() == 32 || secret@.len() == 64 ==> r is Ok,
            r matches Ok(km) ==> km.wf() && km.seed_view() == seed_part(secret@),
            !(secret@.len() == 32 || secret@.len() == 64) ==> (r matches Err(e) && e is InvalidKey),
    {
        if secret.len() == 32 || secret.len() == 64 {
            let seed = copy_range(secret, 0, 32);
            let pk = ed25519_derive_public(&seed);
            Ok(KeyMaterial { seed, public_key: PublicKey { bytes: pk } })
        } else {
            Err(ApiError::InvalidKey("secret key must be 32 or 64 bytes".to_string()))
        }
    }

    /// The derived public key.
    pub fn public_key(&self) -> (r: &PublicKey)
        ensures
            r@ == self.pk_view(),
    {
        &self.public_key
    }

    /// The 32-byte private seed.
    pub fn seed(&self) -> (r: &Vec<u8>)
        ensures
            r@ == self.seed_view(),
    {
        &self.seed
    }

    /// The 64-byte expanded form: seed followed by derived public key.
    pub fn to_secret_bytes(&self) -> (r: Vec<u8>)
        requires
            self.wf(),
        ensures
            r@ == self.seed_view() + self.pk_view(),
            r@.len() == 64,
    {
        let mut out = copy_range(self.seed.as_slice(), 0, self.seed.len());
        let pk = self.public_key.as_bytes();
        crate::buf::push_bytes(&mut out, pk.as_slice());
        assert(out@ == self.seed_view() + self.pk_view());
        out
    }
}

/// Parse a public key from its Base58 string form. The decoded bytes
/// must be exactly 32; the empty string, a string outside the Base58
/// alphabet, and any other decoded length are all rejected.
pub fn string_to_pubkey(pubkey_str: &str) -> (r: Result<PublicKey, ApiError>)
    ensures
        r matches Ok(k) ==> k.wf() && pubkey_str@ == base58_of(k@) && pubkey_str@.len() > 0,
        forall|b: Seq<u8>|
            pubkey_str@ == base58_of(b) && b.len() == 32 && pubkey_str@.len() > 0 ==> r is Ok
                && r->Ok_0@ == b,
        r matches Err(e) ==> e is InvalidKey,
        pubkey_str@.len() == 0 ==> r is Err,
{
    if pubkey_str.is_empty() {
        return Err(ApiError::InvalidKey("public key must not be empty".to_string()));
    }
    match decode_base58(pubkey_str) {
        Ok(v) => match PublicKey::from_bytes(v) {
            Ok(k) => Ok(k),
            Err(_) => Err(
                ApiError::InvalidKey("public key must decode to exactly 32 bytes".to_string()),
            ),
        },
        Err(_) => Err(ApiError::InvalidKey("public key is not valid base58".to_string())),
    }
}

/// The public key derived from an expanded secret depends only on the
/// first 32 bytes: appending any tail to a 32-byte seed leaves both the
/// seed taken from the secret and the derived public key unchanged.
pub proof fn lemma_derive_depends_on_seed_only(seed: Seq<u8>, tail: Seq<u8>)
    requires
        seed.len() == 32,
    ensures
        seed_part(seed + tail) == seed_part(seed),
        pubkey_of_seed(seed_part(seed + tail)) == pubkey_of_seed(seed_part(seed)),
{
    assert(seed_part(seed + tail) =~= seed);
    assert(seed_part(seed) =~= seed);
}

} // verus!
