//! The four core operations at the request boundary, over plain typed
//! request and response values: keypair generation, message signing,
//! signature verification, and token-mint instruction construction.
//! Transport, routing and JSON are left to the caller.

use vstd::prelude::*;
use vstd::utf8::encode_utf8;

use crate::codec::{base58_of, base64_of, decode_base58, decode_base64, encode_base58,
    encode_base64};
use crate::errors::ApiError;
use crate::instruction::{build_initialize_mint, spec_init_mint_data, spec_rent_sysvar_id,
    spec_token_program_id, Instruction};
use crate::keys::{pubkey_of_seed, seed_part, string_to_pubkey, KeyMaterial};
use crate::signature::{ed25519_sig, ed25519_verified, sign, verify};

verus! {

/// The uniform envelope around every successful payload.
pub struct ApiResponse<T> {
    pub success: bool,
    pub data: T,
}

impl<T> ApiResponse<T> {
    /// Wrap a payload as a successful response.
    pub fn success(data: T) -> (r: ApiResponse<T>)
        ensures
            r.success == true,
            r.data == data,
    {
        ApiResponse { success: true, data }
    }
}

/// A freshly generated keypair: the public key in Base58, and the
/// 64-byte expanded secret (seed followed by public key) in Base58.
pub struct KeypairResponse {
    pub pubkey: String,
    pub secret: String,
}

/// A request to build a token-mint initialization instruction.
pub struct CreateTokenRequest {
    pub mint_authority: String,
    pub mint: String,
    pub decimals: u8,
}

/// One account slot of a built instruction, with its key in Base58.
pub struct AccountMeta {
    pub pubkey: String,
    pub is_signer: bool,
    pub is_writable: bool,
}

/// A built instruction: its program id in Base58, its ordered account
/// slots, and its binary payload in Base64.
pub struct CreateTokenResponse {
    pub program_id: String,
    pub accounts: Vec<AccountMeta>,
    pub instruction_data: String,
}

/// A request to sign a message with a Base58-encoded secret key.
pub struct SignMessageRequest {
    pub message: String,
    pub private_key: String,
}

/// A produced signature in Base64, echoing the message and the Base58
/// public key that verifies it.
pub struct SignMessageResponse {
    pub signature: String,
    pub message: String,
    pub public_key: String,
}

/// A request to verify a Base64 signature over a message under a Base58
/// public key.
pub struct VerifyMessageRequest {
    pub message: String,
    pub signature: String,
    pub public_key: String,
}

/// The verification verdict, echoing the message and public key.
pub struct VerifyMessageResponse {
    pub is_valid: bool,
    pub message: String,
    pub public_key: String,
}

/// Generate a fresh keypair from the system's entropy source. Whatever
/// 32-byte seed was drawn, the response holds the Base58 form of its
/// derived public key and the Base58 form of the 64-byte expanded secret
/// (that seed followed by that same public key).
pub fn generate_keypair() -> (r: KeypairResponse)
    ensures
        exists|seed: Seq<u8>|
            #![auto]
            seed.len() == 32 && r.pubkey@ == base58_of(pubkey_of_seed(seed)) && r.secret@
                == base58_of(seed + pubkey_of_seed(seed)),
{
    let km = KeyMaterial::generate();
    let pubkey_str = km.public_key().to_base58();
    let secret_bytes = km.to_secret_bytes();
    let secret_str = encode_base58(secret_bytes.as_slice());
    let r = KeypairResponse { pubkey: pubkey_str, secret: secret_str };
    proof {
        assert(km.seed_view().len() == 32 && r.pubkey@ == base58_of(
            pubkey_of_seed(km.seed_view()),
        ) && r.secret@ == base58_of(km.seed_view() + pubkey_of_seed(km.seed_view())));
    }
    r
}

/// Sign a message with a Base58-encoded secret key. The secret must
/// decode to 32 bytes (a seed) or 64 bytes (an expanded secret, of which
/// only the first 32 bytes are used); the signature is the deterministic
/// Ed25519 signature over the message's UTF-8 bytes, returned in Base64
/// beside the Base58 public key derived from the seed.
pub fn sign_message(req: SignMessageRequest) -> (r: Result<SignMessageResponse, ApiError>)
    ensures
        req.private_key@.len() == 0 ==> (r matches Err(e) && e is EncodingError),
        r matches Ok(resp) ==> exists|secret: Seq<u8>|
            #![auto]
            {
                &&& req.private_key@ == base58_of(secret)
                &&& (secret.len() == 32 || secret.len() == 64)
                &&& resp.signature@ == base64_of(
                    ed25519_sig(seed_part(secret), encode_utf8(req.message@)),
                )
                &&& resp.public_key@ == base58_of(pubkey_of_seed(seed_part(secret)))
                &&& resp.message@ == req.message@
            },
        forall|secret: Seq<u8>|
            #![auto]
            req.private_key@ == base58_of(secret) && req.private_key@.len() > 0 && (secret.len()
                == 32 || secret.len() == 64) ==> r is Ok,
        forall|secret: Seq<u8>|
            #![auto]
            req.private_key@ == base58_of(secret) && req.private_key@.len() > 0 && !(secret.len()
                == 32 || secret.len() == 64) ==> r is Err && r->Err_0 is InvalidKey,
        r matches Err(e) ==> (e is EncodingError || e is InvalidKey),
{
    let secret_bytes = match decode_base58(req.private_key.as_str()) {
        Ok(v) => v,
        Err(e) => { return Err(e); },
    };
    let km = match KeyMaterial::derive_from_secret(secret_bytes.as_slice()) {
        Ok(km) => km,
        Err(e) => { return Err(e); },
    };
    let msg_bytes = req.message.as_str().as_bytes();
    let sig = sign(msg_bytes, &km);
    let signature_b64 = encode_base64(sig.as_slice());
    let public_key_str = km.public_key().to_base58();
    let resp = SignMessageResponse {
        signature: signature_b64,
        message: req.message,
        public_key: public_key_str,
    };
    proof {
        assert(req.private_key@ == base58_of(secret_bytes@) && (secret_bytes@.len() == 32
            || secret_bytes@.len() == 64) && resp.signature@ == base64_of(
            ed25519_sig(seed_part(secret_bytes@), encode_utf8(req.message@)),
        ) && resp.public_key@ == base58_of(pubkey_of_seed(seed_part(secret_bytes@)))
            && resp.message@ == req.message@);
    }
    Ok(resp)
}

/// Verify a Base64 signature over a message under a Base58 public key.
/// The key must decode to exactly 32 bytes and the signature string must
/// be valid Base64; a signature that is not 64 bytes long is a
/// structural error, while a well-formed signature that does not match
/// yields a response with `is_valid` false.
pub fn verify_message(req: VerifyMessageRequest) -> (r: Result<VerifyMessageResponse, ApiError>)
    ensures
        req.public_key@.len() == 0 ==> (r matches Err(e) && e is InvalidKey),
        r matches Ok(resp) ==> exists|pk: Seq<u8>, sig: Seq<u8>|
            #![trigger base58_of(pk), base64_of(sig)]
            {
                &&& pk.len() == 32
                &&& sig.len() == 64
                &&& req.public_key@ == base58_of(pk)
                &&& req.signature@ == base64_of(sig)
                &&& resp.is_valid == ed25519_verified(pk, encode_utf8(req.message@), sig)
                &&& resp.message@ == req.message@
                &&& resp.public_key@ == req.public_key@
            },
        forall|pk: Seq<u8>, sig: Seq<u8>|
            #![trigger base58_of(pk), base64_of(sig)]
            req.public_key@ == base58_of(pk) && pk.len() == 32 && req.public_key@.len() > 0
                && req.signature@ == base64_of(sig) && sig.len() == 64 && req.signature@.len() > 0
                ==> r is Ok,
        r matches Err(e) ==> (e is InvalidKey || e is EncodingError || e is VerificationFailed),
{
    let public_key = match string_to_pubkey(req.public_key.as_str()) {
        Ok(k) => k,
        Err(e) => { return Err(e); },
    };
    let signature_bytes = match decode_base64(req.signature.as_str()) {
        Ok(v) => v,
        Err(e) => { return Err(e); },
    };
    let msg_bytes = req.message.as_str().as_bytes();
    let is_valid = match verify(msg_bytes, signature_bytes.as_slice(), &public_key) {
        Ok(b) => b,
        Err(e) => { return Err(e); },
    };
    let resp = VerifyMessageResponse {
        is_valid,
        message: req.message,
        public_key: req.public_key,
    };
    proof {
        assert(public_key@.len() == 32 && signature_bytes@.len() == 64 && req.public_key@
            == base58_of(public_key@) && req.signature@ == base64_of(signature_bytes@)
            && resp.is_valid == ed25519_verified(
            public_key@,
            encode_utf8(req.message@),
            signature_bytes@,
        ));
    }
    Ok(resp)
}

/// Turn a built instruction into its response form: program id and each
/// account key in Base58, the payload in Base64, account order and
/// capability flags preserved.
pub fn instruction_to_response(instruction: Instruction) -> (r: Result<
    CreateTokenResponse,
    ApiError,
>)
    requires
        instruction.wf(),
    ensures
        r is Ok,
        r matches Ok(resp) ==> ({
            &&& resp.program_id@ == base58_of(instruction.program_id@)
            &&& resp.accounts@.len() == instruction.accounts@.len()
            &&& forall|i: int|
                0 <= i < resp.accounts@.len() ==> {
                    &&& (#[trigger] resp.accounts@[i]).pubkey@ == base58_of(
                        instruction.accounts@[i].pubkey@,
                    )
                    &&& resp.accounts@[i].is_signer == instruction.accounts@[i].is_signer
                    &&& resp.accounts@[i].is_writable == instruction.accounts@[i].is_writable
                }
            &&& resp.instruction_data@ == base64_of(instruction.data@)
        }),
{
    let mut accounts: Vec<AccountMeta> = Vec::new();
    let mut i: usize = 0;
    while i < instruction.accounts.len()
        invariant
            i <= instruction.accounts@.len(),
            accounts@.len() == i,
            forall|j: int|
                0 <= j < i as int ==> {
                    &&& (#[trigger] accounts@[j]).pubkey@ == base58_of(
                        instruction.accounts@[j].pubkey@,
                    )
                    &&& accounts@[j].is_signer == instruction.accounts@[j].is_signer
                    &&& accounts@[j].is_writable == instruction.accounts@[j].is_writable
                },
        decreases instruction.accounts@.len() - i,
    {
        let acc = &instruction.accounts[i];
        let meta = AccountMeta {
            pubkey: acc.pubkey.to_base58(),
            is_signer: acc.is_signer,
            is_writable: acc.is_writable,
        };
        accounts.push(meta);
        i = i + 1;
    }
    let instruction_data = encode_base64(instruction.data.as_slice());
    Ok(
        CreateTokenResponse {
            program_id: instruction.program_id.to_base58(),
            accounts,
            instruction_data,
        },
    )
}

/// Build the token-mint initialization instruction for the given mint
/// and authority (which also serves as the freeze authority) and return
/// it in response form. Both keys must parse as 32-byte Base58 keys and
/// `decimals` must be at most 9.
pub fn create_token(req: CreateTokenRequest) -> (r: Result<CreateTokenResponse, ApiError>)
    ensures
        req.mint_authority@.len() == 0 || req.mint@.len() == 0 ==> r is Err,
        r matches Ok(resp) ==> exists|auth: Seq<u8>, mint: Seq<u8>|
            #![trigger base58_of(auth), base58_of(mint)]
            {
                &&& auth.len() == 32
                &&& mint.len() == 32
                &&& req.mint_authority@ == base58_of(auth)
                &&& req.mint@ == base58_of(mint)
                &&& req.decimals <= 9
                &&& resp.program_id@ == base58_of(spec_token_program_id())
                &&& resp.accounts@.len() == 2
                &&& resp.accounts@[0].pubkey@ == base58_of(mint)
                &&& resp.accounts@[0].is_signer == false
                &&& resp.accounts@[0].is_writable == true
                &&& resp.accounts@[1].pubkey@ == base58_of(spec_rent_sysvar_id())
                &&& resp.accounts@[1].is_signer == false
                &&& resp.accounts@[1].is_writable == false
                &&& resp.instruction_data@ == base64_of(
                    spec_init_mint_data(req.decimals, auth, Some(auth)),
                )
            },
        forall|auth: Seq<u8>, mint: Seq<u8>|
            #![trigger base58_of(auth), base58_of(mint)]
            req.mint_authority@ == base58_of(auth) && auth.len() == 32 && req.mint_authority@.len()
                > 0 && req.mint@ == base58_of(mint) && mint.len() == 32 && req.mint@.len() > 0
                && req.decimals <= 9 ==> r is Ok,
        forall|auth: Seq<u8>, mint: Seq<u8>|
            #![trigger base58_of(auth), base58_of(mint)]
            req.mint_authority@ == base58_of(auth) && auth.len() == 32 && req.mint_authority@.len()
                > 0 && req.mint@ == base58_of(mint) && mint.len() == 32 && req.mint@.len() > 0
                && req.decimals > 9 ==> r is Err && r->Err_0 is InvalidInput,
        r matches Err(e) ==> (e is InvalidKey || e is InvalidInput),
{
    let mint_authority = match string_to_pubkey(req.mint_authority.as_str()) {
        Ok(k) => k,
        Err(e) => { return Err(e); },
    };
    let mint_pubkey = match string_to_pubkey(req.mint.as_str()) {
        Ok(k) => k,
        Err(e) => { return Err(e); },
    };
    if req.decimals > 9 {
        return Err(ApiError::InvalidInput("token decimals must be between 0 and 9".to_string()));
    }
    let init_mint_ix = match build_initialize_mint(
        &mint_pubkey,
        &mint_authority,
        req.decimals,
        Some(&mint_authority),
    ) {
        Ok(ix) => ix,
        Err(e) => { return Err(e); },
    };
    let response = match instruction_to_response(init_mint_ix) {
        Ok(resp) => resp,
        Err(e) => { return Err(e); },
    };
    Ok(response)
}

} // verus!
