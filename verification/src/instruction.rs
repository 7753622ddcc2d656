//! Deterministic assembly of the token-mint initialization instruction:
//! its ordered account list and its binary payload, reproduced
//! byte-for-byte against the token program's instruction encoding.

use vstd::prelude::*;

use crate::buf::push_bytes;
use crate::errors::ApiError;
use crate::keys::PublicKey;

verus! {

/// The tag byte identifying "initialize mint" among the token program's
/// instruction variants.
pub const INITIALIZE_MINT_TAG: u8 = 0;

/// The 32 bytes of the token program's well-known id (the Base58 form is
/// "TokenkegQfeZyiNwAJbNbGKPFXCWuBvf9Ss623VQ5DA").
pub open spec fn spec_token_program_id() -> Seq<u8> {
    seq![
        6u8, 221u8, 246u8, 225u8, 215u8, 101u8, 161u8, 147u8, 217u8, 203u8, 225u8, 70u8, 206u8,
        235u8, 121u8, 172u8, 28u8, 180u8, 133u8, 237u8, 95u8, 91u8, 55u8, 145u8, 58u8, 140u8,
        245u8, 133u8, 126u8, 255u8, 0u8, 169u8,
    ]
}

/// The 32 bytes of the rent sysvar's well-known id (the Base58 form is
/// "SysvarRent111111111111111111111111111111111").
pub open spec fn spec_rent_sysvar_id() -> Seq<u8> {
    seq![
        6u8, 167u8, 213u8, 23u8, 25u8, 44u8, 92u8, 81u8, 33u8, 140u8, 201u8, 76u8, 61u8, 74u8,
        241u8, 127u8, 88u8, 218u8, 238u8, 8u8, 155u8, 161u8, 253u8, 68u8, 227u8, 219u8, 217u8,
        138u8, 0u8, 0u8, 0u8, 0u8,
    ]
}

/// The token program's id as a public key.
pub fn token_program_id() -> (r: PublicKey)
    ensures
        r@ == spec_token_program_id(),
        r.wf(),
{
    let v: Vec<u8> = vec![
        6u8, 221u8, 246u8, 225u8, 215u8, 101u8, 161u8, 147u8, 217u8, 203u8, 225u8, 70u8, 206u8,
        235u8, 121u8, 172u8, 28u8, 180u8, 133u8, 237u8, 95u8, 91u8, 55u8, 145u8, 58u8, 140u8,
        245u8, 133u8, 126u8, 255u8, 0u8, 169u8,
    ];
    assert(v@ =~= spec_token_program_id());
    PublicKey::from_fixed(v)
}

/// The rent sysvar's id as a public key.
pub fn rent_sysvar_id() -> (r: PublicKey)
    ensures
        r@ == spec_rent_sysvar_id(),
        r.wf(),
{
    let v: Vec<u8> = vec![
        6u8, 167u8, 213u8, 23u8, 25u8, 44u8, 92u8, 81u8, 33u8, 140u8, 201u8, 76u8, 61u8, 74u8,
        241u8, 127u8, 88u8, 218u8, 238u8, 8u8, 155u8, 161u8, 253u8, 68u8, 227u8, 219u8, 217u8,
        138u8, 0u8, 0u8, 0u8, 0u8,
    ];
    assert(v@ =~= spec_rent_sysvar_id());
    PublicKey::from_fixed(v)
}

/// One account slot required by an instruction: which account, and with
/// which capabilities. Ordering among slots is positional and fixed by
/// the target program.
pub struct AccountReference {
    pub pubkey: PublicKey,
    pub is_signer: bool,
    pub is_writable: bool,
}

/// A program-addressed unit of work: the program to invoke, the ordered
/// accounts it touches, and its binary payload.
pub struct Instruction {
    pub program_id: PublicKey,
    pub accounts: Vec<AccountReference>,
    pub data: Vec<u8>,
}

impl Instruction {
    /// Every key held by the instruction is a well-formed 32-byte key.
    pub open spec fn wf(&self) -> bool {
        &&& self.program_id.wf()
        &&& forall|i: int|
            0 <= i < self.accounts@.len() ==> (#[trigger] self.accounts@[i]).pubkey.wf()
    }
}

/// The view of an optional freeze authority: the key's bytes, if one is
/// given.
pub open spec fn freeze_view(freeze_authority: Option<&PublicKey>) -> Option<Seq<u8>> {
    match freeze_authority {
        Some(k) => Some(k@),
        None => None,
    }
}

/// The binary payload of an initialize-mint instruction: the tag byte,
/// the decimals byte, the 32-byte mint authority, then a one-byte
/// presence flag followed — only if present — by the 32-byte freeze
/// authority.
pub open spec fn spec_init_mint_data(
    decimals: u8,
    mint_authority: Seq<u8>,
    freeze_authority: Option<Seq<u8>>,
) -> Seq<u8> {
    let head = seq![INITIALIZE_MINT_TAG, decimals] + mint_authority;
    match freeze_authority {
        Some(f) => head + seq![1u8] + f,
        None => head + seq![0u8],
    }
}

/// Build the instruction that initializes a new token mint with the
/// given decimals and authorities. `decimals` above 9 is rejected before
/// any encoding; the accounts are, in order, the mint (writable, not a
/// signer) and the rent sysvar (read-only, not a signer); the payload
/// follows the token program's initialize-mint encoding exactly.
pub fn build_initialize_mint(
    mint: &PublicKey,
    mint_authority: &PublicKey,
    decimals: u8,
    freeze_authority: Option<&PublicKey>,
) -> (r: Result<Instruction, ApiError>)
    requires
        mint.wf(),
        mint_authority.wf(),
        freeze_authority matches Some(k) ==> k.wf(),
    ensures
        decimals <= 9 ==> r is Ok,
        r matches Ok(ix) ==> ({
            &&& decimals <= 9
            &&& ix.wf()
            &&& ix.program_id@ == spec_token_program_id()
            &&& ix.accounts@.len() == 2
            &&& ix.accounts@[0].pubkey@ == mint@
            &&& ix.accounts@[0].is_signer == false
            &&& ix.accounts@[0].is_writable == true
            &&& ix.accounts@[1].pubkey@ == spec_rent_sysvar_id()
            &&& ix.accounts@[1].is_signer == false
            &&& ix.accounts@[1].is_writable == false
            &&& ix.data@ == spec_init_mint_data(
                decimals,
                mint_authority@,
                freeze_view(freeze_authority),
            )
        }),
        decimals > 9 ==> (r matches Err(e) && e is InvalidInput),
{
    if decimals > 9 {
        return Err(ApiError::InvalidInput("token decimals must be between 0 and 9".to_string()));
    }
    let mut data: Vec<u8> = Vec::new();
    data.push(INITIALIZE_MINT_TAG);
    data.push(decimals);
    push_bytes(&mut data, mint_authority.as_bytes().as_slice());
    match freeze_authority {
        Some(k) => {
            data.push(1u8);
            push_bytes(&mut data, k.as_bytes().as_slice());
        },
        None => {
            data.push(0u8);
        },
    }
    let mut accounts: Vec<AccountReference> = Vec::new();
    accounts.push(
        AccountReference { pubkey: mint.clone_key(), is_signer: false, is_writable: true },
    );
    accounts.push(
        AccountReference { pubkey: rent_sysvar_id(), is_signer: false, is_writable: false },
    );
    let ix = Instruction { program_id: token_program_id(), accounts, data };
    assert(ix.data@ =~= spec_init_mint_data(
        decimals,
        mint_authority@,
        freeze_view(freeze_authority),
    ));
    Ok(ix)
}

} // verus!
