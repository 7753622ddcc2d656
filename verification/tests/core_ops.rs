use solkit::codec::{decode_base58, decode_base64, encode_base58, encode_base64};
use solkit::errors::ApiError;
use solkit::instruction::{build_initialize_mint, INITIALIZE_MINT_TAG};
use solkit::keys::{string_to_pubkey, KeyMaterial, PublicKey};
use solkit::signature::{sign, verify};

fn key_from(bytes: [u8; 32]) -> PublicKey {
    PublicKey::from_bytes(bytes.to_vec()).unwrap()
}

#[test]
fn base58_round_trips() {
    let cases: Vec<Vec<u8>> = vec![
        vec![0],
        vec![1],
        vec![0, 0, 7],
        vec![255, 254, 1, 0, 42],
        (0u8..32).collect(),
    ];
    for b in cases {
        let s = encode_base58(&b);
        assert!(!s.is_empty());
        assert_eq!(decode_base58(&s).unwrap(), b);
    }
}

#[test]
fn base58_known_answers() {
    assert_eq!(encode_base58(&[0]), "1");
    assert_eq!(encode_base58(&[1]), "2");
    assert_eq!(decode_base58("2").unwrap(), vec![1]);
    assert_eq!(encode_base58(&[]), "");
}

#[test]
fn base64_round_trips() {
    let cases: Vec<Vec<u8>> = vec![vec![77], vec![77, 97], vec![77, 97, 110], (0u8..64).collect()];
    for b in cases {
        let s = encode_base64(&b);
        assert!(!s.is_empty());
        assert_eq!(decode_base64(&s).unwrap(), b);
    }
}

#[test]
fn base64_known_answers() {
    assert_eq!(encode_base64(b"Man"), "TWFu");
    assert_eq!(encode_base64(b"M"), "TQ==");
    assert_eq!(decode_base64("TWFu").unwrap(), b"Man".to_vec());
}

#[test]
fn decode_base58_rejects_empty_and_bad_chars() {
    assert!(matches!(decode_base58(""), Err(ApiError::EncodingError(_))));
    assert!(matches!(decode_base58("0OIl"), Err(ApiError::EncodingError(_))));
    assert!(matches!(decode_base58("ab!c"), Err(ApiError::EncodingError(_))));
}

#[test]
fn decode_base64_rejects_empty_and_bad_input() {
    assert!(matches!(decode_base64(""), Err(ApiError::EncodingError(_))));
    assert!(matches!(decode_base64("&&&&"), Err(ApiError::EncodingError(_))));
    assert!(matches!(decode_base64("TWFu="), Err(ApiError::EncodingError(_))));
}

#[test]
fn string_to_pubkey_accepts_only_32_byte_keys() {
    let bytes: Vec<u8> = (100u8..132).collect();
    let s = encode_base58(&bytes);
    let k = string_to_pubkey(&s).unwrap();
    assert_eq!(k.as_bytes().as_slice(), bytes.as_slice());

    assert!(matches!(string_to_pubkey(""), Err(ApiError::InvalidKey(_))));
    let short = encode_base58(&[1, 2, 3]);
    assert!(matches!(string_to_pubkey(&short), Err(ApiError::InvalidKey(_))));
    assert!(matches!(string_to_pubkey("0O"), Err(ApiError::InvalidKey(_))));
}

#[test]
fn derive_uses_only_first_32_bytes() {
    let seed: Vec<u8> = (7u8..39).collect();
    let km32 = KeyMaterial::derive_from_secret(&seed).unwrap();

    let mut expanded = seed.clone();
    expanded.extend_from_slice(&[0xAB; 32]);
    let km64 = KeyMaterial::derive_from_secret(&expanded).unwrap();

    assert_eq!(km32.public_key().as_bytes(), km64.public_key().as_bytes());
    // the public key is recomputed, never taken from the malformed tail
    assert_ne!(km64.public_key().as_bytes().as_slice(), &[0xABu8; 32][..]);
    // and it is not the seed handed back unchanged
    assert_ne!(km32.public_key().as_bytes(), &seed);
}

#[test]
fn derive_rejects_other_lengths() {
    assert!(matches!(KeyMaterial::derive_from_secret(&[]), Err(ApiError::InvalidKey(_))));
    assert!(matches!(KeyMaterial::derive_from_secret(&[1u8; 31]), Err(ApiError::InvalidKey(_))));
    assert!(matches!(KeyMaterial::derive_from_secret(&[1u8; 33]), Err(ApiError::InvalidKey(_))));
    assert!(matches!(KeyMaterial::derive_from_secret(&[1u8; 65]), Err(ApiError::InvalidKey(_))));
}

#[test]
fn derivation_matches_reference_implementation() {
    let seed = [5u8; 32];
    let km = KeyMaterial::derive_from_secret(&seed).unwrap();
    let reference = solana_sdk::signature::keypair_from_seed(&seed).unwrap();
    let expected: Vec<u8> = reference.to_bytes()[32..].to_vec();
    assert_eq!(km.public_key().as_bytes(), &expected);
}

#[test]
fn sign_then_verify_succeeds() {
    let km = KeyMaterial::derive_from_secret(&[9u8; 32]).unwrap();
    let message = b"hello, world";
    let sig = sign(message, &km);
    assert_eq!(sig.len(), 64);
    assert_eq!(verify(message, &sig, km.public_key()).unwrap(), true);
    // the empty message is signable too
    let sig_empty = sign(b"", &km);
    assert_eq!(verify(b"", &sig_empty, km.public_key()).unwrap(), true);
}

#[test]
fn verify_rejects_mutated_message() {
    let km = KeyMaterial::derive_from_secret(&[9u8; 32]).unwrap();
    let message = b"hello, world".to_vec();
    let sig = sign(&message, &km);
    for i in 0..message.len() {
        let mut mutated = message.clone();
        mutated[i] ^= 0x01;
        assert_eq!(verify(&mutated, &sig, km.public_key()).unwrap(), false);
    }
}

#[test]
fn verify_rejects_wrong_key_and_mutated_signature() {
    let km = KeyMaterial::derive_from_secret(&[9u8; 32]).unwrap();
    let other = KeyMaterial::derive_from_secret(&[10u8; 32]).unwrap();
    let message = b"payload";
    let sig = sign(message, &km);
    assert_eq!(verify(message, &sig, other.public_key()).unwrap(), false);
    let mut bad_sig = sig.clone();
    bad_sig[0] ^= 0x80;
    assert_eq!(verify(message, &bad_sig, km.public_key()).unwrap(), false);
}

#[test]
fn verify_errors_on_malformed_signature() {
    let km = KeyMaterial::derive_from_secret(&[9u8; 32]).unwrap();
    let r = verify(b"m", &[0u8; 63], km.public_key());
    assert!(matches!(r, Err(ApiError::VerificationFailed(_))));
    let r = verify(b"m", &[0u8; 65], km.public_key());
    assert!(matches!(r, Err(ApiError::VerificationFailed(_))));
}

#[test]
fn signing_is_deterministic() {
    let km1 = KeyMaterial::derive_from_secret(&[3u8; 32]).unwrap();
    let km2 = KeyMaterial::derive_from_secret(&[3u8; 32]).unwrap();
    assert_eq!(sign(b"same message", &km1), sign(b"same message", &km2));
}

#[test]
fn initialize_mint_layout_without_freeze_authority() {
    let mint = key_from([11u8; 32]);
    let authority_bytes: [u8; 32] = core::array::from_fn(|i| (i as u8).wrapping_mul(3));
    let authority = key_from(authority_bytes);
    let ix = build_initialize_mint(&mint, &authority, 6, None).unwrap();

    assert_eq!(ix.data[0], INITIALIZE_MINT_TAG);
    assert_eq!(ix.data[1], 6);
    assert_eq!(&ix.data[2..34], &authority_bytes[..]);
    assert_eq!(ix.data[34], 0);
    assert_eq!(ix.data.len(), 35);

    assert_eq!(ix.accounts.len(), 2);
    assert_eq!(ix.accounts[0].pubkey.as_bytes().as_slice(), &[11u8; 32][..]);
    assert!(!ix.accounts[0].is_signer);
    assert!(ix.accounts[0].is_writable);
    assert!(!ix.accounts[1].is_signer);
    assert!(!ix.accounts[1].is_writable);
    assert_eq!(
        encode_base58(ix.accounts[1].pubkey.as_bytes()),
        "SysvarRent111111111111111111111111111111111"
    );
    assert_eq!(
        encode_base58(ix.program_id.as_bytes()),
        "TokenkegQfeZyiNwAJbNbGKPFXCWuBvf9Ss623VQ5DA"
    );
}

#[test]
fn initialize_mint_layout_with_freeze_authority() {
    let mint = key_from([11u8; 32]);
    let authority = key_from([22u8; 32]);
    let freeze = key_from([33u8; 32]);
    let ix = build_initialize_mint(&mint, &authority, 0, Some(&freeze)).unwrap();

    assert_eq!(ix.data[0], INITIALIZE_MINT_TAG);
    assert_eq!(ix.data[1], 0);
    assert_eq!(&ix.data[2..34], &[22u8; 32][..]);
    assert_eq!(ix.data[34], 1);
    assert_eq!(&ix.data[35..67], &[33u8; 32][..]);
    assert_eq!(ix.data.len(), 67);
}

#[test]
fn initialize_mint_rejects_decimals_above_nine() {
    let mint = key_from([1u8; 32]);
    let authority = key_from([2u8; 32]);
    let r = build_initialize_mint(&mint, &authority, 10, None);
    assert!(matches!(r, Err(ApiError::InvalidInput(_))));
    assert!(build_initialize_mint(&mint, &authority, 9, None).is_ok());
}

#[test]
fn public_key_rejects_wrong_lengths() {
    assert!(matches!(PublicKey::from_bytes(vec![1u8; 31]), Err(ApiError::InvalidKey(_))));
    assert!(matches!(PublicKey::from_bytes(vec![1u8; 33]), Err(ApiError::InvalidKey(_))));
    assert!(PublicKey::from_bytes(vec![1u8; 32]).is_ok());
}
