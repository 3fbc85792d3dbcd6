use offline_signer::command::{SignTransactionCmd, SignedExtensionProvider};
use offline_signer::crypto::{account_id, derive_public, sign_message, CryptoScheme};
use offline_signer::error::SignError;
use offline_signer::extrinsic::{
    build_and_sign, decode_extrinsic, encode_address, signing_payload, AddressFormat, SignedExtensions, SignedExtrinsic,
};
use offline_signer::hex_text::{decode_hex, encode_hex};
use offline_signer::nonce::parse_nonce;
use sp_core::Pair;

struct NonceProvider;

impl SignedExtensionProvider for NonceProvider {
    fn signed_extensions(&self, nonce: u32, prior_block_hash: &Vec<u8>) -> Result<SignedExtensions, SignError> {
        let mut extra = vec![0u8];
        extra.extend_from_slice(&nonce.to_le_bytes());
        let mut additional = vec![1u8, 0, 0, 0];
        additional.extend_from_slice(prior_block_hash);
        Ok(SignedExtensions { extra, additional })
    }
}

struct FailingProvider;

impl SignedExtensionProvider for FailingProvider {
    fn signed_extensions(&self, _nonce: u32, _prior_block_hash: &Vec<u8>) -> Result<SignedExtensions, SignError> {
        Err(SignError::ProviderError)
    }
}

fn cmd(scheme: CryptoScheme, suri: &str, nonce: &str, hash: &str, call: &str) -> SignTransactionCmd {
    SignTransactionCmd {
        suri: suri.to_string(),
        nonce: nonce.to_string(),
        prior_block_hash: hash.to_string(),
        call: call.to_string(),
        scheme,
        address_format: AddressFormat::MultiAddressId,
    }
}

fn blake(b: &[u8]) -> Vec<u8> {
    <sp_core::Blake2Hasher as sp_core::Hasher>::hash(b).0.to_vec()
}

fn zero_hash() -> String {
    format!("0x{}", "00".repeat(32))
}

#[test]
fn hex_decodes_with_and_without_prefix() {
    assert_eq!(decode_hex("0x0a0B"), Ok(vec![10, 11]));
    assert_eq!(decode_hex("ff00"), Ok(vec![255, 0]));
    assert_eq!(decode_hex(""), Ok(vec![]));
    assert_eq!(decode_hex("0x"), Ok(vec![]));
}

#[test]
fn hex_rejects_odd_length_and_bad_digits() {
    assert_eq!(decode_hex("0x123"), Err(SignError::DecodeError));
    assert_eq!(decode_hex("zz"), Err(SignError::DecodeError));
    assert_eq!(decode_hex("0X12"), Err(SignError::DecodeError));
}

#[test]
fn hex_encodes_lowercase_with_prefix() {
    assert_eq!(encode_hex(&[0xab, 0x01, 0xff]), "0xab01ff");
    assert_eq!(encode_hex(&[]), "0x");
}

#[test]
fn nonce_parses_decimal_within_range() {
    assert_eq!(parse_nonce("0"), Ok(0));
    assert_eq!(parse_nonce("0042"), Ok(42));
    assert_eq!(parse_nonce("4294967295"), Ok(u32::MAX));
}

#[test]
fn nonce_rejects_bad_text() {
    assert_eq!(parse_nonce(""), Err(SignError::ParseError));
    assert_eq!(parse_nonce("12a"), Err(SignError::ParseError));
    assert_eq!(parse_nonce("+1"), Err(SignError::ParseError));
    assert_eq!(parse_nonce("4294967296"), Err(SignError::ParseError));
}

#[test]
fn addresses_follow_format() {
    let acc = vec![7u8; 32];
    assert_eq!(encode_address(AddressFormat::AccountId, &acc), acc);
    let mut idx = vec![0xffu8];
    idx.extend_from_slice(&acc);
    assert_eq!(encode_address(AddressFormat::IndicesId, &acc), idx);
    let mut multi = vec![0u8];
    multi.extend_from_slice(&acc);
    assert_eq!(encode_address(AddressFormat::MultiAddressId, &acc), multi);
}

#[test]
fn short_payload_is_signed_as_is_and_long_one_hashed() {
    let ext = SignedExtensions { extra: vec![1, 2], additional: vec![3] };
    assert_eq!(signing_payload(&vec![9], &ext), vec![9, 1, 2, 3]);
    let long = vec![5u8; 300];
    let hashed = signing_payload(&long, &ext);
    assert_eq!(hashed.len(), 32);
    let mut full = long.clone();
    full.extend_from_slice(&[1, 2, 3]);
    assert_eq!(hashed, blake(&full));
}

#[test]
fn ecdsa_account_id_is_digest_of_public_key() {
    let public = derive_public(CryptoScheme::Ecdsa, "//Alice", None).unwrap();
    assert_eq!(public.len(), 33);
    let acc = account_id(CryptoScheme::Ecdsa, &public);
    assert_eq!(acc, blake(&public));
    assert_ne!(acc, public);
    let ed = derive_public(CryptoScheme::Ed25519, "//Alice", None).unwrap();
    assert_eq!(account_id(CryptoScheme::Ed25519, &ed), ed);
}

#[test]
fn encoding_lays_out_parts_behind_compact_length() {
    let x = SignedExtrinsic {
        address: vec![0xaa; 2],
        scheme: CryptoScheme::Sr25519,
        signature: vec![0xbb; 3],
        extra: vec![0xcc],
        call: vec![0xdd; 4],
    };
    let e = x.encode();
    assert_eq!(
        e,
        vec![12 << 2, 0x84, 0xaa, 0xaa, 1, 0xbb, 0xbb, 0xbb, 0xcc, 0xdd, 0xdd, 0xdd, 0xdd]
    );
    let big = SignedExtrinsic { call: vec![0; 100], ..x };
    let e = big.encode();
    let len = 2 + 2 + 3 + 1 + 100u32;
    assert_eq!(e[0..2], [((len << 2) | 1) as u8, ((len << 2) >> 8) as u8]);
    assert_eq!(e.len(), 2 + len as usize);
}

#[test]
fn bad_suri_is_key_derivation_error() {
    let ext = SignedExtensions { extra: vec![], additional: vec![] };
    let r = build_and_sign(CryptoScheme::Ed25519, "not a valid uri", None, AddressFormat::AccountId, &vec![1], &ext);
    assert!(matches!(r, Err(SignError::KeyDerivationError)));
    assert_eq!(derive_public(CryptoScheme::Sr25519, "0x12", None), Err(SignError::KeyDerivationError));
}

#[test]
fn build_keeps_call_extra_and_address() {
    let ext = SignedExtensions { extra: vec![4, 5], additional: vec![6] };
    let call = vec![0x0a, 0x0b];
    let x = build_and_sign(CryptoScheme::Sr25519, "//Bob", None, AddressFormat::IndicesId, &call, &ext).unwrap();
    let public = derive_public(CryptoScheme::Sr25519, "//Bob", None).unwrap();
    let mut addr = vec![0xff];
    addr.extend_from_slice(&public);
    assert_eq!(x.address, addr);
    assert_eq!(x.call, call);
    assert_eq!(x.extra, ext.extra);
    assert_eq!(x.signature.len(), 64);
    assert_eq!(x.scheme, CryptoScheme::Sr25519);
}

#[test]
fn signatures_verify_under_each_scheme() {
    let ext = SignedExtensions { extra: vec![0, 1], additional: vec![2, 3] };
    let call = vec![0x05, 0x00, 0x01];
    let msg = signing_payload(&call, &ext);
    for scheme in [CryptoScheme::Ed25519, CryptoScheme::Sr25519, CryptoScheme::Ecdsa] {
        let x = build_and_sign(scheme, "//Alice", None, AddressFormat::AccountId, &call, &ext).unwrap();
        let public = derive_public(scheme, "//Alice", None).unwrap();
        let ok = match scheme {
            CryptoScheme::Ed25519 => sp_core::ed25519::Pair::verify(
                &sp_core::ed25519::Signature::try_from(&x.signature[..]).unwrap(),
                &msg,
                &sp_core::ed25519::Public::try_from(&public[..]).unwrap(),
            ),
            CryptoScheme::Sr25519 => sp_core::sr25519::Pair::verify(
                &sp_core::sr25519::Signature::try_from(&x.signature[..]).unwrap(),
                &msg,
                &sp_core::sr25519::Public::try_from(&public[..]).unwrap(),
            ),
            CryptoScheme::Ecdsa => sp_core::ecdsa::Pair::verify(
                &sp_core::ecdsa::Signature::try_from(&x.signature[..]).unwrap(),
                &msg,
                &sp_core::ecdsa::Public::try_from(&public[..]).unwrap(),
            ),
        };
        assert!(ok);
    }
}

#[test]
fn sign_message_lengths() {
    assert_eq!(sign_message(CryptoScheme::Ecdsa, "//Alice", None, &[1, 2]).unwrap().len(), 65);
    assert_eq!(sign_message(CryptoScheme::Ed25519, "//Alice", None, &[1, 2]).unwrap().len(), 64);
}

#[test]
fn fixed_inputs_give_the_same_output() {
    let c = cmd(CryptoScheme::Ed25519, "//Alice", "0", &zero_hash(), "0x");
    let a = c.run(&NonceProvider, None).unwrap();
    let b = c.run(&NonceProvider, None).unwrap();
    assert_eq!(a, b);
    assert!(a.starts_with("0x"));
    let bytes = decode_hex(&a).unwrap();
    assert_eq!(bytes.len(), 2 + 104);
    assert_eq!(bytes[2], 0x84);
}

#[test]
fn changing_an_input_changes_the_signature() {
    let base = cmd(CryptoScheme::Ed25519, "//Alice", "1", &zero_hash(), "0x0102").run(&NonceProvider, None).unwrap();
    let other_nonce = cmd(CryptoScheme::Ed25519, "//Alice", "2", &zero_hash(), "0x0102").run(&NonceProvider, None).unwrap();
    let hash1 = format!("0x01{}", "00".repeat(31));
    let other_hash = cmd(CryptoScheme::Ed25519, "//Alice", "1", &hash1, "0x0102").run(&NonceProvider, None).unwrap();
    let other_call = cmd(CryptoScheme::Ed25519, "//Alice", "1", &zero_hash(), "0x0103").run(&NonceProvider, None).unwrap();
    // The signature sits after the two-byte length prefix, version, 33-byte address and tag.
    let sig = |s: &str| decode_hex(s).unwrap()[37..101].to_vec();
    assert_ne!(sig(&base), sig(&other_nonce));
    assert_ne!(sig(&base), sig(&other_hash));
    assert_ne!(sig(&base), sig(&other_call));
}

#[test]
fn malformed_hex_is_decode_error_before_key_use() {
    let r = cmd(CryptoScheme::Sr25519, "not a uri", "1", "0x123", "0x00").run(&NonceProvider, None);
    assert!(matches!(r, Err(SignError::DecodeError)));
    let r = cmd(CryptoScheme::Sr25519, "not a uri", "1", &zero_hash(), "0xzz").run(&NonceProvider, None);
    assert!(matches!(r, Err(SignError::DecodeError)));
    let r = cmd(CryptoScheme::Sr25519, "not a uri", "1", "0x0011", "0x00").run(&NonceProvider, None);
    assert!(matches!(r, Err(SignError::DecodeError)));
}

#[test]
fn bad_nonce_is_parse_error_first() {
    let r = cmd(CryptoScheme::Ecdsa, "not a uri", "abc", "0x1", "0xzz").run(&NonceProvider, None);
    assert!(matches!(r, Err(SignError::ParseError)));
}

#[test]
fn bad_suri_after_good_inputs_is_key_error() {
    let r = cmd(CryptoScheme::Ecdsa, "not a uri", "3", &zero_hash(), "0x00").run(&NonceProvider, None);
    assert!(matches!(r, Err(SignError::KeyDerivationError)));
}

#[test]
fn decoded_inputs_keep_exact_hash() {
    let d = cmd(CryptoScheme::Ed25519, "//Alice", "7", &zero_hash(), "0x0a").decode_inputs().ok().unwrap();
    assert_eq!(d.nonce, 7);
    assert_eq!(d.prior_block_hash, vec![0u8; 32]);
    assert_eq!(d.call, vec![0x0a]);
}

#[test]
fn hash_of_wrong_length_is_decode_error() {
    let long = format!("{}ff", zero_hash());
    let r = cmd(CryptoScheme::Ed25519, "//Alice", "7", &long, "0x0a").decode_inputs();
    assert!(matches!(r, Err(SignError::DecodeError)));
    let r = cmd(CryptoScheme::Ed25519, "not a uri", "7", &long, "0x0a").run(&NonceProvider, None);
    assert!(matches!(r, Err(SignError::DecodeError)));
    let short = format!("0x{}", "00".repeat(31));
    let r = cmd(CryptoScheme::Ed25519, "//Alice", "7", &short, "0x0a").run(&NonceProvider, None);
    assert!(matches!(r, Err(SignError::DecodeError)));
}

#[test]
fn provider_failure_is_provider_error() {
    let r = cmd(CryptoScheme::Ed25519, "//Alice", "1", &zero_hash(), "0x00").run(&FailingProvider, None);
    assert!(matches!(r, Err(SignError::ProviderError)));
}

#[test]
fn bad_suri_comes_before_provider() {
    let r = cmd(CryptoScheme::Ed25519, "not a uri", "1", &zero_hash(), "0x00").run(&FailingProvider, None);
    assert!(matches!(r, Err(SignError::KeyDerivationError)));
}

#[test]
fn ecdsa_seed_outside_the_group_is_rejected() {
    let zero = format!("0x{}", "00".repeat(32));
    assert_eq!(derive_public(CryptoScheme::Ecdsa, &zero, None), Err(SignError::KeyDerivationError));
    let over = format!("0x{}", "ff".repeat(32));
    assert_eq!(sign_message(CryptoScheme::Ecdsa, &over, None, &[1]), Err(SignError::KeyDerivationError));
    let one = format!("0x{}01", "00".repeat(31));
    assert_eq!(derive_public(CryptoScheme::Ecdsa, &one, None).unwrap().len(), 33);
    assert_eq!(derive_public(CryptoScheme::Ed25519, &zero, None).unwrap().len(), 32);
}

#[test]
fn deterministic_schemes_sign_alike() {
    for scheme in [CryptoScheme::Ed25519, CryptoScheme::Ecdsa] {
        let a = sign_message(scheme, "//Alice", None, &[1, 2, 3]).unwrap();
        let b = sign_message(scheme, "//Alice", None, &[1, 2, 3]).unwrap();
        assert_eq!(a, b);
    }
}

#[test]
fn built_extrinsic_decodes_back_to_its_parts() {
    let ext = SignedExtensions { extra: vec![0, 7, 0], additional: vec![1, 2] };
    let call = vec![0x04, 0x01, 0x02];
    for scheme in [CryptoScheme::Ed25519, CryptoScheme::Sr25519, CryptoScheme::Ecdsa] {
        let x = build_and_sign(scheme, "//Charlie", None, AddressFormat::MultiAddressId, &call, &ext).unwrap();
        let bytes = x.encode();
        let y = decode_extrinsic(&bytes, 33, 3).unwrap();
        assert_eq!(y.address, x.address);
        assert_eq!(y.scheme, scheme);
        assert_eq!(y.signature, x.signature);
        assert_eq!(y.extra, ext.extra);
        assert_eq!(y.call, call);
    }
}

#[test]
fn decoder_rejects_wrong_prefix_and_tag() {
    let x = SignedExtrinsic {
        address: vec![1; 32],
        scheme: CryptoScheme::Ed25519,
        signature: vec![2; 64],
        extra: vec![],
        call: vec![3],
    };
    let mut bytes = x.encode();
    assert!(decode_extrinsic(&bytes, 32, 0).is_some());
    assert!(decode_extrinsic(&bytes, 32, 2).is_none());
    bytes[2 + 1 + 32] = 9;
    assert!(decode_extrinsic(&bytes, 32, 0).is_none());
    let mut short = x.encode();
    short.pop();
    assert!(decode_extrinsic(&short, 32, 0).is_none());
}

#[test]
fn well_known_development_key() {
    let public = derive_public(CryptoScheme::Sr25519, "//Alice", None).unwrap();
    assert_eq!(
        encode_hex(&public),
        "0xd43593c715fdd31c61141abd04a99fd6822c8558854ccde39a5684e7a56da27d"
    );
}
