use vstd::prelude::*;
use crate::error::SignError;
use crate::hex_text::{decode_hex, hex_text_bytes, is_hex_text};

verus! {

/// The signature schemes that an account key may use.
#[derive(Clone, Copy, Debug, PartialEq, Eq, Structural)]
pub enum CryptoScheme {
    Ed25519,
    Sr25519,
    Ecdsa,
}

/// The length in bytes of a public key of the scheme.
pub open spec fn public_len(scheme: CryptoScheme) -> nat {
    match scheme {
        CryptoScheme::Ed25519 => 32,
        CryptoScheme::Sr25519 => 32,
        CryptoScheme::Ecdsa => 33,
    }
}

/// The length in bytes of a signature of the scheme.
pub open spec fn signature_len(scheme: CryptoScheme) -> nat {
    match scheme {
        CryptoScheme::Ed25519 => 64,
        CryptoScheme::Sr25519 => 64,
        CryptoScheme::Ecdsa => 65,
    }
}

/// The optional password as text.
pub open spec fn password_text(p: Option<&str>) -> Option<Seq<char>> {
    match p {
        Some(s) => Some(s@),
        None => None,
    }
}

/// Whether an ed25519 key pair can be derived from the secret URI and password.
pub uninterp spec fn ed25519_suri_accepted(uri: Seq<char>, password: Option<Seq<char>>) -> bool;

/// The ed25519 public key derived from the secret URI and password.
pub uninterp spec fn ed25519_public_of(uri: Seq<char>, password: Option<Seq<char>>) -> Seq<u8>;

/// Whether an sr25519 key pair can be derived from the secret URI and password.
pub uninterp spec fn sr25519_suri_accepted(uri: Seq<char>, password: Option<Seq<char>>) -> bool;

/// The sr25519 public key derived from the secret URI and password.
pub uninterp spec fn sr25519_public_of(uri: Seq<char>, password: Option<Seq<char>>) -> Seq<u8>;

/// Whether an ecdsa key pair can be derived from the secret URI and password.
pub uninterp spec fn ecdsa_suri_accepted(uri: Seq<char>, password: Option<Seq<char>>) -> bool;

/// The compressed ecdsa public key derived from the secret URI and password.
pub uninterp spec fn ecdsa_public_of(uri: Seq<char>, password: Option<Seq<char>>) -> Seq<u8>;

/// The ed25519 signature of a message by the key derived from the secret URI and password.
pub uninterp spec fn ed25519_signature_of(uri: Seq<char>, password: Option<Seq<char>>, msg: Seq<u8>) -> Seq<u8>;

/// The recoverable ecdsa signature of a message by the key derived from the
/// secret URI and password.
pub uninterp spec fn ecdsa_signature_of(uri: Seq<char>, password: Option<Seq<char>>, msg: Seq<u8>) -> Seq<u8>;

/// Whether an sr25519 signature of the message verifies against the public key.
pub uninterp spec fn sr25519_verifies(public: Seq<u8>, msg: Seq<u8>, signature: Seq<u8>) -> bool;

/// Whether `signature` is what the key of the scheme, derived from the secret
/// URI and password, gives for the message: the signature itself for the two
/// deterministic schemes, one that verifies against the public key for sr25519.
pub open spec fn signs(
    scheme: CryptoScheme,
    uri: Seq<char>,
    password: Option<Seq<char>>,
    msg: Seq<u8>,
    signature: Seq<u8>,
) -> bool {
    match scheme {
        CryptoScheme::Ed25519 => signature == ed25519_signature_of(uri, password, msg),
        CryptoScheme::Sr25519 => sr25519_verifies(sr25519_public_of(uri, password), msg, signature),
        CryptoScheme::Ecdsa => signature == ecdsa_signature_of(uri, password, msg),
    }
}

/// Whether `c` may stand in the phrase part of a secret URI.
pub open spec fn is_phrase_char(c: char) -> bool {
    ('0' <= c && c <= '9') || ('a' <= c && c <= 'z') || ('A' <= c && c <= 'Z') || c == ' '
}

/// Whether the phrase of the secret URI ends at `k`: it is the longest prefix
/// of letters, digits and spaces.
pub open spec fn phrase_ends_at(uri: Seq<char>, k: int) -> bool {
    &&& 0 <= k <= uri.len()
    &&& forall|i: int| 0 <= i < k ==> #[trigger] is_phrase_char(uri[i])
    &&& (k == uri.len() || !is_phrase_char(uri[k]))
}

/// The order of the secp256k1 group, big-endian.
pub open spec fn secp256k1_order() -> Seq<u8> {
    seq![
        0xffu8, 0xff, 0xff, 0xff, 0xff, 0xff, 0xff, 0xff, 0xff, 0xff, 0xff, 0xff, 0xff, 0xff, 0xff, 0xfe,
        0xba, 0xae, 0xdc, 0xe6, 0xaf, 0x48, 0xa0, 0x3b, 0xbf, 0xd2, 0x5e, 0x8c, 0xd0, 0x36, 0x41, 0x41,
    ]
}

/// Whether the big-endian number `a` is below `b`, both of the same length.
pub open spec fn be_less(a: Seq<u8>, b: Seq<u8>) -> bool {
    exists|j: int| 0 <= j < a.len() && a[j] < b[j] && forall|t: int| 0 <= t < j ==> a[t] == b[t]
}

/// Whether 32 bytes are a secp256k1 secret key: not zero and below the group order.
pub open spec fn is_secp256k1_secret(b: Seq<u8>) -> bool {
    (exists|i: int| 0 <= i < b.len() && b[i] != 0) && be_less(b, secp256k1_order())
}

/// Whether the secret URI gives a raw ecdsa seed (`0x` and 32 hex-encoded bytes
/// as its phrase) that is no secp256k1 secret key.
pub open spec fn ecdsa_seed_unusable(uri: Seq<char>) -> bool {
    exists|k: int| #[trigger] phrase_ends_at(uri, k) && {
        let p = uri.subrange(0, k);
        let t = p.subrange(2, k);
        &&& k >= 2 && p[0] == '0' && p[1] == 'x'
        &&& is_hex_text(t)
        &&& hex_text_bytes(t).len() == 32
        &&& !is_secp256k1_secret(hex_text_bytes(t))
    }
}

/// The 256-bit BLAKE2b digest of the bytes.
pub uninterp spec fn blake2_256_of(b: Seq<u8>) -> Seq<u8>;

/// Whether a key pair of the scheme can be derived from the secret URI and password.
pub open spec fn suri_accepted(scheme: CryptoScheme, uri: Seq<char>, password: Option<Seq<char>>) -> bool {
    match scheme {
        CryptoScheme::Ed25519 => ed25519_suri_accepted(uri, password),
        CryptoScheme::Sr25519 => sr25519_suri_accepted(uri, password),
        CryptoScheme::Ecdsa => !ecdsa_seed_unusable(uri) && ecdsa_suri_accepted(uri, password),
    }
}

/// The public key of the scheme derived from the secret URI and password.
pub open spec fn public_of(scheme: CryptoScheme, uri: Seq<char>, password: Option<Seq<char>>) -> Seq<u8> {
    match scheme {
        CryptoScheme::Ed25519 => ed25519_public_of(uri, password),
        CryptoScheme::Sr25519 => sr25519_public_of(uri, password),
        CryptoScheme::Ecdsa => ecdsa_public_of(uri, password),
    }
}

/// The 32-byte account identifier of a public key: the key itself for the
/// two 32-byte schemes, the BLAKE2b-256 digest of the compressed key for ecdsa.
pub open spec fn account_id_of(scheme: CryptoScheme, public: Seq<u8>) -> Seq<u8> {
    match scheme {
        CryptoScheme::Ecdsa => blake2_256_of(public),
        _ => public,
    }
}

/// Relies on sp_core's `blake2_256` behind `Blake2Hasher::hash`: a 32-byte
/// digest that depends on the input alone.
#[verifier::external_body]
pub(crate) fn blake2_256(b: &[u8]) -> (r: Vec<u8>)
    ensures
        r@ == blake2_256_of(b@),
        r@.len() == 32,
{
    <sp_core::Blake2Hasher as sp_core::Hasher>::hash(b).0.to_vec()
}

/// Relies on sp_core's `Pair::from_string` for `ed25519::Pair`, read for its public key.
#[verifier::external_body]
fn ed25519_public(uri: &str, password: Option<&str>) -> (r: Option<Vec<u8>>)
    ensures
        r.is_some() == ed25519_suri_accepted(uri@, password_text(password)),
        r.is_some() ==> r.unwrap()@ == ed25519_public_of(uri@, password_text(password)),
        r.is_some() ==> r.unwrap()@.len() == 32,
{
    <sp_core::ed25519::Pair as sp_core::Pair>::from_string(uri, password)
        .ok()
        .map(|p| sp_core::ByteArray::to_raw_vec(&sp_core::Pair::public(&p)))
}

/// Relies on sp_core's `Pair::sign` for the `ed25519::Pair` that
/// `Pair::from_string` derives: a 64-byte signature.
#[verifier::external_body]
fn ed25519_sign(uri: &str, password: Option<&str>, msg: &[u8]) -> (r: Option<Vec<u8>>)
    ensures
        r.is_some() == ed25519_suri_accepted(uri@, password_text(password)),
        r.is_some() ==> r.unwrap()@.len() == 64,
        r.is_some() ==> r.unwrap()@ == ed25519_signature_of(uri@, password_text(password), msg@),
{
    <sp_core::ed25519::Pair as sp_core::Pair>::from_string(uri, password)
        .ok()
        .map(|p| sp_core::ByteArray::to_raw_vec(&sp_core::Pair::sign(&p, msg)))
}

/// Relies on sp_core's `Pair::from_string` for `sr25519::Pair`, read for its public key.
#[verifier::external_body]
fn sr25519_public(uri: &str, password: Option<&str>) -> (r: Option<Vec<u8>>)
    ensures
        r.is_some() == sr25519_suri_accepted(uri@, password_text(password)),
        r.is_some() ==> r.unwrap()@ == sr25519_public_of(uri@, password_text(password)),
        r.is_some() ==> r.unwrap()@.len() == 32,
{
    <sp_core::sr25519::Pair as sp_core::Pair>::from_string(uri, password)
        .ok()
        .map(|p| sp_core::ByteArray::to_raw_vec(&sp_core::Pair::public(&p)))
}

/// Relies on sp_core's `Pair::sign` for the `sr25519::Pair` that
/// `Pair::from_string` derives: a 64-byte signature (randomised) that
/// `sr25519::Pair::verify` accepts for the message and the pair's public key.
#[verifier::external_body]
fn sr25519_sign(uri: &str, password: Option<&str>, msg: &[u8]) -> (r: Option<Vec<u8>>)
    ensures
        r.is_some() == sr25519_suri_accepted(uri@, password_text(password)),
        r.is_some() ==> r.unwrap()@.len() == 64,
        r.is_some() ==> sr25519_verifies(sr25519_public_of(uri@, password_text(password)), msg@, r.unwrap()@),
{
    <sp_core::sr25519::Pair as sp_core::Pair>::from_string(uri, password)
        .ok()
        .map(|p| sp_core::ByteArray::to_raw_vec(&sp_core::Pair::sign(&p, msg)))
}

/// Relies on sp_core's `Pair::from_string` for `ecdsa::Pair`, read for its
/// compressed public key. A raw seed that is no secp256k1 secret key makes
/// `Pair::from_seed` panic, so such URIs are left out.
#[verifier::external_body]
fn ecdsa_public(uri: &str, password: Option<&str>) -> (r: Option<Vec<u8>>)
    requires
        !ecdsa_seed_unusable(uri@),
    ensures
        r.is_some() == ecdsa_suri_accepted(uri@, password_text(password)),
        r.is_some() ==> r.unwrap()@ == ecdsa_public_of(uri@, password_text(password)),
        r.is_some() ==> r.unwrap()@.len() == 33,
{
    <sp_core::ecdsa::Pair as sp_core::Pair>::from_string(uri, password)
        .ok()
        .map(|p| sp_core::ByteArray::to_raw_vec(&sp_core::Pair::public(&p)))
}

/// Relies on sp_core's `Pair::sign` for the `ecdsa::Pair` that
/// `Pair::from_string` derives: a 65-byte recoverable signature, deterministic
/// (RFC 6979 nonces). A raw seed that is no secp256k1 secret key makes
/// `Pair::from_seed` panic, so such URIs are left out.
#[verifier::external_body]
fn ecdsa_sign(uri: &str, password: Option<&str>, msg: &[u8]) -> (r: Option<Vec<u8>>)
    requires
        !ecdsa_seed_unusable(uri@),
    ensures
        r.is_some() == ecdsa_suri_accepted(uri@, password_text(password)),
        r.is_some() ==> r.unwrap()@.len() == 65,
        r.is_some() ==> r.unwrap()@ == ecdsa_signature_of(uri@, password_text(password), msg@),
{
    <sp_core::ecdsa::Pair as sp_core::Pair>::from_string(uri, password)
        .ok()
        .map(|p| sp_core::ByteArray::to_raw_vec(&sp_core::Pair::sign(&p, msg)))
}

/// Whether `b` is a secp256k1 secret key.
fn secp256k1_secret_check(b: &Vec<u8>) -> (r: bool)
    requires
        b@.len() == 32,
    ensures
        r == is_secp256k1_secret(b@),
{
    let order: Vec<u8> = vec![
        0xffu8, 0xff, 0xff, 0xff, 0xff, 0xff, 0xff, 0xff, 0xff, 0xff, 0xff, 0xff, 0xff, 0xff, 0xff, 0xfe,
        0xba, 0xae, 0xdc, 0xe6, 0xaf, 0x48, 0xa0, 0x3b, 0xbf, 0xd2, 0x5e, 0x8c, 0xd0, 0x36, 0x41, 0x41,
    ];
    assert(order@ =~= secp256k1_order());
    let mut nonzero = false;
    let mut i: usize = 0;
    while i < 32
        invariant
            i <= 32,
            b@.len() == 32,
            nonzero == exists|t: int| 0 <= t < i && b@[t] != 0,
        decreases 32 - i,
    {
        if b[i] != 0 {
            nonzero = true;
        }
        i = i + 1;
    }
    let mut j: usize = 0;
    while j < 32 && b[j] == order[j]
        invariant
            j <= 32,
            b@.len() == 32,
            order@ == secp256k1_order(),
            forall|t: int| 0 <= t < j ==> b@[t] == order@[t],
        decreases 32 - j,
    {
        j = j + 1;
    }
    let less = j < 32 && b[j] < order[j];
    proof {
        if less {
            assert(b@[j as int] < order@[j as int] && forall|t: int| 0 <= t < j ==> b@[t] == order@[t]);
        } else {
            assert forall|k: int| 0 <= k < b@.len() && b@[k] < order@[k]
                implies !(forall|t: int| 0 <= t < k ==> b@[t] == order@[t]) by {
                if k < j {
                } else if k > j {
                    assert(!(b@[j as int] == order@[j as int]));
                } else {
                }
            }
        }
    }
    nonzero && less
}

/// Whether the secret URI's phrase is a raw seed that is no secp256k1 secret key.
pub fn ecdsa_seed_check(uri: &str) -> (r: bool)
    ensures
        r == ecdsa_seed_unusable(uri@),
{
    let n = uri.unicode_len();
    let mut k: usize = 0;
    let mut at_end = false;
    while k < n && !at_end
        invariant
            k <= n,
            n == uri@.len(),
            forall|i: int| 0 <= i < k ==> #[trigger] is_phrase_char(uri@[i]),
            at_end ==> k < n && !is_phrase_char(uri@[k as int]),
        decreases n - k + (if at_end { 0int } else { 1int }),
    {
        let c = uri.get_char(k);
        if ('0' <= c && c <= '9') || ('a' <= c && c <= 'z') || ('A' <= c && c <= 'Z') || c == ' ' {
            k = k + 1;
        } else {
            at_end = true;
        }
    }
    assert(phrase_ends_at(uri@, k as int));
    proof {
        assert forall|k2: int| #[trigger] phrase_ends_at(uri@, k2) implies k2 == k by {
            if k2 < k {
                assert(is_phrase_char(uri@[k2]));
            } else if k2 > k {
                assert(is_phrase_char(uri@[k as int]));
            }
        }
    }
    if k < 2 || uri.get_char(0) != '0' || uri.get_char(1) != 'x' {
        return false;
    }
    let rest = uri.substring_char(2, k);
    assert(rest@ =~= uri@.subrange(0, k as int).subrange(2, k as int));
    match decode_hex(rest) {
        Ok(b) => {
            if b.len() == 32 {
                !secp256k1_secret_check(&b)
            } else {
                false
            }
        },
        Err(_) => false,
    }
}

/// Derives the public key of the chosen scheme from a secret URI and optional password.
pub fn derive_public(scheme: CryptoScheme, uri: &str, password: Option<&str>) -> (r: Result<Vec<u8>, SignError>)
    ensures
        r.is_ok() == suri_accepted(scheme, uri@, password_text(password)),
        r.is_ok() ==> r.unwrap()@ == public_of(scheme, uri@, password_text(password)),
        r.is_ok() ==> r.unwrap()@.len() == public_len(scheme),
        r.is_err() ==> r == Err::<Vec<u8>, SignError>(SignError::KeyDerivationError),
{
    let p = match scheme {
        CryptoScheme::Ed25519 => ed25519_public(uri, password),
        CryptoScheme::Sr25519 => sr25519_public(uri, password),
        CryptoScheme::Ecdsa => {
            if ecdsa_seed_check(uri) {
                None
            } else {
                ecdsa_public(uri, password)
            }
        },
    };
    match p {
        Some(k) => Ok(k),
        None => Err(SignError::KeyDerivationError),
    }
}

/// Signs a message with the key pair of the chosen scheme derived from a
/// secret URI and optional password.
pub fn sign_message(scheme: CryptoScheme, uri: &str, password: Option<&str>, msg: &[u8]) -> (r: Result<Vec<u8>, SignError>)
    ensures
        r.is_ok() == suri_accepted(scheme, uri@, password_text(password)),
        r.is_ok() ==> r.unwrap()@.len() == signature_len(scheme),
        r.is_ok() ==> signs(scheme, uri@, password_text(password), msg@, r.unwrap()@),
        r.is_err() ==> r == Err::<Vec<u8>, SignError>(SignError::KeyDerivationError),
{
    let s = match scheme {
        CryptoScheme::Ed25519 => ed25519_sign(uri, password, msg),
        CryptoScheme::Sr25519 => sr25519_sign(uri, password, msg),
        CryptoScheme::Ecdsa => {
            if ecdsa_seed_check(uri) {
                None
            } else {
                ecdsa_sign(uri, password, msg)
            }
        },
    };
    match s {
        Some(sig) => Ok(sig),
        None => Err(SignError::KeyDerivationError),
    }
}

/// The account identifier of a public key of the scheme.
pub fn account_id(scheme: CryptoScheme, public: &Vec<u8>) -> (r: Vec<u8>)
    ensures
        r@ == account_id_of(scheme, public@),
        public@.len() == public_len(scheme) ==> r@.len() == 32,
{
    match scheme {
        CryptoScheme::Ecdsa => blake2_256(public.as_slice()),
        _ => public.clone(),
    }
}

} // verus!
