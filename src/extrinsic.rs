use vstd::prelude::*;
use crate::crypto::{
    account_id, account_id_of, blake2_256, blake2_256_of, derive_public, password_text, public_of,
    sign_message, signature_len, signs, suri_accepted, CryptoScheme,
};
use crate::error::SignError;
use crate::scale::{compact_decode, compact_encode, compact_u32, lemma_compact_prefix_free, starts_with};

verus! {

/// The version byte of a signed extrinsic: format version 4 with the signed bit set.
pub const SIGNED_EXTRINSIC_V4: u8 = 0x84;

/// Payloads longer than this are signed through their BLAKE2b-256 digest.
pub const MAX_PLAIN_PAYLOAD: usize = 256;

/// The largest body that the length prefix of an extrinsic can describe.
pub const MAX_BODY_LEN: usize = 0xffff_ffff;

/// How a chain writes the address of an account.
#[derive(Clone, Copy, Debug, PartialEq, Eq, Structural)]
pub enum AddressFormat {
    /// The bare 32-byte account identifier.
    AccountId,
    /// The account variant of an indices lookup: a `0xff` byte, then the identifier.
    IndicesId,
    /// The account variant of a multi-address: a `0x00` byte, then the identifier.
    MultiAddressId,
}

/// The encoded address of an account identifier.
pub open spec fn address_of(format: AddressFormat, account: Seq<u8>) -> Seq<u8> {
    match format {
        AddressFormat::AccountId => account,
        AddressFormat::IndicesId => seq![0xffu8] + account,
        AddressFormat::MultiAddressId => seq![0x00u8] + account,
    }
}

/// The index of the scheme among the variants of a multi-signature.
pub open spec fn signature_tag(scheme: CryptoScheme) -> u8 {
    match scheme {
        CryptoScheme::Ed25519 => 0,
        CryptoScheme::Sr25519 => 1,
        CryptoScheme::Ecdsa => 2,
    }
}

/// The scheme whose multi-signature variant has this index.
pub open spec fn scheme_of_tag(tag: u8) -> Option<CryptoScheme> {
    if tag == 0 {
        Some(CryptoScheme::Ed25519)
    } else if tag == 1 {
        Some(CryptoScheme::Sr25519)
    } else if tag == 2 {
        Some(CryptoScheme::Ecdsa)
    } else {
        None
    }
}

/// The data that signed extensions add to a transaction: `extra` travels in
/// the extrinsic, `additional` is only signed.
pub struct SignedExtensions {
    pub extra: Vec<u8>,
    pub additional: Vec<u8>,
}

/// A signed extrinsic, each part held in its encoded form.
pub struct SignedExtrinsic {
    pub address: Vec<u8>,
    pub scheme: CryptoScheme,
    pub signature: Vec<u8>,
    pub extra: Vec<u8>,
    pub call: Vec<u8>,
}

/// The bytes that a signature covers before any hashing: call, extra, additional.
pub open spec fn payload_of(call: Seq<u8>, extra: Seq<u8>, additional: Seq<u8>) -> Seq<u8> {
    call + extra + additional
}

/// The message handed to the signer: the payload, or its digest when it is long.
pub open spec fn message_of(call: Seq<u8>, extra: Seq<u8>, additional: Seq<u8>) -> Seq<u8> {
    let p = payload_of(call, extra, additional);
    if p.len() > MAX_PLAIN_PAYLOAD {
        blake2_256_of(p)
    } else {
        p
    }
}

/// The body of a signed extrinsic: version, address, signature, extra, call.
pub open spec fn extrinsic_body(
    address: Seq<u8>,
    scheme: CryptoScheme,
    signature: Seq<u8>,
    extra: Seq<u8>,
    call: Seq<u8>,
) -> Seq<u8> {
    seq![SIGNED_EXTRINSIC_V4] + address + seq![signature_tag(scheme)] + signature + extra + call
}

/// The wire form of a signed extrinsic: its body, prefixed by the body's length.
pub open spec fn extrinsic_bytes(
    address: Seq<u8>,
    scheme: CryptoScheme,
    signature: Seq<u8>,
    extra: Seq<u8>,
    call: Seq<u8>,
) -> Seq<u8> {
    let body = extrinsic_body(address, scheme, signature, extra, call);
    compact_u32(body.len() as u32) + body
}

impl SignedExtrinsic {
    /// The body of this extrinsic.
    pub open spec fn body(&self) -> Seq<u8> {
        extrinsic_body(self.address@, self.scheme, self.signature@, self.extra@, self.call@)
    }

    /// The wire form of this extrinsic.
    pub open spec fn wire(&self) -> Seq<u8> {
        extrinsic_bytes(self.address@, self.scheme, self.signature@, self.extra@, self.call@)
    }

    /// Whether the body is short enough for the length prefix.
    pub fn fits_length_prefix(&self) -> (r: bool)
        ensures
            r == (self.body().len() <= MAX_BODY_LEN),
    {
        let mut total: usize = 2;
        if self.address.len() > MAX_BODY_LEN - total {
            return false;
        }
        total = total + self.address.len();
        if self.signature.len() > MAX_BODY_LEN - total {
            return false;
        }
        total = total + self.signature.len();
        if self.extra.len() > MAX_BODY_LEN - total {
            return false;
        }
        total = total + self.extra.len();
        self.call.len() <= MAX_BODY_LEN - total
    }

    /// Encodes the extrinsic in its wire form.
    pub fn encode(&self) -> (r: Vec<u8>)
        requires
            self.body().len() <= MAX_BODY_LEN,
        ensures
            r@ == self.wire(),
    {
        let len = 2 + self.address.len() + self.signature.len() + self.extra.len() + self.call.len();
        let mut out = compact_encode(len as u32);
        out.push(SIGNED_EXTRINSIC_V4);
        append_bytes(&mut out, &self.address);
        out.push(tag_of(self.scheme));
        append_bytes(&mut out, &self.signature);
        append_bytes(&mut out, &self.extra);
        append_bytes(&mut out, &self.call);
        assert(out@ =~= self.wire());
        out
    }
}

fn tag_of(scheme: CryptoScheme) -> (r: u8)
    ensures
        r == signature_tag(scheme),
        scheme_of_tag(r) == Some(scheme),
{
    match scheme {
        CryptoScheme::Ed25519 => 0,
        CryptoScheme::Sr25519 => 1,
        CryptoScheme::Ecdsa => 2,
    }
}

/// Appends the bytes of `b` to `out`.
fn append_bytes(out: &mut Vec<u8>, b: &Vec<u8>)
    ensures
        final(out)@ == old(out)@ + b@,
{
    let ghost start = out@;
    let mut i: usize = 0;
    while i < b.len()
        invariant
            i <= b@.len(),
            out@ == start + b@.subrange(0, i as int),
        decreases b@.len() - i,
    {
        out.push(b[i]);
        assert(b@.subrange(0, i + 1) =~= b@.subrange(0, i as int).push(b@[i as int]));
        i = i + 1;
    }
    assert(b@.subrange(0, i as int) =~= b@);
}

/// A copy of `b[from..to]`.
fn copy_range(b: &Vec<u8>, from: usize, to: usize) -> (r: Vec<u8>)
    requires
        from <= to <= b@.len(),
    ensures
        r@ == b@.subrange(from as int, to as int),
{
    let mut out: Vec<u8> = Vec::new();
    let mut i: usize = from;
    while i < to
        invariant
            from <= i <= to <= b@.len(),
            out@ == b@.subrange(from as int, i as int),
        decreases to - i,
    {
        out.push(b[i]);
        assert(b@.subrange(from as int, i + 1) =~= b@.subrange(from as int, i as int).push(b@[i as int]));
        i = i + 1;
    }
    out
}

/// The message to sign for a call under the given signed extensions.
pub fn signing_payload(call: &Vec<u8>, ext: &SignedExtensions) -> (r: Vec<u8>)
    ensures
        r@ == message_of(call@, ext.extra@, ext.additional@),
{
    let mut p: Vec<u8> = Vec::new();
    append_bytes(&mut p, call);
    append_bytes(&mut p, &ext.extra);
    append_bytes(&mut p, &ext.additional);
    assert(p@ =~= payload_of(call@, ext.extra@, ext.additional@));
    if p.len() > MAX_PLAIN_PAYLOAD {
        blake2_256(p.as_slice())
    } else {
        p
    }
}

/// The encoded address of an account identifier.
pub fn encode_address(format: AddressFormat, account: &Vec<u8>) -> (r: Vec<u8>)
    ensures
        r@ == address_of(format, account@),
{
    let mut out: Vec<u8> = Vec::new();
    match format {
        AddressFormat::AccountId => {},
        AddressFormat::IndicesId => out.push(0xff),
        AddressFormat::MultiAddressId => out.push(0x00),
    }
    append_bytes(&mut out, account);
    assert(out@ =~= address_of(format, account@));
    out
}

/// Whether `bytes` is the wire form of the given parts, with an address of
/// `address_len` bytes, extra of `extra_len` bytes, and a signature of the
/// scheme's length.
pub open spec fn is_wire_of(
    bytes: Seq<u8>,
    address_len: nat,
    extra_len: nat,
    address: Seq<u8>,
    scheme: CryptoScheme,
    signature: Seq<u8>,
    extra: Seq<u8>,
    call: Seq<u8>,
) -> bool {
    &&& bytes == extrinsic_bytes(address, scheme, signature, extra, call)
    &&& address.len() == address_len
    &&& extra.len() == extra_len
    &&& signature.len() == signature_len(scheme)
    &&& extrinsic_body(address, scheme, signature, extra, call).len() <= MAX_BODY_LEN
}

proof fn lemma_body_layout(
    address: Seq<u8>,
    scheme: CryptoScheme,
    signature: Seq<u8>,
    extra: Seq<u8>,
    call: Seq<u8>,
)
    ensures
        ({
            let b = extrinsic_body(address, scheme, signature, extra, call);
            let t: int = 1 + address.len() as int;
            let g: int = t + 1;
            let x: int = g + signature.len();
            let c: int = x + extra.len();
            &&& b.len() == c + call.len()
            &&& b[0] == SIGNED_EXTRINSIC_V4
            &&& b.subrange(1, t) == address
            &&& b[t] == signature_tag(scheme)
            &&& b.subrange(g, x) == signature
            &&& b.subrange(x, c) == extra
            &&& b.subrange(c, b.len() as int) == call
        }),
{
    let b = extrinsic_body(address, scheme, signature, extra, call);
    let t: int = 1 + address.len() as int;
    let g: int = t + 1;
    let x: int = g + signature.len();
    let c: int = x + extra.len();
    assert(b.subrange(1, t) =~= address);
    assert(b.subrange(g, x) =~= signature);
    assert(b.subrange(x, c) =~= extra);
    assert(b.subrange(c, b.len() as int) =~= call);
}

/// The wire form of a signed extrinsic determines its parts, once the
/// lengths of address and extra are known: whatever decodes it finds the
/// address, scheme, signature, extra and call that it was built from.
pub proof fn lemma_wire_determines_parts(
    bytes: Seq<u8>,
    address_len: nat,
    extra_len: nat,
    a1: Seq<u8>,
    s1: CryptoScheme,
    sig1: Seq<u8>,
    e1: Seq<u8>,
    c1: Seq<u8>,
    a2: Seq<u8>,
    s2: CryptoScheme,
    sig2: Seq<u8>,
    e2: Seq<u8>,
    c2: Seq<u8>,
)
    requires
        is_wire_of(bytes, address_len, extra_len, a1, s1, sig1, e1, c1),
        is_wire_of(bytes, address_len, extra_len, a2, s2, sig2, e2, c2),
    ensures
        a1 == a2,
        s1 == s2,
        sig1 == sig2,
        e1 == e2,
        c1 == c2,
{
    let b1 = extrinsic_body(a1, s1, sig1, e1, c1);
    let b2 = extrinsic_body(a2, s2, sig2, e2, c2);
    lemma_compact_prefix_free(b1.len() as u32, b2.len() as u32, b1, b2);
    lemma_body_layout(a1, s1, sig1, e1, c1);
    lemma_body_layout(a2, s2, sig2, e2, c2);
    assert(s1 == s2);
}

/// Decoding the wire form of a signed extrinsic gives back what it was built
/// from: the bytes are a wire form of its address, scheme, signature, extra
/// and call, and of no other parts with address and extra of those lengths.
pub proof fn lemma_round_trip(
    address: Seq<u8>,
    scheme: CryptoScheme,
    signature: Seq<u8>,
    extra: Seq<u8>,
    call: Seq<u8>,
)
    requires
        signature.len() == signature_len(scheme),
        extrinsic_body(address, scheme, signature, extra, call).len() <= MAX_BODY_LEN,
    ensures
        ({
            let bytes = extrinsic_bytes(address, scheme, signature, extra, call);
            &&& is_wire_of(bytes, address.len(), extra.len(), address, scheme, signature, extra, call)
            &&& forall|a: Seq<u8>, s: CryptoScheme, sig: Seq<u8>, e: Seq<u8>, c: Seq<u8>|
                #[trigger] is_wire_of(bytes, address.len(), extra.len(), a, s, sig, e, c)
                    ==> a == address && s == scheme && sig == signature && e == extra && c == call
        }),
{
    let bytes = extrinsic_bytes(address, scheme, signature, extra, call);
    assert forall|a: Seq<u8>, s: CryptoScheme, sig: Seq<u8>, e: Seq<u8>, c: Seq<u8>|
        #[trigger] is_wire_of(bytes, address.len(), extra.len(), a, s, sig, e, c)
        implies a == address && s == scheme && sig == signature && e == extra && c == call by {
        lemma_wire_determines_parts(
            bytes, address.len(), extra.len(), address, scheme, signature, extra, call, a, s, sig, e, c,
        );
    }
}

/// Decodes the wire form of a signed extrinsic whose address and extra have
/// the given lengths.
#[verifier::rlimit(60)]
pub fn decode_extrinsic(bytes: &Vec<u8>, address_len: usize, extra_len: usize) -> (r: Option<SignedExtrinsic>)
    ensures
        r is Some ==> {
            let x = r.unwrap();
            is_wire_of(bytes@, address_len as nat, extra_len as nat, x.address@, x.scheme, x.signature@, x.extra@, x.call@)
        },
        forall|a: Seq<u8>, s: CryptoScheme, sig: Seq<u8>, e: Seq<u8>, c: Seq<u8>|
            #[trigger] is_wire_of(bytes@, address_len as nat, extra_len as nat, a, s, sig, e, c) ==> r is Some,
{
    let ghost al = address_len as nat;
    let ghost el = extra_len as nat;
    let ghost wf = exists|a: Seq<u8>, s: CryptoScheme, sig: Seq<u8>, e: Seq<u8>, c: Seq<u8>|
        is_wire_of(bytes@, al, el, a, s, sig, e, c);
    let ghost parts = choose|a: Seq<u8>, s: CryptoScheme, sig: Seq<u8>, e: Seq<u8>, c: Seq<u8>|
        is_wire_of(bytes@, al, el, a, s, sig, e, c);
    let ghost body_spec = extrinsic_body(parts.0, parts.1, parts.2, parts.3, parts.4);
    proof {
        if wf {
            lemma_body_layout(parts.0, parts.1, parts.2, parts.3, parts.4);
            let k = compact_u32(body_spec.len() as u32);
            assert(bytes@.subrange(0, k.len() as int) =~= k);
            assert(starts_with(bytes@, k));
        }
    }
    let (len, body) = match compact_decode(bytes.as_slice()) {
        Some(p) => p,
        None => return None,
    };
    proof {
        if wf {
            lemma_compact_prefix_free(len, body_spec.len() as u32, body@, body_spec);
        }
    }
    let n = body.len();
    if n as u64 != len as u64 || n < 1 || body[0] != SIGNED_EXTRINSIC_V4 || address_len > n - 1 {
        return None;
    }
    let tag_at = 1 + address_len;
    if tag_at >= n {
        return None;
    }
    let scheme = match body[tag_at] {
        0 => CryptoScheme::Ed25519,
        1 => CryptoScheme::Sr25519,
        2 => CryptoScheme::Ecdsa,
        _ => return None,
    };
    assert(signature_tag(scheme) == body@[tag_at as int]);
    proof {
        if wf {
            assert(signature_tag(parts.1) == body@[tag_at as int]);
            assert(scheme == parts.1);
        }
    }
    let sig_len: usize = match scheme {
        CryptoScheme::Ecdsa => 65,
        _ => 64,
    };
    let sig_at = tag_at + 1;
    if sig_len > n - sig_at {
        return None;
    }
    let extra_at = sig_at + sig_len;
    if extra_len > n - extra_at {
        return None;
    }
    let call_at = extra_at + extra_len;
    let address = copy_range(&body, 1, tag_at);
    let signature = copy_range(&body, sig_at, extra_at);
    let extra = copy_range(&body, extra_at, call_at);
    let call = copy_range(&body, call_at, n);
    let x = SignedExtrinsic { address, scheme, signature, extra, call };
    assert(x.body() =~= body@);
    Some(x)
}

/// Derives the key pair of the scheme from the secret URI and password, and
/// builds the extrinsic for the call, signed over the call and the signed extensions.
pub fn build_and_sign(
    scheme: CryptoScheme,
    uri: &str,
    password: Option<&str>,
    format: AddressFormat,
    call: &Vec<u8>,
    ext: &SignedExtensions,
) -> (r: Result<SignedExtrinsic, SignError>)
    ensures
        r.is_ok() == suri_accepted(scheme, uri@, password_text(password)),
        r.is_err() ==> r == Err::<SignedExtrinsic, SignError>(SignError::KeyDerivationError),
        r.is_ok() ==> {
            let x = r.unwrap();
            &&& x.address@ == address_of(
                format,
                account_id_of(scheme, public_of(scheme, uri@, password_text(password))),
            )
            &&& x.address@.len() <= 33
            &&& x.scheme == scheme
            &&& x.signature@.len() == signature_len(scheme)
            &&& signs(scheme, uri@, password_text(password), message_of(call@, ext.extra@, ext.additional@), x.signature@)
            &&& x.extra@ == ext.extra@
            &&& x.call@ == call@
        },
{
    let public = derive_public(scheme, uri, password)?;
    let account = account_id(scheme, &public);
    let address = encode_address(format, &account);
    let msg = signing_payload(call, ext);
    let signature = sign_message(scheme, uri, password, msg.as_slice())?;
    let extra = copy_range(&ext.extra, 0, ext.extra.len());
    let call_copy = copy_range(call, 0, call.len());
    assert(ext.extra@.subrange(0, ext.extra@.len() as int) =~= ext.extra@);
    assert(call@.subrange(0, call@.len() as int) =~= call@);
    Ok(SignedExtrinsic { address, scheme, signature, extra, call: call_copy })
}

} // verus!
