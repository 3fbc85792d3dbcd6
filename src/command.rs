use vstd::prelude::*;
use crate::crypto::{
    account_id_of, derive_public, password_text, public_of, signature_len, signs, suri_accepted, CryptoScheme,
};
use crate::error::SignError;
use crate::extrinsic::{
    address_of, build_and_sign, extrinsic_bytes, message_of, AddressFormat, SignedExtensions, MAX_BODY_LEN,
};
use crate::hex_text::{decode_hex, encode_hex, hex_text_bytes, is_hex_text, lower_hex_of};
use crate::nonce::{decimal_value, is_nonce_text, parse_nonce};
use crate::scale::decode_array32;

verus! {

/// What a chain supplies for signing: the signed extensions of a transaction.
pub trait SignedExtensionProvider {
    /// The signed extensions for a transaction with this nonce, made against
    /// the block whose 32-byte hash is given.
    /// Fails where the provider cannot resolve them.
    fn signed_extensions(&self, nonce: u32, prior_block_hash: &Vec<u8>) -> Result<SignedExtensions, SignError>;
}

/// The inputs of a signing request after decoding.
pub struct DecodedInputs {
    pub nonce: u32,
    pub prior_block_hash: Vec<u8>,
    pub call: Vec<u8>,
}

/// Whether `s` is hex text for exactly 32 bytes, the length of a block hash.
pub open spec fn is_hash_text(s: Seq<char>) -> bool {
    is_hex_text(s) && hex_text_bytes(s).len() == 32
}

/// Whether all three text inputs decode.
pub open spec fn inputs_decode(nonce: Seq<char>, hash: Seq<char>, call: Seq<char>) -> bool {
    is_nonce_text(nonce) && is_hash_text(hash) && is_hex_text(call)
}

/// The request to sign one transaction, as text from the user.
pub struct SignTransactionCmd {
    /// The secret key URI.
    pub suri: String,
    /// The nonce, in decimal.
    pub nonce: String,
    /// The hash of the block that the transaction is made against, hex-encoded.
    pub prior_block_hash: String,
    /// The call, hex-encoded.
    pub call: String,
    /// The signature scheme of the key.
    pub scheme: CryptoScheme,
    /// How the chain writes addresses.
    pub address_format: AddressFormat,
}

impl SignTransactionCmd {
    /// Decodes nonce, block hash and call, in that order; no key is touched.
    pub fn decode_inputs(&self) -> (r: Result<DecodedInputs, SignError>)
        ensures
            r.is_ok() == inputs_decode(self.nonce@, self.prior_block_hash@, self.call@),
            !is_nonce_text(self.nonce@) ==> r == Err::<DecodedInputs, SignError>(SignError::ParseError),
            is_nonce_text(self.nonce@) && !inputs_decode(self.nonce@, self.prior_block_hash@, self.call@)
                ==> r == Err::<DecodedInputs, SignError>(SignError::DecodeError),
            r.is_ok() ==> {
                let d = r.unwrap();
                &&& d.nonce as nat == decimal_value(self.nonce@)
                &&& d.prior_block_hash@ == hex_text_bytes(self.prior_block_hash@)
                &&& d.call@ == hex_text_bytes(self.call@)
            },
    {
        let nonce = parse_nonce(self.nonce.as_str())?;
        let hash_bytes = decode_hex(self.prior_block_hash.as_str())?;
        if hash_bytes.len() != 32 {
            return Err(SignError::DecodeError);
        }
        let prior_block_hash = match decode_array32(hash_bytes.as_slice()) {
            Some(h) => h,
            None => return Err(SignError::DecodeError),
        };
        let call = decode_hex(self.call.as_str())?;
        Ok(DecodedInputs { nonce, prior_block_hash, call })
    }

    /// Decodes the inputs, derives the key, asks the provider for the signed
    /// extensions, signs, and renders the extrinsic as `0x` and lowercase hex.
    pub fn run<P: SignedExtensionProvider>(&self, provider: &P, password: Option<&str>) -> (r: Result<String, SignError>)
        ensures
            (r == Err::<String, SignError>(SignError::ParseError)) <==> !is_nonce_text(self.nonce@),
            (r == Err::<String, SignError>(SignError::DecodeError)) <==> (is_nonce_text(self.nonce@)
                && !inputs_decode(self.nonce@, self.prior_block_hash@, self.call@)),
            (r == Err::<String, SignError>(SignError::KeyDerivationError)) <==> (inputs_decode(
                self.nonce@,
                self.prior_block_hash@,
                self.call@,
            ) && !suri_accepted(self.scheme, self.suri@, password_text(password))),
            inputs_decode(self.nonce@, self.prior_block_hash@, self.call@) && suri_accepted(
                self.scheme,
                self.suri@,
                password_text(password),
            ) ==> r is Ok || r == Err::<String, SignError>(SignError::ProviderError) || r == Err::<
                String,
                SignError,
            >(SignError::EncodeError),
            r is Ok ==> exists|extra: Seq<u8>, additional: Seq<u8>, signature: Seq<u8>|
                {
                    &&& signature.len() == signature_len(self.scheme)
                    &&& #[trigger] signs(
                        self.scheme,
                        self.suri@,
                        password_text(password),
                        message_of(hex_text_bytes(self.call@), extra, additional),
                        signature,
                    )
                    &&& r.unwrap()@ == seq!['0', 'x'] + lower_hex_of(
                        extrinsic_bytes(
                            address_of(
                                self.address_format,
                                account_id_of(
                                    self.scheme,
                                    public_of(self.scheme, self.suri@, password_text(password)),
                                ),
                            ),
                            self.scheme,
                            signature,
                            extra,
                            hex_text_bytes(self.call@),
                        ),
                    )
                },
    {
        let inputs = self.decode_inputs()?;
        let _public = derive_public(self.scheme, self.suri.as_str(), password)?;
        let ext = match provider.signed_extensions(inputs.nonce, &inputs.prior_block_hash) {
            Ok(e) => e,
            Err(_) => return Err(SignError::ProviderError),
        };
        let x = build_and_sign(
            self.scheme,
            self.suri.as_str(),
            password,
            self.address_format,
            &inputs.call,
            &ext,
        )?;
        if !x.fits_length_prefix() {
            return Err(SignError::EncodeError);
        }
        assert(x.body().len() <= MAX_BODY_LEN);
        let bytes = x.encode();
        let out = encode_hex(bytes.as_slice());
        assert(signs(
            x.scheme,
            self.suri@,
            password_text(password),
            message_of(hex_text_bytes(self.call@), ext.extra@, ext.additional@),
            x.signature@,
        ));
        Ok(out)
    }
}

} // verus!
