use vstd::prelude::*;

verus! {

/// The ways in which signing a transaction can fail.
#[derive(Clone, Copy, Debug, PartialEq, Eq, Structural)]
pub enum SignError {
    /// A numeric input (the nonce) is malformed or out of range.
    ParseError,
    /// Hex text or a binary value could not be decoded.
    DecodeError,
    /// The secret URI (or its password) was rejected by key derivation.
    KeyDerivationError,
    /// The keystore password could not be read.
    KeystoreError,
    /// The chain provider could not supply what was asked of it.
    ProviderError,
    /// The extrinsic is too large for its length prefix.
    EncodeError,
}

} // verus!
