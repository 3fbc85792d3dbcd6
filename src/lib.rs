//! Offline construction and signing of a single transaction: input decoding,
//! key-pair dispatch by scheme, signed-payload assembly and wire encoding.

pub mod error;
pub mod hex_text;
pub mod nonce;
pub mod scale;
pub mod crypto;
pub mod extrinsic;
pub mod command;
