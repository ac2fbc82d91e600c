//! The Ed25519 operations that verification needs.
use ed25519_dalek::{Signature, Verifier, VerifyingKey};
use vstd::prelude::*;

verus! {

/// Whether 32 bytes are the compressed form of a point of the curve, that is a
/// structurally valid Ed25519 public key.
pub uninterp spec fn key_accepted(key: Seq<u8>) -> bool;

/// Whether `signature` is a valid Ed25519 signature of `message` under the
/// public key `key`.
pub uninterp spec fn signature_accepted(key: Seq<u8>, message: Seq<u8>, signature: Seq<u8>) -> bool;

/// Relies on `ed25519_dalek::VerifyingKey::from_bytes`: it succeeds exactly
/// when the bytes decompress to a curve point, which depends on the bytes alone.
#[verifier::external_body]
pub(crate) fn is_valid_key(key: &[u8; 32]) -> (r: bool)
    ensures
        r == key_accepted(key@),
{
    VerifyingKey::from_bytes(key).is_ok()
}

/// Relies on `ed25519_dalek`'s `Verifier::verify` for `VerifyingKey`: whether
/// the signature holds over the message, a function of the key bytes, the
/// message and the signature bytes. The key reaches it through
/// `VerifyingKey::from_bytes`, which succeeds on accepted keys, and the
/// signature through `Signature::from_bytes`, which only splits the bytes.
#[verifier::external_body]
pub(crate) fn signature_verifies(key: &[u8; 32], message: &[u8], signature: &[u8; 64]) -> (r:
    bool)
    requires
        key_accepted(key@),
    ensures
        r == signature_accepted(key@, message@, signature@),
{
    match VerifyingKey::from_bytes(key) {
        Ok(vk) => vk.verify(message, &Signature::from_bytes(signature)).is_ok(),
        Err(_) => false,
    }
}

} // verus!
