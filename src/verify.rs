//! Loading the trusted key and verifying an envelope against it.
use vstd::prelude::*;
use vstd::utf8::encode_utf8;

use crate::bytes::{same_bytes, to_array};
use crate::ed25519::{is_valid_key, key_accepted, signature_accepted, signature_verifies};
use crate::encoding::{base64_decoded, decode_base64, trim_white_space, trimmed};
use crate::error::VerifyError;

verus! {

/// A signed message as delivered: the payload, its base64 signature and,
/// optionally, the base64 public key that the signer claims.
pub struct Envelope {
    pub message: String,
    pub signature: String,
    pub public_key: Option<String>,
}

/// What an envelope holds, as text.
pub ghost struct EnvelopeView {
    pub message: Seq<char>,
    pub signature: Seq<char>,
    pub public_key: Option<Seq<char>>,
}

impl View for Envelope {
    type V = EnvelopeView;

    open spec fn view(&self) -> EnvelopeView {
        EnvelopeView {
            message: self.message@,
            signature: self.signature@,
            public_key: match self.public_key {
                Some(k) => Some(k@),
                None => None,
            },
        }
    }
}

/// The outcome of loading a trusted key from the text of its source: the
/// trimmed text must be base64 of 32 bytes that form a valid key.
pub open spec fn key_load_outcome(text: Seq<char>) -> Result<Seq<u8>, VerifyError> {
    match base64_decoded(trimmed(text)) {
        None => Err(VerifyError::EncodingError),
        Some(key) => if key.len() != 32 {
            Err(VerifyError::InvalidKeyLength)
        } else if !key_accepted(key) {
            Err(VerifyError::InvalidKeyMaterial)
        } else {
            Ok(key)
        },
    }
}

/// The outcome of comparing an envelope's optional public key with the
/// trusted key: an absent key passes, a present one must decode to the
/// trusted bytes exactly.
pub open spec fn key_check_outcome(public_key: Option<Seq<char>>, trusted: Seq<u8>) -> Result<
    (),
    VerifyError,
> {
    match public_key {
        None => Ok(()),
        Some(text) => match base64_decoded(text) {
            None => Err(VerifyError::EncodingError),
            Some(key) => if key == trusted {
                Ok(())
            } else {
                Err(VerifyError::KeyMismatch)
            },
        },
    }
}

/// The outcome of checking a base64 signature over the UTF-8 bytes of a
/// message under the trusted key.
pub open spec fn signature_outcome(message: Seq<char>, signature: Seq<char>, trusted: Seq<u8>) -> Result<
    (),
    VerifyError,
> {
    match base64_decoded(signature) {
        None => Err(VerifyError::EncodingError),
        Some(sig) => if sig.len() != 64 {
            Err(VerifyError::InvalidSignatureLength)
        } else if !key_accepted(trusted) {
            Err(VerifyError::InvalidKeyMaterial)
        } else if !signature_accepted(trusted, encode_utf8(message), sig) {
            Err(VerifyError::SignatureInvalid)
        } else {
            Ok(())
        },
    }
}

/// The outcome of verifying an envelope under a trusted key: the key check
/// first, then the signature check, the first failure deciding.
pub open spec fn verification_outcome(env: EnvelopeView, trusted: Seq<u8>) -> Result<
    (),
    VerifyError,
> {
    match key_check_outcome(env.public_key, trusted) {
        Err(e) => Err(e),
        Ok(_) => signature_outcome(env.message, env.signature, trusted),
    }
}

/// The outcome of the whole check on the text of the trusted key source and
/// on the envelope, `None` where the envelope could not be decoded. The key is
/// loaded first, so its failures come before anything about the envelope.
pub open spec fn contents_outcome(key_text: Seq<char>, env: Option<EnvelopeView>) -> Result<
    (),
    VerifyError,
> {
    match key_load_outcome(key_text) {
        Err(e) => Err(e),
        Ok(trusted) => match env {
            None => Err(VerifyError::MalformedInput),
            Some(env) => verification_outcome(env, trusted),
        },
    }
}

/// Decodes the trusted public key from the text of its source.
pub fn load_trusted_key(text: &str) -> (r: Result<[u8; 32], VerifyError>)
    ensures
        match r {
            Ok(key) => key_load_outcome(text@) == Ok::<Seq<u8>, VerifyError>(key@),
            Err(e) => key_load_outcome(text@) == Err::<Seq<u8>, VerifyError>(e),
        },
{
    let token = trim_white_space(text);
    let decoded = match decode_base64(token) {
        Some(decoded) => decoded,
        None => return Err(VerifyError::EncodingError),
    };
    let key: [u8; 32] = match to_array(&decoded) {
        Some(key) => key,
        None => return Err(VerifyError::InvalidKeyLength),
    };
    if !is_valid_key(&key) {
        return Err(VerifyError::InvalidKeyMaterial);
    }
    Ok(key)
}

/// Verifies an envelope under the trusted key.
pub fn verify_envelope(env: &Envelope, trusted: &[u8; 32]) -> (r: Result<(), VerifyError>)
    ensures
        r == verification_outcome(env@, trusted@),
{
    if let Some(public_key) = &env.public_key {
        let claimed = match decode_base64(public_key.as_str()) {
            Some(claimed) => claimed,
            None => return Err(VerifyError::EncodingError),
        };
        if !same_bytes(claimed.as_slice(), trusted.as_slice()) {
            return Err(VerifyError::KeyMismatch);
        }
    }
    let decoded = match decode_base64(env.signature.as_str()) {
        Some(decoded) => decoded,
        None => return Err(VerifyError::EncodingError),
    };
    let signature: [u8; 64] = match to_array(&decoded) {
        Some(signature) => signature,
        None => return Err(VerifyError::InvalidSignatureLength),
    };
    if !is_valid_key(trusted) {
        return Err(VerifyError::InvalidKeyMaterial);
    }
    if !signature_verifies(trusted, env.message.as_str().as_bytes(), &signature) {
        return Err(VerifyError::SignatureInvalid);
    }
    Ok(())
}

/// Verifies an envelope under the key whose source text is `key_text`. The
/// envelope is `None` where it could not be decoded.
pub fn verify_contents(key_text: &str, env: Option<&Envelope>) -> (r: Result<(), VerifyError>)
    ensures
        r == contents_outcome(key_text@, match env {
            Some(e) => Some(e@),
            None => None,
        }),
{
    let trusted = match load_trusted_key(key_text) {
        Ok(trusted) => trusted,
        Err(e) => return Err(e),
    };
    match env {
        Some(env) => verify_envelope(env, &trusted),
        None => Err(VerifyError::MalformedInput),
    }
}

} // verus!
