//! Laws of verification, stated over the outcome functions that the
//! executable functions are proved to compute.
use vstd::prelude::*;
use vstd::utf8::encode_utf8;

use crate::ed25519::{key_accepted, signature_accepted};
use crate::encoding::base64_decoded;
use crate::error::VerifyError;
use crate::verify::{
    contents_outcome, key_load_outcome, signature_outcome, verification_outcome, EnvelopeView,
};

verus! {

/// An envelope whose signature field is base64 of a 64-byte signature that
/// holds over the message's UTF-8 bytes under a valid trusted key, and which
/// claims no key or claims the trusted key, verifies.
pub proof fn lemma_signed_envelope_verifies(env: EnvelopeView, trusted: Seq<u8>, sig: Seq<u8>)
    requires
        key_accepted(trusted),
        base64_decoded(env.signature) == Some(sig),
        sig.len() == 64,
        signature_accepted(trusted, encode_utf8(env.message), sig),
        match env.public_key {
            Some(text) => base64_decoded(text) == Some(trusted),
            None => true,
        },
    ensures
        verification_outcome(env, trusted) == Ok::<(), VerifyError>(()),
{
}

/// An envelope whose claimed key decodes to bytes other than the trusted key
/// fails with `KeyMismatch`, whatever its message and signature: the
/// signature is never looked at.
pub proof fn lemma_mismatched_key_rejected(env: EnvelopeView, trusted: Seq<u8>, claimed: Seq<u8>)
    requires
        env.public_key is Some,
        base64_decoded(env.public_key->0) == Some(claimed),
        claimed != trusted,
    ensures
        verification_outcome(env, trusted) == Err::<(), VerifyError>(VerifyError::KeyMismatch),
        forall|message: Seq<char>, signature: Seq<char>|
            verification_outcome(
                EnvelopeView { message, signature, public_key: env.public_key },
                trusted,
            ) == Err::<(), VerifyError>(VerifyError::KeyMismatch),
{
}

/// Without a claimed key, the outcome is that of the signature check under
/// the trusted key alone.
pub proof fn lemma_absent_key_uses_trusted_key(env: EnvelopeView, trusted: Seq<u8>)
    requires
        env.public_key is None,
    ensures
        verification_outcome(env, trusted) == signature_outcome(
            env.message,
            env.signature,
            trusted,
        ),
{
}

/// Claiming exactly the trusted key gives the same outcome as claiming none.
pub proof fn lemma_matching_key_changes_nothing(env: EnvelopeView, trusted: Seq<u8>)
    requires
        env.public_key is Some,
        base64_decoded(env.public_key->0) == Some(trusted),
    ensures
        verification_outcome(env, trusted) == verification_outcome(
            EnvelopeView { public_key: None, ..env },
            trusted,
        ),
{
}

/// The outcome is a function of the envelope's contents and the key bytes
/// alone: checking equal inputs again gives the same outcome.
pub proof fn lemma_outcome_repeats(a: EnvelopeView, b: EnvelopeView, ka: Seq<u8>, kb: Seq<u8>)
    requires
        a == b,
        ka == kb,
    ensures
        verification_outcome(a, ka) == verification_outcome(b, kb),
{
}

/// A trusted key source that fails to load decides the outcome, whatever
/// the envelope is and whether it could be decoded at all.
pub proof fn lemma_key_failure_comes_first(
    key_text: Seq<char>,
    a: Option<EnvelopeView>,
    b: Option<EnvelopeView>,
)
    requires
        key_load_outcome(key_text) is Err,
    ensures
        contents_outcome(key_text, a) == contents_outcome(key_text, b),
        contents_outcome(key_text, a) == Err::<(), VerifyError>(
            key_load_outcome(key_text)->Err_0,
        ),
{
}

} // verus!
