//! Verification of signed message envelopes against an independently trusted
//! Ed25519 public key.
//!
//! The trusted key is loaded from the text of its own source and is never
//! taken from the envelope: a key that the envelope claims is only compared
//! with it.
pub mod bytes;
pub mod ed25519;
pub mod encoding;
pub mod error;
pub mod lemmas;
pub mod verify;
