use vstd::prelude::*;

verus! {

/// Why a verification did not succeed.
#[derive(Debug, Clone, Copy, PartialEq, Eq, Structural)]
pub enum VerifyError {
    /// An input source could not be read.
    IoError,
    /// The envelope is not JSON of the expected shape.
    MalformedInput,
    /// A field expected to hold base64 does not.
    EncodingError,
    /// The decoded trusted key is not 32 bytes long.
    InvalidKeyLength,
    /// The decoded signature is not 64 bytes long.
    InvalidSignatureLength,
    /// The key bytes are not a point of the curve.
    InvalidKeyMaterial,
    /// The envelope carries a public key other than the trusted one.
    KeyMismatch,
    /// The signature does not verify over the message under the trusted key.
    SignatureInvalid,
}

} // verus!
