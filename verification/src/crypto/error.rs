use vstd::prelude::*;

verus! {

/// Why a cryptographic operation failed.
#[derive(Clone, Copy, Debug, PartialEq, Eq, Structural)]
pub enum CryptoError {
    /// Key material is malformed.
    KeyParse,
    /// The passphrase does not unlock the private key.
    Passphrase,
    /// Encryption failed.
    Encryption,
    /// Decryption failed: wrong key, corrupt ciphertext or unsupported
    /// algorithm.
    Decryption,
    /// The signature input is malformed. A well-formed signature that does
    /// not validate is no error.
    Signature,
}

} // verus!
