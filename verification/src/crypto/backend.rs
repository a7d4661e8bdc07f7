use crate::crypto::interface::{PrivateKey, PublicKey, SessionKey};
use crate::crypto::openpgp::GeneratedKey;
use crate::crypto::verification::SignatureCheck;
use vstd::prelude::*;

verus! {

/// What an armored block holds.
#[derive(Clone, Copy, Debug, PartialEq, Eq, Structural)]
pub enum ArmorKind {
    Message,
    Signature,
    PublicKey,
    PrivateKey,
}

/// How an attempt to unlock an armored private key ended.
pub enum KeyUnlock {
    /// The passphrase unlocked the key.
    Unlocked(PrivateKey),
    /// The key is sound and the passphrase does not unlock it.
    WrongPassphrase,
    /// The text is no private key.
    Malformed,
}

/// A decrypted payload: the plaintext, and the signature that was embedded
/// with it (empty where there was none).
pub struct Opened {
    pub data: Vec<u8>,
    pub signature: Vec<u8>,
}

/// The cryptographic primitives that the engine is built on. An
/// implementation supplies the packet formats and the ciphers; the engine
/// decides what is tried, in what order, and what each outcome means.
///
/// A primitive that returns an `Option` returns `None` when it fails.
pub trait CryptoBackend {
    /// Creates a Curve25519 key pair whose private part is locked by the
    /// passphrase.
    fn generate_key(&self, passphrase: &String) -> Option<GeneratedKey>;

    /// Unlocks an armored private key with a passphrase.
    fn unlock_key(&self, armored_key: &String, passphrase: &String) -> KeyUnlock;

    /// Wraps a session key for one recipient.
    fn wrap_session_key(&self, session_key: &SessionKey, recipient: &PublicKey) -> Option<Vec<u8>>;

    /// Wraps a session key under a key derived from a password.
    fn wrap_session_key_with_password(&self, session_key: &SessionKey, password: &String) -> Option<
        Vec<u8>,
    >;

    /// Looks in a sequence of packets for a session key wrapped for this
    /// private key and unwraps it.
    fn unwrap_session_key(&self, packets: &Vec<u8>, key: &PrivateKey) -> Option<SessionKey>;

    /// Looks in a sequence of packets for a session key wrapped under this
    /// password and unwraps it.
    fn unwrap_session_key_with_password(&self, packets: &Vec<u8>, password: &String) -> Option<
        SessionKey,
    >;

    /// Encrypts data under a session key, together with a signature to embed
    /// (empty for none).
    fn encrypt_payload(&self, data: &Vec<u8>, signature: &Vec<u8>, session_key: &SessionKey)
        -> Option<Vec<u8>>;

    /// Decrypts the encrypted data in a sequence of packets, skipping
    /// wrapped session keys in front of it.
    fn decrypt_payload(&self, packets: &Vec<u8>, session_key: &SessionKey) -> Option<Opened>;

    /// Signs data with a private key, bound to a context where one is given.
    fn make_signature(&self, data: &Vec<u8>, signing_key: &PrivateKey, context: &Option<String>)
        -> Option<Vec<u8>>;

    /// Checks a signature over data against one public key, and against the
    /// context where one is given.
    fn check_signature(
        &self,
        data: &Vec<u8>,
        signature: &Vec<u8>,
        key: &PublicKey,
        context: &Option<String>,
    ) -> SignatureCheck;

    /// Encodes packets as an armored block of the given kind.
    fn armor(&self, kind: ArmorKind, packets: &Vec<u8>) -> String;

    /// Decodes an armored block into its packets.
    fn dearmor(&self, text: &String) -> Option<Vec<u8>>;
}

} // verus!
