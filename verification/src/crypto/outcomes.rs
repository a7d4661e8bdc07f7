//! What each operation of the engine comes to, as a relation between its
//! arguments, what the primitives of the backend returned, and its result.

use crate::crypto::backend::{ArmorKind, CryptoBackend, KeyUnlock, Opened};
use crate::crypto::error::CryptoError;
use crate::crypto::interface::{PrivateKey, PublicKey, SessionKey};
use crate::crypto::openpgp::{
    first_success, joined, part_bytes, unwrapped_models, KeyPacket, PGPData, SESSION_KEY_AEAD,
    SESSION_KEY_ALGORITHM, SESSION_KEY_BYTES,
};
use crate::crypto::verification::{
    lenient, not_signed, verdict, SignatureCheck, VerificationResponse,
};
use crate::utils::either::Either;
use vstd::prelude::*;

verus! {

/// What wrapping a session key under a password comes to: the key packet of
/// the bytes that the backend's wrapping returned, or `Encryption` where it
/// returned none.
pub open spec fn wrapped_with_password<B: CryptoBackend>(
    backend: &B,
    session_key: &SessionKey,
    password: &String,
    r: Result<KeyPacket, CryptoError>,
) -> bool {
    exists|outcome: Option<Vec<u8>>| #[trigger]
        call_ensures(B::wrap_session_key_with_password, (backend, session_key, password), outcome)
            && match outcome {
            Some(bytes) => r matches Ok(packet) && packet@ == bytes@,
            None => r == Err::<KeyPacket, CryptoError>(CryptoError::Encryption),
        }
}

/// What decrypting an armored message with a password comes to. The text is
/// dearmored, the password unwraps the session key from the packets, and
/// the session key decrypts them: the result is the plaintext that the
/// backend's decryption returned, or `Decryption` where one of the three
/// steps returned nothing.
pub open spec fn opened_with_password<B: CryptoBackend>(
    backend: &B,
    text: &String,
    password: &String,
    r: Result<Vec<u8>, CryptoError>,
) -> bool {
    exists|dearmored: Option<Vec<u8>>| #[trigger]
        call_ensures(B::dearmor, (backend, text), dearmored) && match dearmored {
            Some(packets) => exists|unwrapped: Option<SessionKey>| #[trigger]
                call_ensures(
                    B::unwrap_session_key_with_password,
                    (backend, &packets, password),
                    unwrapped,
                ) && match unwrapped {
                    Some(session_key) => exists|opened: Option<Opened>| #[trigger]
                        call_ensures(B::decrypt_payload, (backend, &packets, &session_key), opened)
                            && match opened {
                            Some(opened) => r == Ok::<Vec<u8>, CryptoError>(opened.data),
                            None => r == Err::<Vec<u8>, CryptoError>(CryptoError::Decryption),
                        },
                    None => r == Err::<Vec<u8>, CryptoError>(CryptoError::Decryption),
                },
            None => r == Err::<Vec<u8>, CryptoError>(CryptoError::Decryption),
        }
}

/// The outcomes are what the backend's unwrapping of the packets returned
/// for the first keys, one key after the other, up to the first key that
/// unwrapped a session key: every outcome but the last is a failure, and
/// unless the last is a success every key was tried.
pub open spec fn unwrapped_in_turn<B: CryptoBackend>(
    backend: &B,
    packets: &Vec<u8>,
    keys: Seq<PrivateKey>,
    outcomes: Seq<Option<SessionKey>>,
) -> bool {
    &&& outcomes.len() <= keys.len()
    &&& forall|i: int|
        0 <= i < outcomes.len() ==> call_ensures(
            B::unwrap_session_key,
            (backend, packets, &keys[i]),
            #[trigger] outcomes[i],
        )
    &&& forall|i: int| 0 <= i < outcomes.len() - 1 ==> (#[trigger] outcomes[i]) is None
    &&& outcomes.len() < keys.len() ==> outcomes.len() > 0 && outcomes.last() is Some
}

/// The check leaves the signature undecided, so that the next key is tried:
/// it is a failure, or malformed input where that is no error.
pub open spec fn undecided(check: SignatureCheck, strict: bool) -> bool {
    check is Invalid || (!strict && check is Malformed)
}

/// The checks are what the backend's check of the signature returned for
/// the first keys, one key after the other, up to the first check that
/// decided: every check but the last left the signature undecided, and
/// unless the last decided every key was tried.
pub open spec fn checked_in_turn<B: CryptoBackend>(
    backend: &B,
    data: &Vec<u8>,
    signature: &Vec<u8>,
    keys: Seq<PublicKey>,
    context: &Option<String>,
    strict: bool,
    checks: Seq<SignatureCheck>,
) -> bool {
    &&& checks.len() <= keys.len()
    &&& forall|i: int|
        0 <= i < checks.len() ==> call_ensures(
            B::check_signature,
            (backend, data, signature, &keys[i], context),
            #[trigger] checks[i],
        )
    &&& forall|i: int| 0 <= i < checks.len() - 1 ==> undecided(#[trigger] checks[i], strict)
    &&& checks.len() < keys.len() ==> checks.len() > 0 && !undecided(checks.last(), strict)
}

/// What verifying a signature that stands apart from the data comes to. An
/// empty signature is no signature. Any other is judged by the checks that
/// the backend returned for the keys in turn, and malformed input is an
/// error.
pub open spec fn signature_verdict<B: CryptoBackend>(
    backend: &B,
    data: &Vec<u8>,
    signature: &Vec<u8>,
    keys: Seq<PublicKey>,
    context: &Option<String>,
    r: Result<VerificationResponse, CryptoError>,
) -> bool {
    if signature@.len() == 0 {
        r matches Ok(response) && response@ == not_signed(None) && response.well_formed()
    } else {
        exists|checks: Seq<SignatureCheck>| #[trigger]
            checked_in_turn(backend, data, signature, keys, context, true, checks)
                && match verdict(checks, None) {
                Ok(model) => r matches Ok(response) && response@ == model
                    && response.well_formed(),
                Err(e) => r == Err::<VerificationResponse, CryptoError>(e),
            }
    }
}

/// What verifying an armored signature comes to. An empty text is no
/// signature. Any other is dearmored by the backend: where that returned
/// nothing the input is malformed, an error; else the packets are verified
/// as a signature that stands apart from the data.
pub open spec fn armored_verdict<B: CryptoBackend>(
    backend: &B,
    data: &Vec<u8>,
    text: &String,
    keys: Seq<PublicKey>,
    context: &Option<String>,
    r: Result<VerificationResponse, CryptoError>,
) -> bool {
    if text@.len() == 0 {
        r matches Ok(response) && response@ == not_signed(None) && response.well_formed()
    } else {
        exists|dearmored: Option<Vec<u8>>| #[trigger]
            call_ensures(B::dearmor, (backend, text), dearmored) && match dearmored {
                Some(packets) => signature_verdict(backend, data, &packets, keys, context, r),
                None => r == Err::<VerificationResponse, CryptoError>(CryptoError::Signature),
            }
    }
}

/// What generating a key comes to: the private key that the backend
/// generated for the passphrase, or `Encryption` where it generated none.
pub open spec fn generated_with<B: CryptoBackend>(
    backend: &B,
    passphrase: &String,
    r: Result<PrivateKey, CryptoError>,
) -> bool {
    exists|outcome: Option<crate::crypto::openpgp::GeneratedKey>| #[trigger]
        call_ensures(B::generate_key, (backend, passphrase), outcome) && match outcome {
            Some(generated) => r == Ok::<PrivateKey, CryptoError>(generated.key),
            None => r == Err::<PrivateKey, CryptoError>(CryptoError::Encryption),
        }
}

/// What an attempt to unlock a private key comes to: the key, or
/// `Passphrase` where the passphrase was wrong, or `KeyParse` where the key
/// was malformed.
pub open spec fn unlocking(outcome: KeyUnlock) -> Result<PrivateKey, CryptoError> {
    match outcome {
        KeyUnlock::Unlocked(key) => Ok(key),
        KeyUnlock::WrongPassphrase => Err(CryptoError::Passphrase),
        KeyUnlock::Malformed => Err(CryptoError::KeyParse),
    }
}

/// What unlocking an armored private key comes to: what the backend's
/// attempt with the passphrase comes to.
pub open spec fn unlocked_with<B: CryptoBackend>(
    backend: &B,
    armored_key: &String,
    passphrase: &String,
    r: Result<PrivateKey, CryptoError>,
) -> bool {
    exists|outcome: KeyUnlock| #[trigger]
        call_ensures(B::unlock_key, (backend, armored_key, passphrase), outcome) && r
            == unlocking(outcome)
}

/// The parts are what the backend's wrapping of the session key returned
/// for each recipient, in order.
pub open spec fn wrapped_each<B: CryptoBackend>(
    backend: &B,
    session_key: &SessionKey,
    recipients: Seq<PublicKey>,
    parts: Seq<Option<Vec<u8>>>,
) -> bool {
    &&& parts.len() == recipients.len()
    &&& forall|i: int|
        0 <= i < parts.len() ==> call_ensures(
            B::wrap_session_key,
            (backend, session_key, &recipients[i]),
            #[trigger] parts[i],
        )
}

/// What wrapping a session key for its recipients comes to: the key packet
/// of the parts joined, or `Encryption` where there is no recipient or a
/// wrapping returned nothing.
pub open spec fn wrapped_for<B: CryptoBackend>(
    backend: &B,
    session_key: &SessionKey,
    recipients: Seq<PublicKey>,
    r: Result<KeyPacket, CryptoError>,
) -> bool {
    exists|parts: Seq<Option<Vec<u8>>>| #[trigger]
        wrapped_each(backend, session_key, recipients, parts) && match joined(part_bytes(parts)) {
            Some(bytes) => r matches Ok(packet) && packet@ == bytes,
            None => r == Err::<KeyPacket, CryptoError>(CryptoError::Encryption),
        }
}

/// What sealing data comes to. The session key is wrapped for the
/// recipients, and the data is encrypted under it together with the
/// signature to embed (empty for none): the result is the key packet
/// followed by the payload that the backend's encryption returned, or
/// `Encryption` where the wrapping failed or the encryption returned
/// nothing.
pub open spec fn sealed<B: CryptoBackend>(
    backend: &B,
    data: &Vec<u8>,
    signature: Seq<u8>,
    recipients: Seq<PublicKey>,
    session_key: &SessionKey,
    r: Result<Vec<u8>, CryptoError>,
) -> bool {
    exists|wrapped: Result<KeyPacket, CryptoError>| #[trigger]
        wrapped_for(backend, session_key, recipients, wrapped) && match wrapped {
            Ok(packet) => exists|embedded: Vec<u8>, payload: Option<Vec<u8>>| #[trigger]
                call_ensures(B::encrypt_payload, (backend, data, &embedded, session_key), payload)
                    && embedded@ == signature && match payload {
                    Some(payload) => r matches Ok(message) && message@ == packet@ + payload@,
                    None => r == Err::<Vec<u8>, CryptoError>(CryptoError::Encryption),
                },
            Err(_) => r == Err::<Vec<u8>, CryptoError>(CryptoError::Encryption),
        }
}

/// The session key is the one that the caller gave, or where the caller
/// gave none, one of the default algorithms and length.
pub open spec fn key_in_use(given: Option<SessionKey>, key: SessionKey) -> bool {
    match given {
        Some(given) => key == given,
        None => key@.algorithm == SESSION_KEY_ALGORITHM@ && key@.aead_algorithm
            == SESSION_KEY_AEAD@ && key@.data.len() == SESSION_KEY_BYTES,
    }
}

/// The bytes to embed with the data: none where the signature is to stand
/// apart, else the signature.
pub open spec fn embedded_bytes(detached: bool, signature: Vec<u8>) -> Seq<u8> {
    if detached {
        Seq::empty()
    } else {
        signature@
    }
}

/// What signing and sealing data comes to. The backend signs the data with
/// the signing key, without a context, and the data is sealed with the
/// signature embedded, or without it where the signature is to stand apart:
/// the result is the message and the signature, or `Encryption` where the
/// signing returned nothing or the sealing failed.
pub open spec fn signed_and_sealed<B: CryptoBackend>(
    backend: &B,
    data: &Vec<u8>,
    recipients: Seq<PublicKey>,
    session_key: &SessionKey,
    signing_key: &PrivateKey,
    detached: bool,
    r: Result<(Vec<u8>, Vec<u8>), CryptoError>,
) -> bool {
    exists|signed: Option<Vec<u8>>| #[trigger]
        call_ensures(B::make_signature, (backend, data, signing_key, &None::<String>), signed)
            && match signed {
            Some(signature) => exists|message: Result<Vec<u8>, CryptoError>| #[trigger]
                sealed(
                    backend,
                    data,
                    embedded_bytes(detached, signature),
                    recipients,
                    session_key,
                    message,
                ) && match message {
                    Ok(message) => r == Ok::<(Vec<u8>, Vec<u8>), CryptoError>(
                        (message, signature),
                    ),
                    Err(_) => r == Err::<(Vec<u8>, Vec<u8>), CryptoError>(
                        CryptoError::Encryption,
                    ),
                },
            None => r == Err::<(Vec<u8>, Vec<u8>), CryptoError>(CryptoError::Encryption),
        }
}

/// The text is what the backend's armoring of the packets returned.
pub open spec fn armored_as<B: CryptoBackend>(
    backend: &B,
    kind: ArmorKind,
    packets: &Vec<u8>,
    text: String,
) -> bool {
    call_ensures(B::armor, (backend, kind, packets), text)
}

/// The output is data only: the message as the backend armored it; or the
/// sealing failed and so does the encryption.
pub open spec fn armored_message<B: CryptoBackend>(
    backend: &B,
    message: Result<Vec<u8>, CryptoError>,
    r: Result<PGPData<String>, CryptoError>,
) -> bool {
    match message {
        Ok(message) => {
            &&& r matches Ok(out)
            &&& out.signature_value() is None
            &&& out.data_value() matches Some(text)
            &&& armored_as(backend, ArmorKind::Message, &message, text)
        },
        Err(_) => r == Err::<PGPData<String>, CryptoError>(CryptoError::Encryption),
    }
}

/// What encrypting into an armored message comes to: the data is sealed for
/// the recipients, unsigned, under the session key in use, and the message
/// is armored.
pub open spec fn encrypted_armored<B: CryptoBackend>(
    backend: &B,
    data: &Vec<u8>,
    recipients: Seq<PublicKey>,
    given: Option<SessionKey>,
    r: Result<PGPData<String>, CryptoError>,
) -> bool {
    exists|key: SessionKey, message: Result<Vec<u8>, CryptoError>| #[trigger]
        sealed(backend, data, Seq::empty(), recipients, &key, message) && key_in_use(given, key)
            && armored_message(backend, message, r)
}

/// What signing and encrypting comes to: the data is signed and sealed with
/// the signature embedded, and the output is the message alone.
pub open spec fn encrypted_and_signed<B: CryptoBackend>(
    backend: &B,
    data: &Vec<u8>,
    recipients: Seq<PublicKey>,
    session_key: &SessionKey,
    signing_key: &PrivateKey,
    r: Result<PGPData<Vec<u8>>, CryptoError>,
) -> bool {
    exists|done: Result<(Vec<u8>, Vec<u8>), CryptoError>| #[trigger]
        signed_and_sealed(backend, data, recipients, session_key, signing_key, false, done)
            && match done {
            Ok(pair) => r matches Ok(out) && out.data_value() == Some(pair.0)
                && out.signature_value() is None,
            Err(_) => r == Err::<PGPData<Vec<u8>>, CryptoError>(CryptoError::Encryption),
        }
}

/// As `encrypted_and_signed`, under the session key in use and with the
/// message armored.
pub open spec fn encrypted_and_signed_armored<B: CryptoBackend>(
    backend: &B,
    data: &Vec<u8>,
    recipients: Seq<PublicKey>,
    given: Option<SessionKey>,
    signing_key: &PrivateKey,
    r: Result<PGPData<String>, CryptoError>,
) -> bool {
    exists|key: SessionKey, done: Result<(Vec<u8>, Vec<u8>), CryptoError>| #[trigger]
        signed_and_sealed(backend, data, recipients, &key, signing_key, false, done)
            && key_in_use(given, key) && match done {
            Ok(pair) => armored_message(backend, Ok(pair.0), r),
            Err(_) => r == Err::<PGPData<String>, CryptoError>(CryptoError::Encryption),
        }
}

/// What signing and encrypting with the signature apart comes to: the data
/// is signed and sealed unsigned, and the output is the message with the
/// signature beside it.
pub open spec fn encrypted_and_signed_detached<B: CryptoBackend>(
    backend: &B,
    data: &Vec<u8>,
    recipients: Seq<PublicKey>,
    session_key: &SessionKey,
    signing_key: &PrivateKey,
    r: Result<PGPData<Vec<u8>>, CryptoError>,
) -> bool {
    exists|done: Result<(Vec<u8>, Vec<u8>), CryptoError>| #[trigger]
        signed_and_sealed(backend, data, recipients, session_key, signing_key, true, done)
            && match done {
            Ok(pair) => r matches Ok(out) && out.data_value() == Some(pair.0)
                && out.signature_value() == Some(pair.1),
            Err(_) => r == Err::<PGPData<Vec<u8>>, CryptoError>(CryptoError::Encryption),
        }
}

/// As `encrypted_and_signed_detached`, with the message and the signature
/// each armored by the backend.
pub open spec fn encrypted_and_signed_detached_armored<B: CryptoBackend>(
    backend: &B,
    data: &Vec<u8>,
    recipients: Seq<PublicKey>,
    session_key: &SessionKey,
    signing_key: &PrivateKey,
    r: Result<PGPData<String>, CryptoError>,
) -> bool {
    exists|done: Result<(Vec<u8>, Vec<u8>), CryptoError>| #[trigger]
        signed_and_sealed(backend, data, recipients, session_key, signing_key, true, done)
            && match done {
            Ok(pair) => {
                &&& r matches Ok(out)
                &&& out.data_value() matches Some(message)
                &&& out.signature_value() matches Some(signature)
                &&& armored_as(backend, ArmorKind::Message, &pair.0, message)
                &&& armored_as(backend, ArmorKind::Signature, &pair.1, signature)
            },
            Err(_) => r == Err::<PGPData<String>, CryptoError>(CryptoError::Encryption),
        }
}

/// What encrypting with a password comes to. A session key of the default
/// algorithms is wrapped under the password and the data is encrypted
/// under it, unsigned: the output is the armored message of the key packet
/// followed by the payload, or `Encryption` where the wrapping or the
/// encryption returned nothing.
pub open spec fn encrypted_with_password<B: CryptoBackend>(
    backend: &B,
    data: &Vec<u8>,
    password: &String,
    r: Result<PGPData<String>, CryptoError>,
) -> bool {
    exists|key: SessionKey, wrapped: Option<Vec<u8>>| #[trigger]
        call_ensures(B::wrap_session_key_with_password, (backend, &key, password), wrapped)
            && key_in_use(None, key) && match wrapped {
            Some(packet) => exists|embedded: Vec<u8>, payload: Option<Vec<u8>>| #[trigger]
                call_ensures(B::encrypt_payload, (backend, data, &embedded, &key), payload)
                    && embedded@.len() == 0 && match payload {
                    Some(payload) => exists|message: Vec<u8>| #[trigger]
                        armored_message(backend, Ok(message), r) && message@ == packet@
                            + payload@,
                    None => r == Err::<PGPData<String>, CryptoError>(CryptoError::Encryption),
                },
            None => r == Err::<PGPData<String>, CryptoError>(CryptoError::Encryption),
        }
}

/// What signing comes to: the output is the signature alone that the
/// backend made over the data with the signing key and the context, or
/// `Signature` where it made none.
pub open spec fn signed_with<B: CryptoBackend>(
    backend: &B,
    data: &Vec<u8>,
    signing_key: &PrivateKey,
    context: String,
    r: Result<PGPData<Vec<u8>>, CryptoError>,
) -> bool {
    exists|signed: Option<Vec<u8>>| #[trigger]
        call_ensures(B::make_signature, (backend, data, signing_key, &Some(context)), signed)
            && match signed {
            Some(signature) => r matches Ok(out) && out.signature_value() == Some(signature)
                && out.data_value() is None,
            None => r == Err::<PGPData<Vec<u8>>, CryptoError>(CryptoError::Signature),
        }
}

/// The parts are what the backend's signing of the data returned for each
/// signing key, in order and without a context.
pub open spec fn signed_each<B: CryptoBackend>(
    backend: &B,
    data: &Vec<u8>,
    keys: Seq<PrivateKey>,
    parts: Seq<Option<Vec<u8>>>,
) -> bool {
    &&& parts.len() == keys.len()
    &&& forall|i: int|
        0 <= i < parts.len() ==> call_ensures(
            B::make_signature,
            (backend, data, &keys[i], &None::<String>),
            #[trigger] parts[i],
        )
}

/// What signing with several keys into an armored block comes to: the
/// output is a signature alone, the bytes of the text that the backend's
/// armoring returned for the signatures joined; or `Signature` where there
/// is no signing key or a signing returned nothing.
pub open spec fn signed_armored<B: CryptoBackend>(
    backend: &B,
    data: &Vec<u8>,
    keys: Seq<PrivateKey>,
    r: Result<PGPData<Vec<u8>>, CryptoError>,
) -> bool {
    exists|parts: Seq<Option<Vec<u8>>>| #[trigger]
        signed_each(backend, data, keys, parts) && match joined(part_bytes(parts)) {
            Some(bytes) => exists|block: Vec<u8>, text: String|
                {
                    &&& #[trigger] armored_as(backend, ArmorKind::Signature, &block, text)
                    &&& block@ == bytes
                    &&& r matches Ok(out)
                    &&& out.data_value() is None
                    &&& out.signature_value() matches Some(signature)
                    &&& signature@ == vstd::utf8::encode_utf8(text@)
                },
            None => r == Err::<PGPData<Vec<u8>>, CryptoError>(CryptoError::Signature),
        }
}

/// What recovering a session key comes to: the key that the first
/// successful unwrapping gave, the keys tried in turn, or `Decryption`
/// where no key unwrapped the packets.
pub open spec fn unwrapped_by<B: CryptoBackend>(
    backend: &B,
    packets: &Vec<u8>,
    keys: Seq<PrivateKey>,
    r: Result<SessionKey, CryptoError>,
) -> bool {
    exists|outcomes: Seq<Option<SessionKey>>| #[trigger]
        unwrapped_in_turn(backend, packets, keys, outcomes) && match first_success(
            unwrapped_models(outcomes),
        ) {
            Some(model) => r matches Ok(key) && key@ == model,
            None => r == Err::<SessionKey, CryptoError>(CryptoError::Decryption),
        }
}

/// As `unwrapped_by`, for an armored key packet: the text is dearmored by
/// the backend first, and nothing back is `Decryption`.
pub open spec fn unwrapped_armored_by<B: CryptoBackend>(
    backend: &B,
    text: &String,
    keys: Seq<PrivateKey>,
    r: Result<SessionKey, CryptoError>,
) -> bool {
    exists|dearmored: Option<Vec<u8>>| #[trigger]
        call_ensures(B::dearmor, (backend, text), dearmored) && match dearmored {
            Some(packets) => unwrapped_by(backend, &packets, keys, r),
            None => r == Err::<SessionKey, CryptoError>(CryptoError::Decryption),
        }
}

/// What verifying a plaintext comes to: the response holds the plaintext
/// whatever the verification came to. An empty signature is no signature.
/// Any other is judged by the checks that the backend returned for the keys
/// in turn, malformed input counting as a failure of the key.
pub open spec fn plaintext_verdict<B: CryptoBackend>(
    backend: &B,
    data: Vec<u8>,
    signature: Vec<u8>,
    keys: Seq<PublicKey>,
    response: VerificationResponse,
) -> bool {
    &&& response.well_formed()
    &&& if signature@.len() == 0 {
        response@ == not_signed(Some(data@))
    } else {
        exists|checks: Seq<SignatureCheck>| #[trigger]
            checked_in_turn(backend, &data, &signature, keys, &None::<String>, false, checks)
                && verdict(lenient(checks), Some(data@)) == Ok::<_, CryptoError>(response@)
    }
}

/// What decrypting and verifying comes to. The backend decrypts the packets
/// under the session key: nothing back is `Decryption`. The plaintext is
/// then verified against the signature that stands apart, or where there
/// is none against the one that was embedded.
pub open spec fn opened_and_verified<B: CryptoBackend>(
    backend: &B,
    packets: &Vec<u8>,
    session_key: &SessionKey,
    detached: Option<Vec<u8>>,
    keys: Seq<PublicKey>,
    r: Result<VerificationResponse, CryptoError>,
) -> bool {
    exists|opened: Option<Opened>| #[trigger]
        call_ensures(B::decrypt_payload, (backend, packets, session_key), opened) && match opened {
            Some(opened) => r matches Ok(response) && plaintext_verdict(
                backend,
                opened.data,
                match detached {
                    Some(signature) => signature,
                    None => opened.signature,
                },
                keys,
                response,
            ),
            None => r == Err::<VerificationResponse, CryptoError>(CryptoError::Decryption),
        }
}

/// The signature that stands apart: the one given, or an empty one where
/// none is given.
pub open spec fn detached_signature(given: Option<Vec<u8>>, signature: Vec<u8>) -> bool {
    match given {
        Some(given) => signature == given,
        None => signature@.len() == 0,
    }
}

/// As `opened_and_verified` with a signature that stands apart, given or
/// not.
pub open spec fn opened_and_verified_detached<B: CryptoBackend>(
    backend: &B,
    packets: &Vec<u8>,
    session_key: &SessionKey,
    given: Option<Vec<u8>>,
    keys: Seq<PublicKey>,
    r: Result<VerificationResponse, CryptoError>,
) -> bool {
    exists|signature: Vec<u8>| #[trigger]
        opened_and_verified(backend, packets, session_key, Some(signature), keys, r)
            && detached_signature(given, signature)
}

/// What decrypting an armored message comes to. The text is dearmored, the
/// decryption keys unwrap the session key from the packets, and the session
/// key decrypts them: the result is the plaintext that the backend's
/// decryption returned, or `Decryption` where a step returned nothing.
pub open spec fn opened_armored<B: CryptoBackend>(
    backend: &B,
    text: &String,
    keys: Seq<PrivateKey>,
    r: Result<Vec<u8>, CryptoError>,
) -> bool {
    exists|dearmored: Option<Vec<u8>>| #[trigger]
        call_ensures(B::dearmor, (backend, text), dearmored) && match dearmored {
            Some(packets) => exists|unwrapped: Result<SessionKey, CryptoError>| #[trigger]
                unwrapped_by(backend, &packets, keys, unwrapped) && match unwrapped {
                    Ok(session_key) => exists|opened: Option<Opened>| #[trigger]
                        call_ensures(B::decrypt_payload, (backend, &packets, &session_key), opened)
                            && match opened {
                            Some(opened) => r == Ok::<Vec<u8>, CryptoError>(opened.data),
                            None => r == Err::<Vec<u8>, CryptoError>(CryptoError::Decryption),
                        },
                    Err(_) => r == Err::<Vec<u8>, CryptoError>(CryptoError::Decryption),
                },
            None => r == Err::<Vec<u8>, CryptoError>(CryptoError::Decryption),
        }
}

/// What decrypting an armored message and verifying the signature embedded
/// in it comes to: the text is dearmored, the decryption keys unwrap the
/// session key, and the packets are decrypted and verified.
pub open spec fn opened_armored_and_verified<B: CryptoBackend>(
    backend: &B,
    text: &String,
    decryption_keys: Seq<PrivateKey>,
    keys: Seq<PublicKey>,
    r: Result<VerificationResponse, CryptoError>,
) -> bool {
    exists|dearmored: Option<Vec<u8>>| #[trigger]
        call_ensures(B::dearmor, (backend, text), dearmored) && match dearmored {
            Some(packets) => exists|unwrapped: Result<SessionKey, CryptoError>| #[trigger]
                unwrapped_by(backend, &packets, decryption_keys, unwrapped) && match unwrapped {
                    Ok(session_key) => opened_and_verified(
                        backend,
                        &packets,
                        &session_key,
                        None,
                        keys,
                        r,
                    ),
                    Err(_) => r == Err::<VerificationResponse, CryptoError>(
                        CryptoError::Decryption,
                    ),
                },
            None => r == Err::<VerificationResponse, CryptoError>(CryptoError::Decryption),
        }
}

/// As `opened_and_verified_detached`, for an armored message: the text is
/// dearmored by the backend first, and nothing back is `Decryption`.
pub open spec fn opened_armored_and_verified_detached<B: CryptoBackend>(
    backend: &B,
    text: &String,
    session_key: &SessionKey,
    given: Option<Vec<u8>>,
    keys: Seq<PublicKey>,
    r: Result<VerificationResponse, CryptoError>,
) -> bool {
    exists|dearmored: Option<Vec<u8>>| #[trigger]
        call_ensures(B::dearmor, (backend, text), dearmored) && match dearmored {
            Some(packets) => opened_and_verified_detached(
                backend,
                &packets,
                session_key,
                given,
                keys,
                r,
            ),
            None => r == Err::<VerificationResponse, CryptoError>(CryptoError::Decryption),
        }
}

/// The keys of an optional one-or-many argument; none where it is absent.
pub open spec fn optional_items<T>(keys: Option<Either<T, Vec<T>>>) -> Seq<T> {
    match keys {
        Some(keys) => keys.items(),
        None => Seq::empty(),
    }
}

} // verus!
