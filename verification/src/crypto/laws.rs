//! Laws that a backend may keep, and what the engine owes to a backend that
//! keeps them: what was encrypted decrypts, and what was signed verifies.

use crate::crypto::backend::{ArmorKind, CryptoBackend, Opened};
use crate::crypto::error::CryptoError;
use crate::crypto::interface::{keys_equal, Key, PrivateKey, PublicKey, SessionKey};
use crate::crypto::openpgp::{joined, part_bytes, KeyPacket, PGPData};
use crate::crypto::outcomes::{
    armored_as, checked_in_turn, encrypted_armored, encrypted_with_password, opened_armored,
    opened_with_password, signature_verdict, signed_with, unwrapped_by, wrapped_each,
    wrapped_for,
};
use crate::crypto::verification::{
    leading_failures, lemma_leading_failures_is, SignatureCheck, VerificationResponse,
    VerificationStatus,
};
use vstd::prelude::*;

verus! {

/// The private key is the one of the public key: they have the same
/// primary fingerprint.
pub open spec fn pairs_with(public: PublicKey, private: PrivateKey) -> bool {
    keys_equal(public.model(), private.model(), true)
}

/// A law of a backend: dearmoring the text that its armoring returned gives
/// the packets back.
pub open spec fn dearmor_inverts_armor<B: CryptoBackend>(backend: &B) -> bool {
    forall|kind: ArmorKind, packets: Vec<u8>, text: String, out: Option<Vec<u8>>|
        #![trigger
            armored_as(backend, kind, &packets, text),
            call_ensures(B::dearmor, (backend, &text), out)]
        armored_as(backend, kind, &packets, text) && call_ensures(
            B::dearmor,
            (backend, &text),
            out,
        ) ==> (out matches Some(back) && back@ == packets@)
}

/// One of the recipients has this private key.
pub open spec fn among(recipients: Seq<PublicKey>, own: PrivateKey) -> bool {
    exists|i: int| 0 <= i < recipients.len() && pairs_with(#[trigger] recipients[i], own)
}

/// A law of a backend: from a session key wrapped for some recipients, the
/// private key of any one of them unwraps that session key.
pub open spec fn private_key_unwraps<B: CryptoBackend>(backend: &B) -> bool {
    forall|
        key: SessionKey,
        recipients: Seq<PublicKey>,
        parts: Seq<Option<Vec<u8>>>,
        packets: Vec<u8>,
        own: PrivateKey,
        out: Option<SessionKey>,
    |
        #![trigger
            wrapped_each(backend, &key, recipients, parts),
            call_ensures(B::unwrap_session_key, (backend, &packets, &own), out)]
        wrapped_each(backend, &key, recipients, parts) && call_ensures(
            B::unwrap_session_key,
            (backend, &packets, &own),
            out,
        ) && joined(part_bytes(parts)) == Some(packets@) && among(recipients, own) ==> (
        out matches Some(back) && back@ == key@)
}

/// A law of a backend: the same from a message, where a payload encrypted
/// under the session key follows the wrapped session key.
pub open spec fn private_key_unwraps_message<B: CryptoBackend>(backend: &B) -> bool {
    forall|
        key: SessionKey,
        recipients: Seq<PublicKey>,
        parts: Seq<Option<Vec<u8>>>,
        data: Vec<u8>,
        embedded: Vec<u8>,
        payload: Vec<u8>,
        message: Vec<u8>,
        own: PrivateKey,
        out: Option<SessionKey>,
    |
        #![trigger
            wrapped_each(backend, &key, recipients, parts),
            call_ensures(B::encrypt_payload, (backend, &data, &embedded, &key), Some(payload)),
            call_ensures(B::unwrap_session_key, (backend, &message, &own), out)]
        wrapped_each(backend, &key, recipients, parts) && call_ensures(
            B::encrypt_payload,
            (backend, &data, &embedded, &key),
            Some(payload),
        ) && call_ensures(B::unwrap_session_key, (backend, &message, &own), out)
            && payload@.is_suffix_of(message@) && joined(part_bytes(parts)) == Some(
            message@.take(message@.len() - payload@.len()),
        ) && among(recipients, own) ==> (out matches Some(back) && back@ == key@)
}

/// A law of a backend: from a message that begins with a session key
/// wrapped under a password and goes on with a payload encrypted under the
/// session key, the password unwraps that session key, and any other
/// password unwraps nothing.
pub open spec fn password_unwraps<B: CryptoBackend>(backend: &B) -> bool {
    forall|
        key: SessionKey,
        password: String,
        packet: Vec<u8>,
        data: Vec<u8>,
        embedded: Vec<u8>,
        payload: Vec<u8>,
        message: Vec<u8>,
        tried: String,
        out: Option<SessionKey>,
    |
        #![trigger
            call_ensures(
                B::wrap_session_key_with_password,
                (backend, &key, &password),
                Some(packet),
            ),
            call_ensures(B::encrypt_payload, (backend, &data, &embedded, &key), Some(payload)),
            call_ensures(B::unwrap_session_key_with_password, (backend, &message, &tried), out)]
        call_ensures(B::wrap_session_key_with_password, (backend, &key, &password), Some(packet))
            && call_ensures(B::encrypt_payload, (backend, &data, &embedded, &key), Some(payload))
            && call_ensures(B::unwrap_session_key_with_password, (backend, &message, &tried), out)
            && message@ == packet@ + payload@ ==> if tried@ == password@ {
            (out matches Some(back) && back@ == key@)
        } else {
            out is None
        }
}

/// A law of a backend: from a message that ends with a payload, a session
/// key like the one that encrypted the payload decrypts the data and the
/// embedded signature.
pub open spec fn payload_decrypts<B: CryptoBackend>(backend: &B) -> bool {
    forall|
        key: SessionKey,
        data: Vec<u8>,
        embedded: Vec<u8>,
        payload: Vec<u8>,
        message: Vec<u8>,
        like: SessionKey,
        out: Option<Opened>,
    |
        #![trigger
            call_ensures(B::encrypt_payload, (backend, &data, &embedded, &key), Some(payload)),
            call_ensures(B::decrypt_payload, (backend, &message, &like), out)]
        call_ensures(B::encrypt_payload, (backend, &data, &embedded, &key), Some(payload))
            && call_ensures(B::decrypt_payload, (backend, &message, &like), out) && like@ == key@
            && payload@.is_suffix_of(message@) ==> (out matches Some(opened) && opened.data@
            == data@ && opened.signature@ == embedded@)
}

/// A law of a backend: a signature that it made is not empty.
pub open spec fn signatures_are_not_empty<B: CryptoBackend>(backend: &B) -> bool {
    forall|data: Vec<u8>, signing_key: PrivateKey, made_with: Option<String>, signature: Vec<u8>|
        #![trigger
            call_ensures(
                B::make_signature,
                (backend, &data, &signing_key, &made_with),
                Some(signature),
            )]
        call_ensures(B::make_signature, (backend, &data, &signing_key, &made_with), Some(signature))
            ==> signature@.len() > 0
}

/// A law of a backend: the public key of the signing key validates a
/// signature that the backend made, over the same data, where no context is
/// asked for or the context is the one it was made with. Over other data
/// the key does not validate it.
pub open spec fn signature_validates<B: CryptoBackend>(backend: &B) -> bool {
    forall|
        data: Vec<u8>,
        signing_key: PrivateKey,
        made_with: Option<String>,
        signature: Vec<u8>,
        checked: Vec<u8>,
        presented: Vec<u8>,
        key: PublicKey,
        asked: Option<String>,
        out: SignatureCheck,
    |
        #![trigger
            call_ensures(
                B::make_signature,
                (backend, &data, &signing_key, &made_with),
                Some(signature),
            ),
            call_ensures(B::check_signature, (backend, &checked, &presented, &key, &asked), out)]
        call_ensures(B::make_signature, (backend, &data, &signing_key, &made_with), Some(signature))
            && call_ensures(B::check_signature, (backend, &checked, &presented, &key, &asked), out)
            && presented@ == signature@ && pairs_with(key, signing_key) && (asked is None || asked
            == made_with) ==> if checked@ == data@ {
            out is Valid
        } else {
            out is Invalid
        }
}

/// Over a backend that keeps these laws, what was encrypted for some
/// recipients into an armored message decrypts to the data with the private
/// key of any one of them.
pub proof fn lemma_round_trip<B: CryptoBackend>(
    backend: &B,
    data: Vec<u8>,
    recipients: Seq<PublicKey>,
    given: Option<SessionKey>,
    sealed: Result<PGPData<String>, CryptoError>,
    text: String,
    own: PrivateKey,
    r: Result<Vec<u8>, CryptoError>,
)
    requires
        dearmor_inverts_armor(backend),
        private_key_unwraps_message(backend),
        payload_decrypts(backend),
        encrypted_armored(backend, &data, recipients, given, sealed),
        sealed matches Ok(out) && out.data_value() == Some(text),
        among(recipients, own),
        opened_armored(backend, &text, seq![own], r),
    ensures
        r matches Ok(plain) && plain@ == data@,
{
    assert forall|front: Seq<u8>, payload: Seq<u8>|
        payload.is_suffix_of(#[trigger] (front + payload)) && (front + payload).take(
            (front + payload).len() - payload.len(),
        ) == front by {
        let whole = front + payload;
        assert(whole.subrange(whole.len() - payload.len(), whole.len() as int) =~= payload);
        assert(whole.take(whole.len() - payload.len()) =~= front);
    }
}

/// Over a backend that keeps this law, a session key wrapped for some
/// recipients is recovered with the private key of any one of them alone.
pub proof fn lemma_any_recipient_unwraps<B: CryptoBackend>(
    backend: &B,
    session_key: SessionKey,
    recipients: Seq<PublicKey>,
    wrapped: Result<KeyPacket, CryptoError>,
    packets: Vec<u8>,
    own: PrivateKey,
    r: Result<SessionKey, CryptoError>,
)
    requires
        private_key_unwraps(backend),
        wrapped_for(backend, &session_key, recipients, wrapped),
        wrapped matches Ok(packet) && packet@ == packets@,
        among(recipients, own),
        unwrapped_by(backend, &packets, seq![own], r),
    ensures
        r matches Ok(key) && key@ == session_key@,
{
}

/// Over a backend that keeps these laws, what was encrypted with a password
/// decrypts with that password to the data, and with no other password.
pub proof fn lemma_password_round_trip<B: CryptoBackend>(
    backend: &B,
    data: Vec<u8>,
    password: String,
    sealed: Result<PGPData<String>, CryptoError>,
    text: String,
    tried: String,
    r: Result<Vec<u8>, CryptoError>,
)
    requires
        dearmor_inverts_armor(backend),
        password_unwraps(backend),
        payload_decrypts(backend),
        encrypted_with_password(backend, &data, &password, sealed),
        sealed matches Ok(out) && out.data_value() == Some(text),
        opened_with_password(backend, &text, &tried, r),
    ensures
        tried@ == password@ ==> (r matches Ok(plain) && plain@ == data@),
        tried@ != password@ ==> r == Err::<Vec<u8>, CryptoError>(CryptoError::Decryption),
{
}

/// Over a backend that keeps this law, a signature made over data with a
/// signing key is valid over that data for the public key of the signing
/// key, and invalid over any other data.
pub proof fn lemma_signature_verifies<B: CryptoBackend>(
    backend: &B,
    data: Vec<u8>,
    signing_key: PrivateKey,
    context: String,
    signed: Result<PGPData<Vec<u8>>, CryptoError>,
    checked: Vec<u8>,
    presented: Vec<u8>,
    key: PublicKey,
    r: Result<VerificationResponse, CryptoError>,
)
    requires
        signatures_are_not_empty(backend),
        signature_validates(backend),
        signed_with(backend, &data, &signing_key, context, signed),
        signed matches Ok(out) && out.signature_value() matches Some(signature) && signature@
            == presented@,
        pairs_with(key, signing_key),
        signature_verdict(backend, &checked, &presented, seq![key], &None::<String>, r),
    ensures
        r matches Ok(response) && response@.status == (if checked@ == data@ {
            VerificationStatus::SignedAndValid
        } else {
            VerificationStatus::SignedAndInvalid
        }),
{
    assert forall|checks: Seq<SignatureCheck>| #[trigger]
        checked_in_turn(
            backend,
            &checked,
            &presented,
            seq![key],
            &None::<String>,
            true,
            checks,
        ) implies leading_failures(checks) == (if checked@ == data@ {
        0nat
    } else {
        1nat
    }) && checks.len() == 1 by {
        assert(seq![key][0] == key);
        assert(checks.len() == 1);
        if checked@ == data@ {
            assert(checks[0] is Valid);
            lemma_leading_failures_is(checks, 0);
        } else {
            assert(checks[0] is Invalid);
            lemma_leading_failures_is(checks, 1);
        }
    }
}

} // verus!
