use crate::crypto::backend::{ArmorKind, CryptoBackend, KeyUnlock, Opened};
use crate::crypto::encoding::{base64_len, base64_standard, encode_base64};
use crate::crypto::error::CryptoError;
use crate::crypto::interface::{
    symmetric_key_size, PrivateKey, PublicKey, SessionKey, SessionKeyModel,
};
use crate::crypto::outcomes::{
    armored_as, armored_message, armored_verdict, checked_in_turn, embedded_bytes,
    encrypted_and_signed,
    encrypted_and_signed_armored,
    encrypted_and_signed_detached, encrypted_and_signed_detached_armored, encrypted_armored,
    encrypted_with_password, generated_with, opened_and_verified,
    opened_and_verified_detached, opened_armored, opened_armored_and_verified,
    opened_armored_and_verified_detached, opened_with_password, optional_items, sealed,
    signature_verdict, signed_and_sealed, signed_armored, signed_each, signed_with, undecided,
    unlocked_with, unlocking, unwrapped_armored_by, unwrapped_by, unwrapped_in_turn,
    wrapped_each, wrapped_for, wrapped_with_password,
};
use crate::crypto::random::random_bytes;
use crate::crypto::verification::{
    judged, lemma_lenient_verdict, lemma_run_is_judged, lenient, not_signed, optional_bytes,
    verdict, SignatureCheck, VerificationResponse,
};
use crate::utils::either::Either;
use vstd::prelude::*;

verus! {

/// A session key wrapped for its recipients, as encoded packets.
pub struct KeyPacket {
    key: Vec<u8>,
}

impl View for KeyPacket {
    type V = Seq<u8>;

    closed spec fn view(&self) -> Seq<u8> {
        self.key@
    }
}

impl KeyPacket {
    /// The key packet that these bytes encode.
    pub fn new(key: Vec<u8>) -> (r: KeyPacket)
        ensures
            r@ == key@,
    {
        KeyPacket { key }
    }

    /// The encoded packets.
    pub fn as_bytes(&self) -> (r: &Vec<u8>)
        ensures
            r@ == self@,
    {
        &self.key
    }

    /// Gives the encoded packets up.
    pub fn into_bytes(self) -> (r: Vec<u8>)
        ensures
            r@ == self@,
    {
        self.key
    }
}

/// A freshly generated private key together with its armored, locked form.
pub struct GeneratedKey {
    pub key: PrivateKey,
    pub armored_key: String,
}

/// What an operation put out: a signature, data, or both.
pub struct PGPData<T> {
    signature: Option<T>,
    data: Option<T>,
}

impl<T> PGPData<T> {
    #[verifier::type_invariant]
    spec fn inv(self) -> bool {
        self.signature is Some || self.data is Some
    }

    /// The signature, where the output holds one.
    pub closed spec fn signature_value(&self) -> Option<T> {
        self.signature
    }

    /// The data, where the output holds any.
    pub closed spec fn data_value(&self) -> Option<T> {
        self.data
    }

    /// Output that is data only, as of an encryption.
    pub fn of_data(data: T) -> (r: PGPData<T>)
        ensures
            r.data_value() == Some(data),
            r.signature_value() is None,
    {
        PGPData { signature: None, data: Some(data) }
    }

    /// Output that is a signature only, as of a detached signing.
    pub fn of_signature(signature: T) -> (r: PGPData<T>)
        ensures
            r.signature_value() == Some(signature),
            r.data_value() is None,
    {
        PGPData { signature: Some(signature), data: None }
    }

    /// Output that is data with its signature beside it.
    pub fn of_both(data: T, signature: T) -> (r: PGPData<T>)
        ensures
            r.data_value() == Some(data),
            r.signature_value() == Some(signature),
    {
        PGPData { signature: Some(signature), data: Some(data) }
    }

    /// The signature, if the operation made one apart from the data.
    pub fn signature(&self) -> (r: &Option<T>)
        ensures
            *r == self.signature_value(),
            self.signature_value() is Some || self.data_value() is Some,
    {
        proof {
            use_type_invariant(self);
        }
        &self.signature
    }

    /// The data, if the operation put any out.
    pub fn data(&self) -> (r: &Option<T>)
        ensures
            *r == self.data_value(),
            self.signature_value() is Some || self.data_value() is Some,
    {
        proof {
            use_type_invariant(self);
        }
        &self.data
    }

    /// Takes the output apart: the signature, then the data. At least one of
    /// the two is there.
    pub fn into_parts(self) -> (r: (Option<T>, Option<T>))
        ensures
            r.0 == self.signature_value(),
            r.1 == self.data_value(),
            r.0 is Some || r.1 is Some,
    {
        proof {
            use_type_invariant(&self);
        }
        (self.signature, self.data)
    }
}

/// The number of random bytes in a passphrase.
pub const PASSPHRASE_BYTES: usize = 32;

/// The symmetric algorithm of the session keys that the engine generates.
pub const SESSION_KEY_ALGORITHM: &'static str = "aes256";

/// The AEAD algorithm of the session keys that the engine generates.
pub const SESSION_KEY_AEAD: &'static str = "gcm";

/// The number of bytes of a generated session key.
pub const SESSION_KEY_BYTES: usize = 32;

/// The passphrase made of the given bytes: their standard base64 encoding.
pub fn passphrase_from(bytes: &Vec<u8>) -> (r: String)
    requires
        base64_len(bytes@.len()) <= usize::MAX,
    ensures
        r@ == base64_standard(bytes@),
        r@.len() == base64_len(bytes@.len()),
{
    encode_base64(bytes)
}

/// Turns the outcome of a primitive into a result: what it returned, or the
/// given error where it failed.
pub fn outcome_or<T>(outcome: Option<T>, error: CryptoError) -> (r: Result<T, CryptoError>)
    ensures
        match outcome {
            Some(value) => r == Ok::<T, CryptoError>(value),
            None => r == Err::<T, CryptoError>(error),
        },
{
    match outcome {
        Some(value) => Ok(value),
        None => Err(error),
    }
}

/// What an attempt to unlock a private key comes to: the key, or
/// `Passphrase` where the passphrase was wrong, or `KeyParse` where the key
/// was malformed.
pub fn unlocked(outcome: KeyUnlock) -> (r: Result<PrivateKey, CryptoError>)
    ensures
        r == unlocking(outcome),
{
    match outcome {
        KeyUnlock::Unlocked(key) => Ok(key),
        KeyUnlock::WrongPassphrase => Err(CryptoError::Passphrase),
        KeyUnlock::Malformed => Err(CryptoError::KeyParse),
    }
}

/// The bytes of each part, where the part is there.
pub open spec fn part_bytes(parts: Seq<Option<Vec<u8>>>) -> Seq<Option<Seq<u8>>> {
    parts.map_values(|p: Option<Vec<u8>>| optional_bytes(p))
}

/// The packets of a session key wrapped once for each recipient: the parts
/// one after the other. There is no such packet for no recipient, nor where
/// a wrapping failed.
pub open spec fn joined(parts: Seq<Option<Seq<u8>>>) -> Option<Seq<u8>> {
    if parts.len() > 0 && (forall|i: int| 0 <= i < parts.len() ==> (#[trigger] parts[i]) is Some) {
        Some(parts.map_values(|p: Option<Seq<u8>>| p->Some_0).flatten())
    } else {
        None
    }
}

/// Joins the parts into one run of bytes, where there is a part and none of
/// them is missing.
pub fn join_parts(parts: &Vec<Option<Vec<u8>>>) -> (r: Option<Vec<u8>>)
    ensures
        optional_bytes(r) == joined(part_bytes(parts@)),
{
    let n = parts.len();
    if n == 0 {
        return None;
    }
    let ghost wanted = part_bytes(parts@);
    let ghost pieces = wanted.map_values(|p: Option<Seq<u8>>| p->Some_0);
    let mut bytes: Vec<u8> = Vec::new();
    let mut i: usize = 0;
    while i < n
        invariant
            i <= n,
            n == parts.len(),
            wanted == part_bytes(parts@),
            pieces == wanted.map_values(|p: Option<Seq<u8>>| p->Some_0),
            forall|k: int| 0 <= k < i ==> (#[trigger] wanted[k]) is Some,
            bytes@ == pieces.take(i as int).flatten(),
        decreases n - i,
    {
        match &parts[i] {
            Some(part) => {
                append_bytes(&mut bytes, part);
                proof {
                    assert(pieces[i as int] == part@);
                    assert(pieces.take(i + 1) =~= pieces.take(i as int).push(pieces[i as int]));
                    pieces.take(i as int).lemma_flatten_push(pieces[i as int]);
                }
            },
            None => {
                assert(wanted[i as int] is None);
                return None;
            },
        }
        i += 1;
    }
    assert(pieces.take(n as int) =~= pieces);
    Some(bytes)
}

/// Joins the session key packets made for each recipient into one key
/// packet. Fails with `Encryption` where there is no recipient or a wrapping
/// failed.
pub fn join_wrapped(parts: &Vec<Option<Vec<u8>>>) -> (r: Result<KeyPacket, CryptoError>)
    ensures
        match r {
            Ok(packet) => joined(part_bytes(parts@)) == Some(packet@),
            Err(e) => joined(part_bytes(parts@)) is None && e == CryptoError::Encryption,
        },
{
    match join_parts(parts) {
        Some(bytes) => Ok(KeyPacket { key: bytes }),
        None => Err(CryptoError::Encryption),
    }
}

/// The models of the session keys that a run of unwrapping attempts gave.
pub open spec fn unwrapped_models(outcomes: Seq<Option<SessionKey>>) -> Seq<
    Option<SessionKeyModel>,
> {
    outcomes.map_values(
        |o: Option<SessionKey>|
            match o {
                Some(k) => Some(k@),
                None => None,
            },
    )
}

/// The session key that the first successful attempt gave, where there is
/// one.
pub open spec fn first_success(outcomes: Seq<Option<SessionKeyModel>>) -> Option<SessionKeyModel>
    decreases outcomes.len(),
{
    if outcomes.len() == 0 {
        None
    } else if outcomes[0] is Some {
        outcomes[0]
    } else {
        first_success(outcomes.drop_first())
    }
}

/// The first success is the key at the first index that holds one; there is
/// none exactly when every attempt failed.
pub proof fn lemma_first_success(outcomes: Seq<Option<SessionKeyModel>>, n: int)
    requires
        0 <= n <= outcomes.len(),
        forall|i: int| 0 <= i < n ==> (#[trigger] outcomes[i]) is None,
    ensures
        n < outcomes.len() && outcomes[n] is Some ==> first_success(outcomes) == outcomes[n],
        n == outcomes.len() ==> first_success(outcomes) is None,
    decreases n,
{
    if n > 0 {
        let rest = outcomes.drop_first();
        assert(outcomes[0] is None);
        assert forall|i: int| 0 <= i < n - 1 implies (#[trigger] rest[i]) is None by {
            assert(rest[i] == outcomes[i + 1]);
        }
        lemma_first_success(rest, n - 1);
        if n < outcomes.len() {
            assert(rest[n - 1] == outcomes[n]);
        }
    }
}

/// Picks the session key of the first attempt that unwrapped the packet, in
/// the order in which the keys were tried. Fails with `Decryption` where no
/// attempt did.
pub fn first_unwrapped(outcomes: &Vec<Option<SessionKey>>) -> (r: Result<SessionKey, CryptoError>)
    ensures
        match r {
            Ok(key) => first_success(unwrapped_models(outcomes@)) == Some(key@),
            Err(e) => first_success(unwrapped_models(outcomes@)) is None && e
                == CryptoError::Decryption,
        },
{
    let n = outcomes.len();
    let mut i: usize = 0;
    while i < n
        invariant
            i <= n,
            n == outcomes.len(),
            forall|k: int| 0 <= k < i ==> (#[trigger] unwrapped_models(outcomes@)[k]) is None,
        decreases n - i,
    {
        match &outcomes[i] {
            Some(key) => {
                proof {
                    assert(unwrapped_models(outcomes@)[i as int] == Some(key@));
                    lemma_first_success(unwrapped_models(outcomes@), i as int);
                }
                return Ok(key.clone());
            },
            None => {
                assert(unwrapped_models(outcomes@)[i as int] is None);
            },
        }
        i += 1;
    }
    proof {
        lemma_first_success(unwrapped_models(outcomes@), n as int);
    }
    Err(CryptoError::Decryption)
}

fn append_bytes(target: &mut Vec<u8>, source: &Vec<u8>)
    ensures
        final(target)@ == old(target)@ + source@,
{
    let n = source.len();
    let mut i: usize = 0;
    while i < n
        invariant
            i <= n,
            n == source.len(),
            target@ == old(target)@ + source@.take(i as int),
        decreases n - i,
    {
        target.push(source[i]);
        assert(source@.take(i + 1) =~= source@.take(i as int).push(source@[i as int]));
        i += 1;
    }
    assert(source@.take(n as int) =~= source@);
}

proof fn lemma_session_key_algorithm()
    ensures
        symmetric_key_size(SESSION_KEY_ALGORITHM@) == Some(SESSION_KEY_BYTES as nat),
{
    reveal_strlit("aes128");
    reveal_strlit("aes192");
    reveal_strlit("aes256");
    assert("aes256"@[3] != "aes128"@[3]);
    assert("aes256"@[3] != "aes192"@[3]);
}

/// The OpenPGP engine: encryption, decryption, signing and verification over
/// the primitives of a backend. It keeps no state between calls.
pub struct OpenPGPCrypto<B: CryptoBackend> {
    pub backend: B,
}

impl<B: CryptoBackend> OpenPGPCrypto<B> {
    /// The engine over the given backend.
    pub fn new(backend: B) -> (r: Self)
        ensures
            r.backend == backend,
    {
        OpenPGPCrypto { backend }
    }

    /// Generates a random passphrase: 32 random bytes in base64.
    pub fn generate_passphrase(&self) -> (r: String)
        ensures
            r@.len() == 44,
            exists|bytes: Seq<u8>|
                #![trigger base64_standard(bytes)]
                bytes.len() == PASSPHRASE_BYTES && r@ == base64_standard(bytes),
    {
        let bytes = random_bytes(PASSPHRASE_BYTES);
        passphrase_from(&bytes)
    }

    /// Generates a random session key for the default algorithms. The
    /// choice does not depend on the recipients.
    pub fn generate_session_key(&self, encryption_keys: Vec<PrivateKey>) -> (r: SessionKey)
        ensures
            r@.algorithm == SESSION_KEY_ALGORITHM@,
            r@.aead_algorithm == SESSION_KEY_AEAD@,
            r@.data.len() == SESSION_KEY_BYTES,
    {
        fresh_session_key()
    }

    fn wrap_each(&self, session_key: &SessionKey, recipients: &Vec<PublicKey>) -> (parts: Vec<
        Option<Vec<u8>>,
    >)
        ensures
            wrapped_each(&self.backend, session_key, recipients@, parts@),
    {
        let mut parts: Vec<Option<Vec<u8>>> = Vec::new();
        let n = recipients.len();
        let mut i: usize = 0;
        while i < n
            invariant
                i <= n,
                n == recipients.len(),
                parts@.len() == i,
                forall|k: int|
                    0 <= k < i ==> call_ensures(
                        B::wrap_session_key,
                        (&self.backend, session_key, &recipients@[k]),
                        #[trigger] parts@[k],
                    ),
            decreases n - i,
        {
            parts.push(self.backend.wrap_session_key(session_key, &recipients[i]));
            i += 1;
        }
        parts
    }

    fn wrap_for(&self, session_key: &SessionKey, recipients: &Vec<PublicKey>) -> (r: Result<
        KeyPacket,
        CryptoError,
    >)
        ensures
            wrapped_for(&self.backend, session_key, recipients@, r),
            recipients@.len() == 0 ==> r is Err,
            r matches Err(e) ==> e == CryptoError::Encryption,
    {
        let parts = self.wrap_each(session_key, recipients);
        join_wrapped(&parts)
    }

    /// Wraps a session key for each recipient, so that each of them can
    /// unwrap it alone. Fails with `Encryption` where there is no recipient
    /// or a wrapping failed.
    pub fn encrypt_session_key(
        &self,
        session_key: SessionKey,
        encryption_keys: Either<PublicKey, Vec<PublicKey>>,
    ) -> (r: Result<KeyPacket, CryptoError>)
        ensures
            wrapped_for(&self.backend, &session_key, encryption_keys.items(), r),
            encryption_keys.items().len() == 0 ==> r is Err,
            r matches Err(e) ==> e == CryptoError::Encryption,
    {
        let recipients = encryption_keys.into_vec();
        self.wrap_for(&session_key, &recipients)
    }

    /// Wraps a session key under a key derived from a password. Fails with
    /// `Encryption` where the wrapping failed.
    pub fn encrypt_session_key_with_password(
        &self,
        session_key: SessionKey,
        password: String,
    ) -> (r: Result<KeyPacket, CryptoError>)
        ensures
            wrapped_with_password(&self.backend, &session_key, &password, r),
            r matches Err(e) ==> e == CryptoError::Encryption,
    {
        let outcome = self.backend.wrap_session_key_with_password(&session_key, &password);
        match outcome_or(outcome, CryptoError::Encryption) {
            Ok(bytes) => Ok(KeyPacket::new(bytes)),
            Err(e) => Err(e),
        }
    }

    /// Generates a new key pair locked by a passphrase. Fails with
    /// `Encryption` where the generation failed.
    pub fn generate_key(&self, passphrase: String) -> (r: Result<PrivateKey, CryptoError>)
        ensures
            generated_with(&self.backend, &passphrase, r),
            r matches Err(e) ==> e == CryptoError::Encryption,
    {
        match outcome_or(self.backend.generate_key(&passphrase), CryptoError::Encryption) {
            Ok(generated) => Ok(generated.key),
            Err(e) => Err(e),
        }
    }

    /// Unlocks an armored private key. Fails with `Passphrase` where the
    /// passphrase does not unlock the key, and with `KeyParse` where the key
    /// is malformed.
    pub fn decrypt_key(&self, key: String, passphrase: String) -> (r: Result<
        PrivateKey,
        CryptoError,
    >)
        ensures
            unlocked_with(&self.backend, &key, &passphrase, r),
            r matches Err(e) ==> e == CryptoError::Passphrase || e == CryptoError::KeyParse,
    {
        unlocked(self.backend.unlock_key(&key, &passphrase))
    }

    /// The session key that the caller gave, or a fresh one for the default
    /// algorithms where the caller gave none.
    fn session_key_or_fresh(session_key: Option<SessionKey>) -> (r: SessionKey)
        ensures
            match session_key {
                Some(key) => r == key,
                None => r@.algorithm == SESSION_KEY_ALGORITHM@ && r@.aead_algorithm
                    == SESSION_KEY_AEAD@ && r@.data.len() == SESSION_KEY_BYTES,
            },
    {
        match session_key {
            Some(key) => key,
            None => fresh_session_key(),
        }
    }

    /// The message for the recipients: the wrapped session key, then the
    /// data encrypted under it with the signature embedded.
    fn seal(
        &self,
        data: &Vec<u8>,
        signature: &Vec<u8>,
        recipients: &Vec<PublicKey>,
        session_key: &SessionKey,
    ) -> (r: Result<Vec<u8>, CryptoError>)
        ensures
            sealed(&self.backend, data, signature@, recipients@, session_key, r),
            recipients@.len() == 0 ==> r is Err,
            r matches Err(e) ==> e == CryptoError::Encryption,
    {
        match self.wrap_for(session_key, recipients) {
            Ok(packet) => {
                match self.backend.encrypt_payload(data, signature, session_key) {
                    Some(payload) => {
                        let mut message = packet.into_bytes();
                        append_bytes(&mut message, &payload);
                        Ok(message)
                    },
                    None => Err(CryptoError::Encryption),
                }
            },
            Err(e) => Err(e),
        }
    }

    /// Encrypts data for the recipients into an armored message, under the
    /// given session key or a fresh one. The output is data only. Fails with
    /// `Encryption` where there is no recipient or a primitive failed.
    pub fn encrypt_armored(
        &self,
        data: Vec<u8>,
        encryption_keys: Vec<PublicKey>,
        session_key: Option<SessionKey>,
    ) -> (r: Result<PGPData<String>, CryptoError>)
        ensures
            encrypted_armored(&self.backend, &data, encryption_keys@, session_key, r),
            encryption_keys@.len() == 0 ==> r is Err,
            match r {
                Ok(out) => out.data_value() is Some && out.signature_value() is None,
                Err(e) => e == CryptoError::Encryption,
            },
    {
        let session_key = Self::session_key_or_fresh(session_key);
        let unsigned: Vec<u8> = Vec::new();
        match self.seal(&data, &unsigned, &encryption_keys, &session_key) {
            Ok(message) => Ok(PGPData::of_data(self.backend.armor(ArmorKind::Message, &message))),
            Err(e) => Err(e),
        }
    }

    fn sign_and_seal(
        &self,
        data: &Vec<u8>,
        recipients: &Vec<PublicKey>,
        session_key: &SessionKey,
        signing_key: &PrivateKey,
        detached: bool,
    ) -> (r: Result<(Vec<u8>, Vec<u8>), CryptoError>)
        ensures
            signed_and_sealed(
                &self.backend,
                data,
                recipients@,
                session_key,
                signing_key,
                detached,
                r,
            ),
            recipients@.len() == 0 ==> r is Err,
            r matches Err(e) ==> e == CryptoError::Encryption,
    {
        match self.backend.make_signature(data, signing_key, &None) {
            Some(signature) => {
                let unsigned: Vec<u8> = Vec::new();
                let message = if detached {
                    self.seal(data, &unsigned, recipients, session_key)
                } else {
                    self.seal(data, &signature, recipients, session_key)
                };
                proof {
                    assert(sealed(
                        &self.backend,
                        data,
                        embedded_bytes(detached, signature),
                        recipients@,
                        session_key,
                        message,
                    ));
                }
                match message {
                    Ok(message) => Ok((message, signature)),
                    Err(e) => Err(e),
                }
            },
            None => Err(CryptoError::Encryption),
        }
    }

    /// Signs data and encrypts it for the recipients with the signature
    /// embedded. The output is data only. Fails with `Encryption` where
    /// there is no recipient or a primitive failed.
    pub fn encrypt_and_sign(
        &self,
        data: Vec<u8>,
        encryption_keys: Vec<PublicKey>,
        session_key: SessionKey,
        signing_key: PrivateKey,
    ) -> (r: Result<PGPData<Vec<u8>>, CryptoError>)
        ensures
            encrypted_and_signed(
                &self.backend,
                &data,
                encryption_keys@,
                &session_key,
                &signing_key,
                r,
            ),
            encryption_keys@.len() == 0 ==> r is Err,
            match r {
                Ok(out) => out.data_value() is Some && out.signature_value() is None,
                Err(e) => e == CryptoError::Encryption,
            },
    {
        match self.sign_and_seal(&data, &encryption_keys, &session_key, &signing_key, false) {
            Ok(sealed) => Ok(PGPData::of_data(sealed.0)),
            Err(e) => Err(e),
        }
    }

    /// As `encrypt_and_sign`, armored, under the given session key or a
    /// fresh one.
    pub fn encrypt_and_sign_armored(
        &self,
        data: Vec<u8>,
        encryption_keys: Vec<PublicKey>,
        session_key: Option<SessionKey>,
        signing_key: PrivateKey,
    ) -> (r: Result<PGPData<String>, CryptoError>)
        ensures
            encrypted_and_signed_armored(
                &self.backend,
                &data,
                encryption_keys@,
                session_key,
                &signing_key,
                r,
            ),
            encryption_keys@.len() == 0 ==> r is Err,
            match r {
                Ok(out) => out.data_value() is Some && out.signature_value() is None,
                Err(e) => e == CryptoError::Encryption,
            },
    {
        let session_key = Self::session_key_or_fresh(session_key);
        match self.sign_and_seal(&data, &encryption_keys, &session_key, &signing_key, false) {
            Ok(sealed) => Ok(
                PGPData::of_data(self.backend.armor(ArmorKind::Message, &sealed.0)),
            ),
            Err(e) => Err(e),
        }
    }

    /// Signs data and encrypts it for the recipients, with the signature
    /// beside the ciphertext and not in it. The output is both. Fails with
    /// `Encryption` where there is no recipient or a primitive failed.
    pub fn encrypt_and_sign_detached(
        &self,
        data: Vec<u8>,
        encryption_keys: Vec<PublicKey>,
        session_key: SessionKey,
        signing_key: PrivateKey,
    ) -> (r: Result<PGPData<Vec<u8>>, CryptoError>)
        ensures
            encrypted_and_signed_detached(
                &self.backend,
                &data,
                encryption_keys@,
                &session_key,
                &signing_key,
                r,
            ),
            encryption_keys@.len() == 0 ==> r is Err,
            match r {
                Ok(out) => out.data_value() is Some && out.signature_value() is Some,
                Err(e) => e == CryptoError::Encryption,
            },
    {
        match self.sign_and_seal(&data, &encryption_keys, &session_key, &signing_key, true) {
            Ok(sealed) => Ok(PGPData::of_both(sealed.0, sealed.1)),
            Err(e) => Err(e),
        }
    }

    /// As `encrypt_and_sign_detached`, with both outputs armored.
    pub fn encrypt_and_sign_detached_armored(
        &self,
        data: Vec<u8>,
        encryption_keys: Vec<PublicKey>,
        session_key: SessionKey,
        signing_key: PrivateKey,
    ) -> (r: Result<PGPData<String>, CryptoError>)
        ensures
            encrypted_and_signed_detached_armored(
                &self.backend,
                &data,
                encryption_keys@,
                &session_key,
                &signing_key,
                r,
            ),
            encryption_keys@.len() == 0 ==> r is Err,
            match r {
                Ok(out) => out.data_value() is Some && out.signature_value() is Some,
                Err(e) => e == CryptoError::Encryption,
            },
    {
        match self.sign_and_seal(&data, &encryption_keys, &session_key, &signing_key, true) {
            Ok(sealed) => Ok(
                PGPData::of_both(
                    self.backend.armor(ArmorKind::Message, &sealed.0),
                    self.backend.armor(ArmorKind::Signature, &sealed.1),
                ),
            ),
            Err(e) => Err(e),
        }
    }

    /// Encrypts data into an armored message that a password opens. The
    /// output is data only. Fails with `Encryption` where a primitive
    /// failed.
    pub fn encrypt_with_password(&self, data: Vec<u8>, password: String) -> (r: Result<
        PGPData<String>,
        CryptoError,
    >)
        ensures
            encrypted_with_password(&self.backend, &data, &password, r),
            match r {
                Ok(out) => out.data_value() is Some && out.signature_value() is None,
                Err(e) => e == CryptoError::Encryption,
            },
    {
        let session_key = fresh_session_key();
        let unsigned: Vec<u8> = Vec::new();
        match self.backend.wrap_session_key_with_password(&session_key, &password) {
            Some(packet) => {
                match self.backend.encrypt_payload(&data, &unsigned, &session_key) {
                    Some(payload) => {
                        let mut message: Vec<u8> = Vec::new();
                        append_bytes(&mut message, &packet);
                        append_bytes(&mut message, &payload);
                        let text = self.backend.armor(ArmorKind::Message, &message);
                        let out = Ok(PGPData::of_data(text));
                        proof {
                            assert(message@ =~= packet@ + payload@);
                            assert(armored_message(&self.backend, Ok(message), out));
                        }
                        out
                    },
                    None => Err(CryptoError::Encryption),
                }
            },
            None => Err(CryptoError::Encryption),
        }
    }

    /// Signs data with a private key, bound to a context. The output is a
    /// signature only. Fails with `Signature` where the signing failed.
    pub fn sign(&self, data: Vec<u8>, signing_key: PrivateKey, signature_context: String) -> (r:
        Result<PGPData<Vec<u8>>, CryptoError>)
        ensures
            signed_with(&self.backend, &data, &signing_key, signature_context, r),
            match r {
                Ok(out) => out.signature_value() is Some && out.data_value() is None,
                Err(e) => e == CryptoError::Signature,
            },
    {
        let context = Some(signature_context);
        match self.backend.make_signature(&data, &signing_key, &context) {
            Some(signature) => Ok(PGPData::of_signature(signature)),
            None => Err(CryptoError::Signature),
        }
    }

    /// Signs data with each of the signing keys and armors the signatures
    /// as one block. The output is a signature only: the bytes of the
    /// armored text. Fails with `Signature` where there is no signing key or
    /// a signing failed.
    pub fn sign_armored(
        &self,
        data: Vec<u8>,
        signing_key: Either<PrivateKey, Vec<PrivateKey>>,
    ) -> (r: Result<PGPData<Vec<u8>>, CryptoError>)
        ensures
            signed_armored(&self.backend, &data, signing_key.items(), r),
            signing_key.items().len() == 0 ==> r is Err,
            match r {
                Ok(out) => out.signature_value() is Some && out.data_value() is None,
                Err(e) => e == CryptoError::Signature,
            },
    {
        let keys = signing_key.into_vec();
        let parts = self.sign_each(&data, &keys);
        match join_parts(&parts) {
            Some(block) => {
                let text = self.backend.armor(ArmorKind::Signature, &block);
                let bytes = text.as_str().as_bytes_vec();
                proof {
                    assert(armored_as(&self.backend, ArmorKind::Signature, &block, text));
                    assert(bytes@ == vstd::utf8::encode_utf8(text@));
                }
                Ok(PGPData::of_signature(bytes))
            },
            None => Err(CryptoError::Signature),
        }
    }

    /// Asks the backend to sign the data with each key in turn.
    fn sign_each(&self, data: &Vec<u8>, keys: &Vec<PrivateKey>) -> (parts: Vec<Option<Vec<u8>>>)
        ensures
            signed_each(&self.backend, data, keys@, parts@),
    {
        let mut parts: Vec<Option<Vec<u8>>> = Vec::new();
        let n = keys.len();
        let mut i: usize = 0;
        while i < n
            invariant
                i <= n,
                n == keys.len(),
                parts@.len() == i,
                forall|k: int|
                    0 <= k < i ==> call_ensures(
                        B::make_signature,
                        (&self.backend, data, &keys@[k], &None::<String>),
                        #[trigger] parts@[k],
                    ),
            decreases n - i,
        {
            parts.push(self.backend.make_signature(data, &keys[i], &None));
            i += 1;
        }
        parts
    }

    /// Asks each key in turn what it makes of the signature, up to the first
    /// key that validates it and, if `strict`, up to malformed input.
    fn collect_checks(
        &self,
        data: &Vec<u8>,
        signature: &Vec<u8>,
        keys: &Vec<PublicKey>,
        context: &Option<String>,
        strict: bool,
    ) -> (checks: Vec<SignatureCheck>)
        ensures
            checked_in_turn(&self.backend, data, signature, keys@, context, strict, checks@),
            checks@.len() <= keys@.len(),
            checks@.len() < keys@.len() ==> checks@.len() > 0 && (checks@.last() is Valid || (
            strict && checks@.last() is Malformed)),
    {
        let mut checks: Vec<SignatureCheck> = Vec::new();
        let n = keys.len();
        let mut i: usize = 0;
        let mut decided = false;
        while i < n && !decided
            invariant
                i <= n,
                n == keys.len(),
                checks@.len() == i,
                forall|k: int|
                    0 <= k < i ==> call_ensures(
                        B::check_signature,
                        (&self.backend, data, signature, &keys@[k], context),
                        #[trigger] checks@[k],
                    ),
                forall|k: int| 0 <= k < i - 1 ==> undecided(#[trigger] checks@[k], strict),
                i > 0 ==> decided == !undecided(checks@[i - 1], strict),
                decided ==> i > 0 && (checks@.last() is Valid || (strict && checks@.last()
                    is Malformed)),
            decreases n - i,
        {
            let check = self.backend.check_signature(data, signature, &keys[i], context);
            decided = match check {
                SignatureCheck::Valid => true,
                SignatureCheck::Invalid(_) => false,
                SignatureCheck::Malformed => strict,
            };
            checks.push(check);
            i += 1;
        }
        checks
    }

    /// Verifies a signature that stands apart from the data. An empty
    /// signature is no signature, and malformed input is an error.
    fn verify_signature(
        &self,
        data: &Vec<u8>,
        signature: &Vec<u8>,
        keys: &Vec<PublicKey>,
        context: &Option<String>,
    ) -> (r: Result<VerificationResponse, CryptoError>)
        ensures
            signature_verdict(&self.backend, data, signature, keys@, context, r),
            signature@.len() == 0 ==> (r matches Ok(response) && response@ == not_signed(None)),
            match r {
                Ok(response) => response@.data is None && response.well_formed() && (
                signature@.len() > 0 ==> judged(response@, keys@.len() as nat)),
                Err(e) => e == CryptoError::Signature && signature@.len() > 0 && keys@.len() > 0,
            },
    {
        if signature.len() == 0 {
            return Ok(VerificationResponse::unsigned(None));
        }
        let checks = self.collect_checks(data, signature, keys, context, true);
        proof {
            assert(checked_in_turn(&self.backend, data, signature, keys@, context, true, checks@));
            if verdict(checks@, None) is Ok {
                lemma_run_is_judged(checks@, None, keys@.len() as nat);
            }
        }
        VerificationResponse::assess(&checks, None)
    }

    /// Verifies a detached signature over data against the verification
    /// keys, tried in order; the first key that validates it decides. The
    /// status is `NotSigned` exactly when the signature is empty. Fails with
    /// `Signature` where the signature is malformed.
    pub fn verify(
        &self,
        data: Vec<u8>,
        signature: Vec<u8>,
        verification_keys: Either<PublicKey, Vec<PublicKey>>,
    ) -> (r: Result<VerificationResponse, CryptoError>)
        ensures
            signature_verdict(
                &self.backend,
                &data,
                &signature,
                verification_keys.items(),
                &None::<String>,
                r,
            ),
            signature@.len() == 0 ==> (r matches Ok(response) && response@ == not_signed(None)),
            match r {
                Ok(response) => response@.data is None && response.well_formed() && (
                signature@.len() > 0 ==> judged(response@, verification_keys.items().len())),
                Err(e) => e == CryptoError::Signature && verification_keys.items().len() > 0,
            },
    {
        let keys = verification_keys.into_vec();
        self.verify_signature(&data, &signature, &keys, &None)
    }

    /// As `verify`, for an armored signature and with an optional context.
    /// The status is `NotSigned` where the text is empty or armors no
    /// packets. Fails with `Signature` where the text is no armored block or
    /// the signature in it is malformed.
    pub fn verify_armored(
        &self,
        data: Vec<u8>,
        signature: String,
        verification_keys: Either<PublicKey, Vec<PublicKey>>,
        signature_context: Option<String>,
    ) -> (r: Result<VerificationResponse, CryptoError>)
        ensures
            armored_verdict(
                &self.backend,
                &data,
                &signature,
                verification_keys.items(),
                &signature_context,
                r,
            ),
            signature@.len() == 0 ==> (r matches Ok(response) && response@ == not_signed(None)),
            match r {
                Ok(response) => response@.data is None && response.well_formed() && (
                response@ == not_signed(None) || judged(
                    response@,
                    verification_keys.items().len(),
                )),
                Err(e) => e == CryptoError::Signature && signature@.len() > 0,
            },
    {
        if signature.as_str().is_empty() {
            return Ok(VerificationResponse::unsigned(None));
        }
        let keys = verification_keys.into_vec();
        match self.backend.dearmor(&signature) {
            Some(packets) => self.verify_signature(&data, &packets, &keys, &signature_context),
            None => Err(CryptoError::Signature),
        }
    }

    /// Tries each key in turn on the packets, up to the first that unwraps a
    /// session key.
    fn try_unwrap(&self, packets: &Vec<u8>, keys: &Vec<PrivateKey>) -> (outcomes: Vec<
        Option<SessionKey>,
    >)
        ensures
            unwrapped_in_turn(&self.backend, packets, keys@, outcomes@),
    {
        let mut outcomes: Vec<Option<SessionKey>> = Vec::new();
        let n = keys.len();
        let mut i: usize = 0;
        let mut found = false;
        while i < n && !found
            invariant
                i <= n,
                n == keys.len(),
                outcomes@.len() == i,
                forall|k: int|
                    0 <= k < i ==> call_ensures(
                        B::unwrap_session_key,
                        (&self.backend, packets, &keys@[k]),
                        #[trigger] outcomes@[k],
                    ),
                forall|k: int| 0 <= k < i - 1 ==> (#[trigger] outcomes@[k]) is None,
                !found && i > 0 ==> outcomes@[i - 1] is None,
                found ==> i > 0 && outcomes@[i - 1] is Some,
            decreases n - i,
        {
            let outcome = self.backend.unwrap_session_key(packets, &keys[i]);
            found = outcome.is_some();
            outcomes.push(outcome);
            i += 1;
        }
        outcomes
    }

    fn unwrap_with(&self, packets: &Vec<u8>, keys: &Vec<PrivateKey>) -> (r: Result<
        SessionKey,
        CryptoError,
    >)
        ensures
            unwrapped_by(&self.backend, packets, keys@, r),
            keys@.len() == 0 ==> r is Err,
            r matches Err(e) ==> e == CryptoError::Decryption,
    {
        let outcomes = self.try_unwrap(packets, keys);
        let r = first_unwrapped(&outcomes);
        proof {
            if keys@.len() == 0 {
                assert(unwrapped_models(outcomes@).len() == 0);
            }
        }
        r
    }

    /// Recovers the session key from a key packet with the decryption keys,
    /// tried in order; the first key that unwraps the packet decides. Fails
    /// with `Decryption` where no key unwraps it.
    pub fn decrypt_session_key(
        &self,
        data: Vec<u8>,
        decryption_keys: Either<PrivateKey, Vec<PrivateKey>>,
    ) -> (r: Result<SessionKey, CryptoError>)
        ensures
            unwrapped_by(&self.backend, &data, decryption_keys.items(), r),
            decryption_keys.items().len() == 0 ==> r is Err,
            r matches Err(e) ==> e == CryptoError::Decryption,
    {
        let keys = decryption_keys.into_vec();
        self.unwrap_with(&data, &keys)
    }

    /// As `decrypt_session_key`, for an armored key packet. Fails with
    /// `Decryption` also where the text is no armored block.
    pub fn decrypt_armored_session_key(
        &self,
        data: String,
        decryption_keys: Either<PrivateKey, Vec<PrivateKey>>,
    ) -> (r: Result<SessionKey, CryptoError>)
        ensures
            unwrapped_armored_by(&self.backend, &data, decryption_keys.items(), r),
            decryption_keys.items().len() == 0 ==> r is Err,
            r matches Err(e) ==> e == CryptoError::Decryption,
    {
        let keys = decryption_keys.into_vec();
        match self.backend.dearmor(&data) {
            Some(packets) => self.unwrap_with(&packets, &keys),
            None => Err(CryptoError::Decryption),
        }
    }

    /// Decrypts a message under a session key and verifies the signature on
    /// the plaintext: the detached one if `detached` holds one, else the one
    /// embedded in the message.
    fn open_and_verify(
        &self,
        packets: &Vec<u8>,
        session_key: &SessionKey,
        detached: Option<Vec<u8>>,
        keys: &Vec<PublicKey>,
    ) -> (r: Result<VerificationResponse, CryptoError>)
        ensures
            opened_and_verified(&self.backend, packets, session_key, detached, keys@, r),
            match r {
                Ok(response) => {
                    &&& response@.data is Some
                    &&& response.well_formed()
                    &&& match detached {
                        Some(signature) => if signature@.len() == 0 {
                            response@ == not_signed(response@.data)
                        } else {
                            judged(response@, keys@.len() as nat)
                        },
                        None => response@ == not_signed(response@.data) || judged(
                            response@,
                            keys@.len() as nat,
                        ),
                    }
                },
                Err(e) => e == CryptoError::Decryption,
            },
    {
        match self.backend.decrypt_payload(packets, session_key) {
            Some(opened) => {
                let Opened { data, signature: embedded } = opened;
                let signature = match detached {
                    Some(signature) => signature,
                    None => embedded,
                };
                if signature.len() == 0 {
                    let unchecked: Vec<SignatureCheck> = Vec::new();
                    Ok(VerificationResponse::of_plaintext(data, false, &unchecked))
                } else {
                    let checks = self.collect_checks(&data, &signature, keys, &None, false);
                    proof {
                        lemma_lenient_verdict(checks@, Some(data@));
                        lemma_run_is_judged(lenient(checks@), Some(data@), keys@.len() as nat);
                    }
                    Ok(VerificationResponse::of_plaintext(data, true, &checks))
                }
            },
            None => Err(CryptoError::Decryption),
        }
    }

    /// Decrypts a message under a session key and verifies the signature
    /// embedded in it. A failed decryption is fatal: `Decryption`, and no
    /// plaintext. A failed verification is not: it shows in the status and
    /// the errors, and the plaintext is returned.
    pub fn decrypt_and_verify(
        &self,
        data: Vec<u8>,
        session_key: SessionKey,
        verification_keys: Either<PublicKey, Vec<PublicKey>>,
    ) -> (r: Result<VerificationResponse, CryptoError>)
        ensures
            opened_and_verified(
                &self.backend,
                &data,
                &session_key,
                None,
                verification_keys.items(),
                r,
            ),
            match r {
                Ok(response) => response@.data is Some && response.well_formed() && (response@
                    == not_signed(response@.data) || judged(
                    response@,
                    verification_keys.items().len(),
                )),
                Err(e) => e == CryptoError::Decryption,
            },
    {
        let keys = verification_keys.into_vec();
        self.open_and_verify(&data, &session_key, None, &keys)
    }

    /// Decrypts a message under a session key and verifies a signature that
    /// stands beside it. Without a signature, or with an empty one, the
    /// status is `NotSigned`; with a signature and no verification keys it
    /// is `SignedAndInvalid`. A failed decryption is fatal, a failed
    /// verification is not.
    pub fn decrypt_and_verify_detached(
        &self,
        data: Vec<u8>,
        signature: Option<Vec<u8>>,
        session_key: SessionKey,
        verification_keys: Option<Either<PublicKey, Vec<PublicKey>>>,
    ) -> (r: Result<VerificationResponse, CryptoError>)
        ensures
            opened_and_verified_detached(
                &self.backend,
                &data,
                &session_key,
                signature,
                optional_items(verification_keys),
                r,
            ),
            match r {
                Ok(response) => response@.data is Some && response.well_formed() && (if signature
                    is None || signature->Some_0@.len() == 0 {
                    response@ == not_signed(response@.data)
                } else {
                    judged(response@, optional_items(verification_keys).len())
                }),
                Err(e) => e == CryptoError::Decryption,
            },
    {
        let keys = match verification_keys {
            Some(keys) => keys.into_vec(),
            None => Vec::new(),
        };
        let detached = match signature {
            Some(signature) => signature,
            None => Vec::new(),
        };
        self.open_and_verify(&data, &session_key, Some(detached), &keys)
    }

    /// Decrypts an armored message with the decryption keys, tried in
    /// order. Fails with `Decryption` where the text is no armored block, no
    /// key unwraps the session key, or the data does not decrypt.
    pub fn decrypt_armored(
        &self,
        data: String,
        decryption_keys: Either<PrivateKey, Vec<PrivateKey>>,
    ) -> (r: Result<Vec<u8>, CryptoError>)
        ensures
            opened_armored(&self.backend, &data, decryption_keys.items(), r),
            decryption_keys.items().len() == 0 ==> r is Err,
            r matches Err(e) ==> e == CryptoError::Decryption,
    {
        let keys = decryption_keys.into_vec();
        match self.backend.dearmor(&data) {
            Some(packets) => {
                match self.unwrap_with(&packets, &keys) {
                    Ok(session_key) => {
                        match self.backend.decrypt_payload(&packets, &session_key) {
                            Some(opened) => Ok(opened.data),
                            None => Err(CryptoError::Decryption),
                        }
                    },
                    Err(e) => Err(e),
                }
            },
            None => Err(CryptoError::Decryption),
        }
    }

    /// Decrypts an armored message with the decryption keys and verifies
    /// the signature embedded in it. A failed decryption is fatal, a failed
    /// verification is not.
    pub fn decrypt_armored_and_verify(
        &self,
        data: String,
        decryption_keys: Either<PrivateKey, Vec<PrivateKey>>,
        verification_keys: Either<PublicKey, Vec<PublicKey>>,
    ) -> (r: Result<VerificationResponse, CryptoError>)
        ensures
            opened_armored_and_verified(
                &self.backend,
                &data,
                decryption_keys.items(),
                verification_keys.items(),
                r,
            ),
            decryption_keys.items().len() == 0 ==> r is Err,
            match r {
                Ok(response) => response@.data is Some && response.well_formed() && (response@
                    == not_signed(response@.data) || judged(
                    response@,
                    verification_keys.items().len(),
                )),
                Err(e) => e == CryptoError::Decryption,
            },
    {
        let decryption_keys = decryption_keys.into_vec();
        let keys = verification_keys.into_vec();
        match self.backend.dearmor(&data) {
            Some(packets) => {
                match self.unwrap_with(&packets, &decryption_keys) {
                    Ok(session_key) => self.open_and_verify(&packets, &session_key, None, &keys),
                    Err(e) => Err(e),
                }
            },
            None => Err(CryptoError::Decryption),
        }
    }

    /// As `decrypt_and_verify_detached`, for an armored message. Fails with
    /// `Decryption` also where the text is no armored block.
    pub fn decrypt_armored_and_verify_detached(
        &self,
        data: String,
        signature: Option<Vec<u8>>,
        session_key: SessionKey,
        verification_keys: Either<PublicKey, Vec<PublicKey>>,
    ) -> (r: Result<VerificationResponse, CryptoError>)
        ensures
            opened_armored_and_verified_detached(
                &self.backend,
                &data,
                &session_key,
                signature,
                verification_keys.items(),
                r,
            ),
            match r {
                Ok(response) => response@.data is Some && response.well_formed() && (if signature
                    is None || signature->Some_0@.len() == 0 {
                    response@ == not_signed(response@.data)
                } else {
                    judged(response@, verification_keys.items().len())
                }),
                Err(e) => e == CryptoError::Decryption,
            },
    {
        let keys = verification_keys.into_vec();
        let detached = match signature {
            Some(signature) => signature,
            None => Vec::new(),
        };
        match self.backend.dearmor(&data) {
            Some(packets) => self.open_and_verify(&packets, &session_key, Some(detached), &keys),
            None => Err(CryptoError::Decryption),
        }
    }

    /// Decrypts an armored message with a password. Fails with `Decryption`
    /// where the text is no armored block, the password does not unwrap the
    /// session key, or the data does not decrypt.
    pub fn decrypt_armored_with_password(&self, data: String, password: String) -> (r: Result<
        Vec<u8>,
        CryptoError,
    >)
        ensures
            opened_with_password(&self.backend, &data, &password, r),
            r matches Err(e) ==> e == CryptoError::Decryption,
    {
        match self.backend.dearmor(&data) {
            Some(packets) => {
                match self.backend.unwrap_session_key_with_password(&packets, &password) {
                    Some(session_key) => {
                        match self.backend.decrypt_payload(&packets, &session_key) {
                            Some(opened) => Ok(opened.data),
                            None => Err(CryptoError::Decryption),
                        }
                    },
                    None => Err(CryptoError::Decryption),
                }
            },
            None => Err(CryptoError::Decryption),
        }
    }
}

/// A random session key for the default algorithms.
fn fresh_session_key() -> (r: SessionKey)
    ensures
        r@.algorithm == SESSION_KEY_ALGORITHM@,
        r@.aead_algorithm == SESSION_KEY_AEAD@,
        r@.data.len() == SESSION_KEY_BYTES,
{
    let data = random_bytes(SESSION_KEY_BYTES);
    let algorithm = String::from_str(SESSION_KEY_ALGORITHM);
    let aead_algorithm = String::from_str(SESSION_KEY_AEAD);
    proof {
        lemma_session_key_algorithm();
    }
    match SessionKey::new(data, algorithm, aead_algorithm) {
        Some(key) => key,
        None => vstd::pervasive::unreached(),
    }
}

} // verus!
