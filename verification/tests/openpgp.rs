use base64::Engine;
use drive_sdk::crypto::backend::{ArmorKind, CryptoBackend, KeyUnlock, Opened};
use drive_sdk::crypto::error::CryptoError;
use drive_sdk::crypto::interface::{
    HashAlgorithm, Key, KeyAlgorithm, KeyInfo, PrivateKey, PublicKey, SessionKey, SubKeyRecord,
};
use drive_sdk::crypto::openpgp::{
    first_unwrapped, join_parts, join_wrapped, outcome_or, passphrase_from, unlocked,
    GeneratedKey, KeyPacket, OpenPGPCrypto, PGPData,
};
use drive_sdk::crypto::verification::{
    forgive, SignatureCheck, VerificationResponse, VerificationStatus,
};
use drive_sdk::crypto::random::random_bytes;
use drive_sdk::utils::either::Either;
use drive_sdk::utils::timestamp::Timestamp;

// A stand-in for an OpenPGP implementation. It frames packets as a tag, a
// length and a body, and "encrypts" by masking with bytes derived from the
// key. It is of no cryptographic value: it lets the engine be run.

const TAG_WRAPPED: u8 = 1;
const TAG_SIGNATURE: u8 = 2;
const TAG_PASSWORD: u8 = 3;
const TAG_SECRET: u8 = 5;
const TAG_DATA: u8 = 18;

fn mix(parts: &[&[u8]]) -> Vec<u8> {
    let mut h: u64 = 0xcbf2_9ce4_8422_2325;
    for part in parts {
        for b in part.iter() {
            h ^= *b as u64;
            h = h.wrapping_mul(0x0000_0100_0000_01b3);
        }
        h ^= 0xff;
        h = h.wrapping_mul(0x0000_0100_0000_01b3);
    }
    h.to_be_bytes().to_vec()
}

fn mask(key: &[u8], data: &[u8]) -> Vec<u8> {
    let pad = mix(&[key]);
    data.iter().enumerate().map(|(i, b)| b ^ pad[i % pad.len()] ^ (i as u8)).collect()
}

fn frame(tag: u8, body: &[u8]) -> Vec<u8> {
    let mut out = vec![tag];
    out.extend_from_slice(&(body.len() as u32).to_be_bytes());
    out.extend_from_slice(body);
    out
}

fn unframe(bytes: &[u8]) -> Option<Vec<(u8, Vec<u8>)>> {
    let mut packets = Vec::new();
    let mut at = 0;
    while at < bytes.len() {
        if bytes.len() - at < 5 {
            return None;
        }
        let tag = bytes[at];
        let len = u32::from_be_bytes([bytes[at + 1], bytes[at + 2], bytes[at + 3], bytes[at + 4]])
            as usize;
        at += 5;
        if bytes.len() - at < len {
            return None;
        }
        packets.push((tag, bytes[at..at + len].to_vec()));
        at += len;
    }
    Some(packets)
}

fn put(field: &[u8], out: &mut Vec<u8>) {
    out.extend_from_slice(&(field.len() as u32).to_be_bytes());
    out.extend_from_slice(field);
}

fn take(body: &[u8], at: &mut usize) -> Option<Vec<u8>> {
    if body.len() < *at + 4 {
        return None;
    }
    let len =
        u32::from_be_bytes([body[*at], body[*at + 1], body[*at + 2], body[*at + 3]]) as usize;
    *at += 4;
    if body.len() < *at + len {
        return None;
    }
    let field = body[*at..*at + len].to_vec();
    *at += len;
    Some(field)
}

fn secret_of(material: &[u8]) -> Vec<u8> {
    mix(&[b"secret", material])
}

fn session_bytes(key: &SessionKey) -> Vec<u8> {
    let mut out = Vec::new();
    put(key.algorithm().as_bytes(), &mut out);
    put(key.aead_algorithm().as_bytes(), &mut out);
    put(key.data(), &mut out);
    out
}

fn session_from(bytes: &[u8]) -> Option<SessionKey> {
    let mut at = 0;
    let algorithm = String::from_utf8(take(bytes, &mut at)?).ok()?;
    let aead = String::from_utf8(take(bytes, &mut at)?).ok()?;
    let data = take(bytes, &mut at)?;
    SessionKey::new(data, algorithm, aead)
}

fn kind_name(kind: ArmorKind) -> &'static str {
    match kind {
        ArmorKind::Message => "MESSAGE",
        ArmorKind::Signature => "SIGNATURE",
        ArmorKind::PublicKey => "PUBLIC KEY BLOCK",
        ArmorKind::PrivateKey => "PRIVATE KEY BLOCK",
    }
}

fn info(name: &str) -> KeyInfo {
    KeyInfo {
        version: 4,
        fingerprint: format!("fingerprint-of-{}", name),
        sha256_fingerprints: vec![format!("sha256-of-{}-sub", name)],
        key_id: format!("id-of-{}", name),
        subkeys: vec![SubKeyRecord {
            algorithm_info: String::from("x25519"),
            key_id: format!("id-of-{}-sub", name),
        }],
        creation_time: Timestamp::from_seconds(1_700_000_000),
        expiration_time: None,
        user_ids: vec![format!("{}@example.org", name)],
        algorithm: KeyAlgorithm::Curve25519,
        bits: 256,
        binding_hash: HashAlgorithm::Sha256,
    }
}

fn private_key(name: &str) -> PrivateKey {
    PrivateKey::new(info(name), name.as_bytes().to_vec(), secret_of(name.as_bytes())).unwrap()
}

fn public_key(name: &str) -> PublicKey {
    private_key(name).to_public()
}

fn session_key(fill: u8) -> SessionKey {
    SessionKey::new(vec![fill; 32], String::from("aes256"), String::from("gcm")).unwrap()
}

struct Toy;

impl CryptoBackend for Toy {
    fn generate_key(&self, passphrase: &String) -> Option<GeneratedKey> {
        let name: String = random_bytes(8).iter().map(|b| format!("{:02x}", b)).collect();
        let key = private_key(&name);
        let mut body = mix(&[b"lock", passphrase.as_bytes()]);
        body.extend_from_slice(&mask(passphrase.as_bytes(), name.as_bytes()));
        let armored_key = self.armor(ArmorKind::PrivateKey, &frame(TAG_SECRET, &body));
        Some(GeneratedKey { key, armored_key })
    }

    fn unlock_key(&self, armored_key: &String, passphrase: &String) -> KeyUnlock {
        let packets = match self.dearmor(armored_key).and_then(|bytes| unframe(&bytes)) {
            Some(packets) => packets,
            None => return KeyUnlock::Malformed,
        };
        match packets.iter().find(|(tag, body)| *tag == TAG_SECRET && body.len() > 8) {
            Some((_, body)) => {
                if body[..8] != mix(&[b"lock", passphrase.as_bytes()])[..] {
                    return KeyUnlock::WrongPassphrase;
                }
                match String::from_utf8(mask(passphrase.as_bytes(), &body[8..])) {
                    Ok(name) => KeyUnlock::Unlocked(private_key(&name)),
                    Err(_) => KeyUnlock::Malformed,
                }
            }
            None => KeyUnlock::Malformed,
        }
    }

    fn wrap_session_key(&self, session_key: &SessionKey, recipient: &PublicKey) -> Option<Vec<u8>> {
        if recipient.is_weak() {
            return None;
        }
        let mut body = Vec::new();
        put(recipient.material(), &mut body);
        let plain = session_bytes(session_key);
        put(&mix(&[&plain]), &mut body);
        put(&mask(&secret_of(recipient.material()), &plain), &mut body);
        Some(frame(TAG_WRAPPED, &body))
    }

    fn wrap_session_key_with_password(
        &self,
        session_key: &SessionKey,
        password: &String,
    ) -> Option<Vec<u8>> {
        let mut body = Vec::new();
        let plain = session_bytes(session_key);
        put(&mix(&[b"password", password.as_bytes()]), &mut body);
        put(&mask(password.as_bytes(), &plain), &mut body);
        Some(frame(TAG_PASSWORD, &body))
    }

    fn unwrap_session_key(&self, packets: &Vec<u8>, key: &PrivateKey) -> Option<SessionKey> {
        if key.secret()[..] != secret_of(key.material())[..] {
            return None;
        }
        for (tag, body) in unframe(packets)? {
            if tag != TAG_WRAPPED {
                continue;
            }
            let mut at = 0;
            let recipient = take(&body, &mut at)?;
            let check = take(&body, &mut at)?;
            let masked = take(&body, &mut at)?;
            if recipient[..] != key.material()[..] {
                continue;
            }
            let plain = mask(key.secret(), &masked);
            if mix(&[&plain]) != check {
                return None;
            }
            return session_from(&plain);
        }
        None
    }

    fn unwrap_session_key_with_password(
        &self,
        packets: &Vec<u8>,
        password: &String,
    ) -> Option<SessionKey> {
        for (tag, body) in unframe(packets)? {
            if tag != TAG_PASSWORD {
                continue;
            }
            let mut at = 0;
            let check = take(&body, &mut at)?;
            let masked = take(&body, &mut at)?;
            if check != mix(&[b"password", password.as_bytes()]) {
                return None;
            }
            return session_from(&mask(password.as_bytes(), &masked));
        }
        None
    }

    fn encrypt_payload(
        &self,
        data: &Vec<u8>,
        signature: &Vec<u8>,
        session_key: &SessionKey,
    ) -> Option<Vec<u8>> {
        let mut plain = Vec::new();
        put(signature, &mut plain);
        put(data, &mut plain);
        let mut body = Vec::new();
        put(&mix(&[b"data", session_key.data()]), &mut body);
        put(&mask(session_key.data(), &plain), &mut body);
        Some(frame(TAG_DATA, &body))
    }

    fn decrypt_payload(&self, packets: &Vec<u8>, session_key: &SessionKey) -> Option<Opened> {
        for (tag, body) in unframe(packets)? {
            if tag != TAG_DATA {
                continue;
            }
            let mut at = 0;
            let check = take(&body, &mut at)?;
            let masked = take(&body, &mut at)?;
            if check != mix(&[b"data", session_key.data()]) {
                return None;
            }
            let plain = mask(session_key.data(), &masked);
            let mut at = 0;
            let signature = take(&plain, &mut at)?;
            let data = take(&plain, &mut at)?;
            return Some(Opened { data, signature });
        }
        None
    }

    fn make_signature(
        &self,
        data: &Vec<u8>,
        signing_key: &PrivateKey,
        context: &Option<String>,
    ) -> Option<Vec<u8>> {
        let context = context.clone().unwrap_or_default();
        let mut body = Vec::new();
        put(signing_key.material(), &mut body);
        put(context.as_bytes(), &mut body);
        put(&mix(&[signing_key.secret(), data, context.as_bytes()]), &mut body);
        Some(frame(TAG_SIGNATURE, &body))
    }

    fn check_signature(
        &self,
        data: &Vec<u8>,
        signature: &Vec<u8>,
        key: &PublicKey,
        context: &Option<String>,
    ) -> SignatureCheck {
        let packets = match unframe(signature) {
            Some(packets) => packets,
            None => return SignatureCheck::Malformed,
        };
        if packets.iter().all(|(tag, _)| *tag != TAG_SIGNATURE) {
            return SignatureCheck::Malformed;
        }
        let mut outcome = SignatureCheck::Invalid(CryptoError::KeyParse);
        for (tag, body) in packets {
            if tag != TAG_SIGNATURE {
                continue;
            }
            let mut at = 0;
            let fields = (take(&body, &mut at), take(&body, &mut at), take(&body, &mut at));
            let (signer, made_with, seal) = match fields {
                (Some(signer), Some(made_with), Some(seal)) => (signer, made_with, seal),
                _ => return SignatureCheck::Malformed,
            };
            if signer[..] != key.material()[..] {
                continue;
            }
            let asked = context.as_ref().map_or(true, |c| c.as_bytes() == &made_with[..]);
            if asked && seal == mix(&[&secret_of(key.material()), data, &made_with]) {
                return SignatureCheck::Valid;
            }
            outcome = SignatureCheck::Invalid(CryptoError::Signature);
        }
        outcome
    }

    fn armor(&self, kind: ArmorKind, packets: &Vec<u8>) -> String {
        format!(
            "-----BEGIN PGP {}-----\n\n{}\n-----END PGP {}-----\n",
            kind_name(kind),
            base64::prelude::BASE64_STANDARD.encode(packets),
            kind_name(kind)
        )
    }

    fn dearmor(&self, text: &String) -> Option<Vec<u8>> {
        let mut lines = text.lines();
        let first = lines.next()?;
        if !first.starts_with("-----BEGIN PGP ") || lines.next()? != "" {
            return None;
        }
        let payload = lines.next()?;
        if !lines.next()?.starts_with("-----END PGP ") {
            return None;
        }
        base64::prelude::BASE64_STANDARD.decode(payload).ok()
    }
}

fn engine() -> OpenPGPCrypto<Toy> {
    OpenPGPCrypto::new(Toy)
}

fn one<T>(item: T) -> Either<T, Vec<T>> {
    Either::Left(item)
}

fn many<T>(items: Vec<T>) -> Either<T, Vec<T>> {
    Either::Right(items)
}

fn text(data: &PGPData<String>) -> String {
    data.data().clone().unwrap()
}

#[test]
fn passphrase_decodes_to_32_bytes() {
    let passphrase = engine().generate_passphrase();
    assert_eq!(passphrase.len(), 44);
    let bytes = base64::prelude::BASE64_STANDARD.decode(&passphrase).unwrap();
    assert_eq!(bytes.len(), 32);
}

#[test]
fn passphrases_differ() {
    let e = engine();
    let mut seen: Vec<String> = Vec::new();
    for _ in 0..200 {
        let passphrase = e.generate_passphrase();
        assert!(!seen.contains(&passphrase));
        seen.push(passphrase);
    }
}

#[test]
fn passphrase_from_is_standard_base64() {
    assert_eq!(passphrase_from(&b"some bytes".to_vec()), "c29tZSBieXRlcw==");
    assert_eq!(passphrase_from(&b"hello world~".to_vec()), "aGVsbG8gd29ybGR+");
    assert_eq!(passphrase_from(&Vec::new()), "");
    assert_eq!(
        passphrase_from(&vec![0u8; 32]),
        "AAAAAAAAAAAAAAAAAAAAAAAAAAAAAAAAAAAAAAAAAAA="
    );
}

#[test]
fn random_bytes_have_the_length_asked_and_are_filled() {
    assert_eq!(random_bytes(0).len(), 0);
    assert_eq!(random_bytes(7).len(), 7);
    let bytes = random_bytes(32);
    assert_eq!(bytes.len(), 32);
    assert!(bytes.iter().any(|b| *b != 0));
    assert_ne!(bytes, random_bytes(32));
}

#[test]
fn generated_session_key_is_aes256() {
    let key = engine().generate_session_key(vec![private_key("alice")]);
    assert_eq!(key.algorithm(), "aes256");
    assert_eq!(key.aead_algorithm(), "gcm");
    assert_eq!(key.data().len(), 32);
    let other = engine().generate_session_key(Vec::new());
    assert_ne!(key.data(), other.data());
}

#[test]
fn round_trip_armored() {
    let e = engine();
    for data in [Vec::new(), b"x".to_vec(), b"the quick brown fox".to_vec(), vec![0u8; 1000]] {
        let sealed = e.encrypt_armored(data.clone(), vec![public_key("alice")], None).unwrap();
        assert!(sealed.signature().is_none());
        let armored = text(&sealed);
        assert!(armored.starts_with("-----BEGIN PGP MESSAGE-----"));
        let opened = e.decrypt_armored(armored, one(private_key("alice"))).unwrap();
        assert_eq!(opened, data);
    }
}

#[test]
fn round_trip_with_given_session_key() {
    let e = engine();
    let sealed = e
        .encrypt_armored(b"payload".to_vec(), vec![public_key("alice")], Some(session_key(9)))
        .unwrap();
    let armored = text(&sealed);
    let key = e.decrypt_armored_session_key(armored.clone(), one(private_key("alice"))).unwrap();
    assert_eq!(key.data(), &vec![9u8; 32]);
    assert_eq!(e.decrypt_armored(armored, one(private_key("alice"))).unwrap(), b"payload".to_vec());
}

#[test]
fn decrypt_with_wrong_key_fails() {
    let e = engine();
    let sealed = e.encrypt_armored(b"payload".to_vec(), vec![public_key("alice")], None).unwrap();
    let r = e.decrypt_armored(text(&sealed), one(private_key("mallory")));
    assert_eq!(r, Err(CryptoError::Decryption));
}

#[test]
fn decrypt_without_keys_fails() {
    let e = engine();
    let sealed = e.encrypt_armored(b"payload".to_vec(), vec![public_key("alice")], None).unwrap();
    assert_eq!(e.decrypt_armored(text(&sealed), many(Vec::new())), Err(CryptoError::Decryption));
}

#[test]
fn decrypt_of_garbage_fails() {
    let e = engine();
    let r = e.decrypt_armored(String::from("not armored"), one(private_key("alice")));
    assert_eq!(r, Err(CryptoError::Decryption));
    let r = e.decrypt_armored_session_key(String::from("not armored"), one(private_key("alice")));
    assert!(matches!(r, Err(CryptoError::Decryption)));
    let r = e.decrypt_armored_with_password(String::from("not armored"), String::from("pw"));
    assert_eq!(r, Err(CryptoError::Decryption));
}

#[test]
fn encrypt_without_recipients_fails() {
    let e = engine();
    assert!(matches!(
        e.encrypt_armored(b"payload".to_vec(), Vec::new(), None),
        Err(CryptoError::Encryption)
    ));
    assert!(matches!(
        e.encrypt_session_key(session_key(1), many(Vec::new())),
        Err(CryptoError::Encryption)
    ));
    assert!(matches!(
        e.encrypt_and_sign(b"p".to_vec(), Vec::new(), session_key(1), private_key("alice")),
        Err(CryptoError::Encryption)
    ));
}

#[test]
fn encrypt_for_a_refused_recipient_fails() {
    let mut weak = info("weak");
    weak.binding_hash = HashAlgorithm::Sha1;
    let weak = PublicKey::new(weak, b"weak".to_vec()).unwrap();
    let r = engine().encrypt_session_key(session_key(1), many(vec![public_key("alice"), weak]));
    assert!(matches!(r, Err(CryptoError::Encryption)));
}

#[test]
fn session_key_for_two_recipients() {
    let e = engine();
    let packet = e
        .encrypt_session_key(session_key(5), many(vec![public_key("alice"), public_key("bob")]))
        .unwrap();
    let bytes = packet.into_bytes();
    let for_alice = e.decrypt_session_key(bytes.clone(), one(private_key("alice"))).unwrap();
    assert_eq!(for_alice.data(), &vec![5u8; 32]);
    assert_eq!(for_alice.algorithm(), "aes256");
    let for_bob = e.decrypt_session_key(bytes.clone(), one(private_key("bob"))).unwrap();
    assert_eq!(for_bob.data(), &vec![5u8; 32]);
    let for_both = e
        .decrypt_session_key(bytes.clone(), many(vec![private_key("carol"), private_key("bob")]))
        .unwrap();
    assert_eq!(for_both.data(), &vec![5u8; 32]);
    assert!(matches!(
        e.decrypt_session_key(bytes.clone(), one(private_key("carol"))),
        Err(CryptoError::Decryption)
    ));
    assert!(matches!(
        e.decrypt_session_key(bytes, many(Vec::new())),
        Err(CryptoError::Decryption)
    ));
}

#[test]
fn session_key_packet_is_the_parts_in_order() {
    let e = engine();
    let packet = e
        .encrypt_session_key(session_key(5), many(vec![public_key("alice"), public_key("bob")]))
        .unwrap();
    let mut expected = Toy.wrap_session_key(&session_key(5), &public_key("alice")).unwrap();
    expected.extend(Toy.wrap_session_key(&session_key(5), &public_key("bob")).unwrap());
    assert_eq!(packet.as_bytes(), &expected);
    let single = e.encrypt_session_key(session_key(5), one(public_key("bob"))).unwrap();
    assert_eq!(
        single.into_bytes(),
        Toy.wrap_session_key(&session_key(5), &public_key("bob")).unwrap()
    );
}

#[test]
fn password_round_trip() {
    let e = engine();
    let sealed = e.encrypt_with_password(b"secret text".to_vec(), String::from("pw")).unwrap();
    assert!(sealed.signature().is_none());
    let armored = text(&sealed);
    assert_eq!(
        e.decrypt_armored_with_password(armored.clone(), String::from("pw")),
        Ok(b"secret text".to_vec())
    );
    assert_eq!(
        e.decrypt_armored_with_password(armored, String::from("wrong")),
        Err(CryptoError::Decryption)
    );
}

#[test]
fn session_key_with_password() {
    let e = engine();
    let packet = e.encrypt_session_key_with_password(session_key(3), String::from("pw")).unwrap();
    let key = Toy.unwrap_session_key_with_password(packet.as_bytes(), &String::from("pw")).unwrap();
    assert_eq!(key.data(), &vec![3u8; 32]);
}

#[test]
fn sign_then_verify() {
    let e = engine();
    let data = b"signed data".to_vec();
    let signed = e.sign(data.clone(), private_key("alice"), String::from("drive.node")).unwrap();
    assert!(signed.data().is_none());
    let signature = signed.signature().clone().unwrap();
    let response = e.verify(data, signature, many(vec![public_key("alice")])).unwrap();
    assert_eq!(response.verified, VerificationStatus::SignedAndValid);
    assert_eq!(response.data, None);
    assert_eq!(response.errors, None);
}

#[test]
fn tampered_data_is_invalid() {
    let e = engine();
    let data = b"signed data".to_vec();
    let signed = e.sign(data.clone(), private_key("alice"), String::from("")).unwrap();
    let signature = signed.signature().clone().unwrap();
    for i in 0..data.len() {
        let mut tampered = data.clone();
        tampered[i] ^= 1;
        let response =
            e.verify(tampered, signature.clone(), many(vec![public_key("alice")])).unwrap();
        assert_eq!(response.verified, VerificationStatus::SignedAndInvalid);
        assert_eq!(response.errors, Some(vec![CryptoError::Signature]));
    }
}

#[test]
fn tampered_signature_is_invalid() {
    let e = engine();
    let data = b"signed data".to_vec();
    let signed = e.sign(data.clone(), private_key("alice"), String::from("")).unwrap();
    let signature = signed.signature().clone().unwrap();
    let last = signature.len() - 1;
    let mut tampered = signature.clone();
    tampered[last] ^= 1;
    let response = e.verify(data, tampered, one(public_key("alice"))).unwrap();
    assert_eq!(response.verified, VerificationStatus::SignedAndInvalid);
    assert_eq!(response.data, None);
}

#[test]
fn malformed_signature_is_an_error() {
    let e = engine();
    let r = e.verify(b"data".to_vec(), vec![1, 2, 3], one(public_key("alice")));
    assert!(matches!(r, Err(CryptoError::Signature)));
    let r = e.verify_armored(
        b"data".to_vec(),
        String::from("no armor"),
        one(public_key("alice")),
        None,
    );
    assert!(matches!(r, Err(CryptoError::Signature)));
}

#[test]
fn empty_signature_is_not_signed() {
    let e = engine();
    let response = e.verify(b"data".to_vec(), Vec::new(), many(vec![public_key("alice")])).unwrap();
    assert_eq!(response.verified, VerificationStatus::NotSigned);
    assert_eq!(response.data, None);
    assert_eq!(response.errors, None);
    let response = e.verify(Vec::new(), Vec::new(), many(Vec::new())).unwrap();
    assert_eq!(response.verified, VerificationStatus::NotSigned);
    let response = e
        .verify_armored(b"data".to_vec(), String::new(), one(public_key("alice")), None)
        .unwrap();
    assert_eq!(response.verified, VerificationStatus::NotSigned);
    assert_eq!(response.errors, None);
}

#[test]
fn first_valid_key_wins_and_failures_are_kept() {
    let e = engine();
    let data = b"signed data".to_vec();
    let signed = e.sign(data.clone(), private_key("bob"), String::from("")).unwrap();
    let signature = signed.signature().clone().unwrap();
    let keys = vec![public_key("alice"), public_key("carol"), public_key("bob"), public_key("dan")];
    let response = e.verify(data.clone(), signature.clone(), many(keys)).unwrap();
    assert_eq!(response.verified, VerificationStatus::SignedAndValid);
    assert_eq!(response.errors, Some(vec![CryptoError::KeyParse, CryptoError::KeyParse]));
    let strangers = vec![public_key("alice"), public_key("carol")];
    let response = e.verify(data.clone(), signature.clone(), many(strangers)).unwrap();
    assert_eq!(response.verified, VerificationStatus::SignedAndInvalid);
    assert_eq!(response.errors, Some(vec![CryptoError::KeyParse, CryptoError::KeyParse]));
    let response = e.verify(data, signature, many(Vec::new())).unwrap();
    assert_eq!(response.verified, VerificationStatus::SignedAndInvalid);
    assert_eq!(response.errors, None);
}

#[test]
fn context_binds_the_signature() {
    let e = engine();
    let data = b"signed data".to_vec();
    let signed = e.sign(data.clone(), private_key("alice"), String::from("drive.node")).unwrap();
    let armored = Toy.armor(ArmorKind::Signature, signed.signature().as_ref().unwrap());
    let same = e
        .verify_armored(
            data.clone(),
            armored.clone(),
            one(public_key("alice")),
            Some(String::from("drive.node")),
        )
        .unwrap();
    assert_eq!(same.verified, VerificationStatus::SignedAndValid);
    let other = e
        .verify_armored(
            data.clone(),
            armored.clone(),
            one(public_key("alice")),
            Some(String::from("mail.body")),
        )
        .unwrap();
    assert_eq!(other.verified, VerificationStatus::SignedAndInvalid);
    assert_eq!(other.errors, Some(vec![CryptoError::Signature]));
    let none = e.verify_armored(data, armored, one(public_key("alice")), None).unwrap();
    assert_eq!(none.verified, VerificationStatus::SignedAndValid);
}

#[test]
fn sign_armored_with_several_keys() {
    let e = engine();
    let data = b"signed data".to_vec();
    let signed = e
        .sign_armored(data.clone(), many(vec![private_key("alice"), private_key("bob")]))
        .unwrap();
    assert!(signed.data().is_none());
    let armored = String::from_utf8(signed.signature().clone().unwrap()).unwrap();
    assert!(armored.starts_with("-----BEGIN PGP SIGNATURE-----"));
    for name in ["alice", "bob"] {
        let response =
            e.verify_armored(data.clone(), armored.clone(), one(public_key(name)), None).unwrap();
        assert_eq!(response.verified, VerificationStatus::SignedAndValid);
    }
    let response = e.verify_armored(data, armored, one(public_key("carol")), None).unwrap();
    assert_eq!(response.verified, VerificationStatus::SignedAndInvalid);
    assert!(matches!(
        e.sign_armored(b"x".to_vec(), many(Vec::new())),
        Err(CryptoError::Signature)
    ));
}

#[test]
fn decrypt_and_verify_embedded_signature() {
    let e = engine();
    let data = b"signed and sealed".to_vec();
    let sealed = e
        .encrypt_and_sign(
            data.clone(),
            vec![public_key("bob")],
            session_key(7),
            private_key("alice"),
        )
        .unwrap();
    assert!(sealed.signature().is_none());
    let message = sealed.data().clone().unwrap();
    let response =
        e.decrypt_and_verify(message.clone(), session_key(7), one(public_key("alice"))).unwrap();
    assert_eq!(response.verified, VerificationStatus::SignedAndValid);
    assert_eq!(response.data, Some(data.clone()));
    assert_eq!(response.errors, None);
    let response =
        e.decrypt_and_verify(message.clone(), session_key(7), one(public_key("carol"))).unwrap();
    assert_eq!(response.verified, VerificationStatus::SignedAndInvalid);
    assert_eq!(response.data, Some(data));
    assert_eq!(response.errors, Some(vec![CryptoError::KeyParse]));
    let r = e.decrypt_and_verify(message, session_key(8), one(public_key("alice")));
    assert!(matches!(r, Err(CryptoError::Decryption)));
}

#[test]
fn decrypt_and_verify_unsigned_message() {
    let e = engine();
    let sealed = e
        .encrypt_armored(b"plain".to_vec(), vec![public_key("bob")], Some(session_key(7)))
        .unwrap();
    let message = Toy.dearmor(&text(&sealed)).unwrap();
    let response = e.decrypt_and_verify(message, session_key(7), one(public_key("alice"))).unwrap();
    assert_eq!(response.verified, VerificationStatus::NotSigned);
    assert_eq!(response.data, Some(b"plain".to_vec()));
    assert_eq!(response.errors, None);
}

#[test]
fn decrypt_armored_and_verify_embedded_signature() {
    let e = engine();
    let data = b"signed and sealed".to_vec();
    let sealed = e
        .encrypt_and_sign_armored(data.clone(), vec![public_key("bob")], None, private_key("alice"))
        .unwrap();
    let armored = text(&sealed);
    let response = e
        .decrypt_armored_and_verify(
            armored.clone(),
            one(private_key("bob")),
            many(vec![public_key("carol"), public_key("alice")]),
        )
        .unwrap();
    assert_eq!(response.verified, VerificationStatus::SignedAndValid);
    assert_eq!(response.data, Some(data));
    assert_eq!(response.errors, Some(vec![CryptoError::KeyParse]));
    let r = e.decrypt_armored_and_verify(
        armored,
        one(private_key("carol")),
        one(public_key("alice")),
    );
    assert!(matches!(r, Err(CryptoError::Decryption)));
}

#[test]
fn detached_signature_beside_the_ciphertext() {
    let e = engine();
    let data = b"signed beside".to_vec();
    let sealed = e
        .encrypt_and_sign_detached(
            data.clone(),
            vec![public_key("bob")],
            session_key(4),
            private_key("alice"),
        )
        .unwrap();
    let message = sealed.data().clone().unwrap();
    let signature = sealed.signature().clone().unwrap();
    let response = e
        .decrypt_and_verify_detached(
            message.clone(),
            Some(signature.clone()),
            session_key(4),
            Some(one(public_key("alice"))),
        )
        .unwrap();
    assert_eq!(response.verified, VerificationStatus::SignedAndValid);
    assert_eq!(response.data, Some(data.clone()));
    let response = e
        .decrypt_and_verify_detached(message.clone(), None, session_key(4), None)
        .unwrap();
    assert_eq!(response.verified, VerificationStatus::NotSigned);
    assert_eq!(response.data, Some(data.clone()));
    let response = e
        .decrypt_and_verify_detached(
            message.clone(),
            Some(Vec::new()),
            session_key(4),
            Some(one(public_key("alice"))),
        )
        .unwrap();
    assert_eq!(response.verified, VerificationStatus::NotSigned);
    let response = e
        .decrypt_and_verify_detached(message.clone(), Some(signature.clone()), session_key(4), None)
        .unwrap();
    assert_eq!(response.verified, VerificationStatus::SignedAndInvalid);
    assert_eq!(response.data, Some(data.clone()));
    assert_eq!(response.errors, None);
    let response = e
        .decrypt_and_verify_detached(
            message.clone(),
            Some(vec![9, 9, 9]),
            session_key(4),
            Some(one(public_key("alice"))),
        )
        .unwrap();
    assert_eq!(response.verified, VerificationStatus::SignedAndInvalid);
    assert_eq!(response.data, Some(data));
    assert_eq!(response.errors, Some(vec![CryptoError::Signature]));
    let r = e.decrypt_and_verify_detached(
        message,
        Some(signature),
        session_key(5),
        Some(one(public_key("alice"))),
    );
    assert!(matches!(r, Err(CryptoError::Decryption)));
}

#[test]
fn detached_armored_signature_beside_the_ciphertext() {
    let e = engine();
    let data = b"signed beside".to_vec();
    let sealed = e
        .encrypt_and_sign_detached_armored(
            data.clone(),
            vec![public_key("bob")],
            session_key(4),
            private_key("alice"),
        )
        .unwrap();
    let message = text(&sealed);
    let signature = Toy.dearmor(sealed.signature().as_ref().unwrap()).unwrap();
    let response = e
        .decrypt_armored_and_verify_detached(
            message.clone(),
            Some(signature),
            session_key(4),
            one(public_key("alice")),
        )
        .unwrap();
    assert_eq!(response.verified, VerificationStatus::SignedAndValid);
    assert_eq!(response.data, Some(data));
    let r = e.decrypt_armored_and_verify_detached(
        String::from("no armor"),
        None,
        session_key(4),
        one(public_key("alice")),
    );
    assert!(matches!(r, Err(CryptoError::Decryption)));
}

#[test]
fn generated_key_unlocks_with_its_passphrase() {
    let e = engine();
    let passphrase = e.generate_passphrase();
    let generated = Toy.generate_key(&passphrase).unwrap();
    let unlocked = e.decrypt_key(generated.armored_key.clone(), passphrase).unwrap();
    assert_eq!(unlocked.get_fingerprint(), generated.key.get_fingerprint());
    assert!(unlocked.is_private_key());
    let r = e.decrypt_key(generated.armored_key, String::from("wrong"));
    assert!(matches!(r, Err(CryptoError::Passphrase)));
    let r = e.decrypt_key(String::from("no key"), String::from("wrong"));
    assert!(matches!(r, Err(CryptoError::KeyParse)));
}

#[test]
fn generated_keys_are_private_and_differ() {
    let e = engine();
    let a = e.generate_key(String::from("pw")).unwrap();
    let b = e.generate_key(String::from("pw")).unwrap();
    assert!(a.is_private_key());
    assert_ne!(a.get_fingerprint(), b.get_fingerprint());
}

#[test]
fn assess_counts_up_to_the_first_decisive_check() {
    let bad = SignatureCheck::Invalid(CryptoError::Signature);
    let stranger = SignatureCheck::Invalid(CryptoError::KeyParse);
    let r = VerificationResponse::assess(&vec![], None).unwrap();
    assert_eq!(r.verified, VerificationStatus::SignedAndInvalid);
    assert_eq!(r.errors, None);
    let r = VerificationResponse::assess(&vec![SignatureCheck::Valid], Some(vec![1])).unwrap();
    assert_eq!(r.verified, VerificationStatus::SignedAndValid);
    assert_eq!(r.data, Some(vec![1]));
    assert_eq!(r.errors, None);
    let r = VerificationResponse::assess(&vec![bad, stranger], None).unwrap();
    assert_eq!(r.verified, VerificationStatus::SignedAndInvalid);
    assert_eq!(r.errors, Some(vec![CryptoError::Signature, CryptoError::KeyParse]));
    let r = VerificationResponse::assess(
        &vec![stranger, SignatureCheck::Valid, bad, SignatureCheck::Malformed],
        None,
    )
    .unwrap();
    assert_eq!(r.verified, VerificationStatus::SignedAndValid);
    assert_eq!(r.errors, Some(vec![CryptoError::KeyParse]));
    let r = VerificationResponse::assess(
        &vec![bad, SignatureCheck::Malformed, SignatureCheck::Valid],
        None,
    );
    assert!(matches!(r, Err(CryptoError::Signature)));
    let r = VerificationResponse::assess(&vec![SignatureCheck::Malformed], Some(vec![1]));
    assert!(matches!(r, Err(CryptoError::Signature)));
}

#[test]
fn forgive_turns_malformed_into_failures() {
    let checks = vec![
        SignatureCheck::Malformed,
        SignatureCheck::Invalid(CryptoError::KeyParse),
        SignatureCheck::Valid,
    ];
    assert_eq!(
        forgive(&checks),
        vec![
            SignatureCheck::Invalid(CryptoError::Signature),
            SignatureCheck::Invalid(CryptoError::KeyParse),
            SignatureCheck::Valid,
        ]
    );
    assert_eq!(forgive(&Vec::new()), Vec::new());
}

#[test]
fn unsigned_response() {
    let r = VerificationResponse::unsigned(Some(vec![1, 2]));
    assert_eq!(r.verified, VerificationStatus::NotSigned);
    assert_eq!(r.data, Some(vec![1, 2]));
    assert_eq!(r.errors, None);
}

#[test]
fn join_wrapped_concatenates_or_fails() {
    let packet = join_wrapped(&vec![Some(vec![1, 2]), Some(vec![]), Some(vec![3])]).unwrap();
    assert_eq!(packet.into_bytes(), vec![1, 2, 3]);
    assert!(matches!(join_wrapped(&Vec::new()), Err(CryptoError::Encryption)));
    assert!(matches!(
        join_wrapped(&vec![Some(vec![1]), None, Some(vec![2])]),
        Err(CryptoError::Encryption)
    ));
}

#[test]
fn first_unwrapped_takes_the_first_success() {
    let r = first_unwrapped(&vec![None, Some(session_key(1)), Some(session_key(2))]).unwrap();
    assert_eq!(r.data(), &vec![1u8; 32]);
    assert!(matches!(first_unwrapped(&vec![None, None]), Err(CryptoError::Decryption)));
    assert!(matches!(first_unwrapped(&Vec::new()), Err(CryptoError::Decryption)));
}

#[test]
fn outcome_or_maps_failure_to_the_error() {
    assert_eq!(outcome_or(Some(3u8), CryptoError::Encryption), Ok(3u8));
    assert_eq!(outcome_or::<u8>(None, CryptoError::Encryption), Err(CryptoError::Encryption));
    assert_eq!(outcome_or::<u8>(None, CryptoError::Decryption), Err(CryptoError::Decryption));
}

#[test]
fn unlocked_tells_wrong_passphrase_from_malformed_key() {
    let key = unlocked(KeyUnlock::Unlocked(private_key("alice"))).unwrap();
    assert_eq!(key.get_key_id(), "id-of-alice");
    assert!(matches!(unlocked(KeyUnlock::WrongPassphrase), Err(CryptoError::Passphrase)));
    assert!(matches!(unlocked(KeyUnlock::Malformed), Err(CryptoError::KeyParse)));
}

#[test]
fn pgp_data_holds_what_it_was_made_of() {
    let d = PGPData::of_data(1u8);
    assert_eq!(d.into_parts(), (None, Some(1u8)));
    let s = PGPData::of_signature(2u8);
    assert_eq!(s.into_parts(), (Some(2u8), None));
    let b = PGPData::of_both(1u8, 2u8);
    assert_eq!(b.data(), &Some(1u8));
    assert_eq!(b.signature(), &Some(2u8));
}

#[test]
fn key_packet_holds_its_bytes() {
    let packet = KeyPacket::new(vec![1, 2, 3]);
    assert_eq!(packet.as_bytes(), &vec![1, 2, 3]);
    assert_eq!(packet.into_bytes(), vec![1, 2, 3]);
}

#[test]
fn of_plaintext_keeps_the_plaintext_whatever_the_checks() {
    let stranger = SignatureCheck::Invalid(CryptoError::KeyParse);
    let r = VerificationResponse::of_plaintext(vec![1, 2], false, &vec![SignatureCheck::Valid]);
    assert_eq!(r.verified, VerificationStatus::NotSigned);
    assert_eq!(r.data, Some(vec![1, 2]));
    assert_eq!(r.errors, None);
    let r = VerificationResponse::of_plaintext(vec![1, 2], true, &vec![]);
    assert_eq!(r.verified, VerificationStatus::SignedAndInvalid);
    assert_eq!(r.data, Some(vec![1, 2]));
    assert_eq!(r.errors, None);
    let r = VerificationResponse::of_plaintext(
        vec![1, 2],
        true,
        &vec![SignatureCheck::Malformed, stranger, SignatureCheck::Valid],
    );
    assert_eq!(r.verified, VerificationStatus::SignedAndValid);
    assert_eq!(r.data, Some(vec![1, 2]));
    assert_eq!(r.errors, Some(vec![CryptoError::Signature, CryptoError::KeyParse]));
    let r = VerificationResponse::of_plaintext(
        Vec::new(),
        true,
        &vec![SignatureCheck::Malformed, SignatureCheck::Malformed],
    );
    assert_eq!(r.verified, VerificationStatus::SignedAndInvalid);
    assert_eq!(r.data, Some(Vec::new()));
    assert_eq!(r.errors, Some(vec![CryptoError::Signature, CryptoError::Signature]));
}

#[test]
fn join_parts_concatenates_or_gives_nothing() {
    let parts = vec![Some(vec![1, 2]), Some(vec![]), Some(vec![3])];
    assert_eq!(join_parts(&parts), Some(vec![1, 2, 3]));
    assert_eq!(join_parts(&vec![Some(vec![9])]), Some(vec![9]));
    assert_eq!(join_parts(&Vec::new()), None);
    assert_eq!(join_parts(&vec![Some(vec![1]), None]), None);
}
