use crate::crypto::error::CryptoError;
use crate::crypto::memory::{wipe, zeros};
use crate::utils::either::Either;
use crate::utils::timestamp::Timestamp;
use vstd::prelude::*;

verus! {

/// The texts of a list of strings, in order.
pub open spec fn texts(v: Seq<String>) -> Seq<Seq<char>> {
    v.map_values(|s: String| s@)
}

/// What a subkey is, mathematically.
pub ghost struct SubKeyModel {
    pub algorithm_info: Seq<char>,
    pub key_id: Seq<char>,
}

/// The models of a list of subkeys, in order.
pub open spec fn subkey_models(v: Seq<SubKeyRecord>) -> Seq<SubKeyModel> {
    v.map_values(|s: SubKeyRecord| s@)
}

/// The family of a key's public-key algorithm.
#[derive(Clone, Copy, Debug, PartialEq, Eq, Structural)]
pub enum KeyAlgorithm {
    Rsa,
    Dsa,
    ElGamal,
    Curve25519,
}

/// The hash algorithm of the signatures that bind a key's user ids and
/// subkeys to it.
#[derive(Clone, Copy, Debug, PartialEq, Eq, Structural)]
pub enum HashAlgorithm {
    Md5,
    Sha1,
    Ripemd160,
    Sha256,
    Sha384,
    Sha512,
}

/// The least size in bits that is accepted of an RSA, DSA or ElGamal key.
pub const MIN_KEY_BITS: u32 = 2048;

/// The hash algorithm is deprecated for binding signatures.
pub open spec fn deprecated_hash(hash: HashAlgorithm) -> bool {
    hash is Md5 || hash is Sha1 || hash is Ripemd160
}

/// The security floor. A key is below it where its RSA, DSA or ElGamal
/// modulus is shorter than `MIN_KEY_BITS`, or where its bindings are made
/// with a deprecated hash algorithm. The size of a Curve25519 key is fixed
/// and accepted.
pub open spec fn below_floor(algorithm: KeyAlgorithm, bits: u32, binding_hash: HashAlgorithm)
    -> bool {
    (!(algorithm is Curve25519) && bits < MIN_KEY_BITS) || deprecated_hash(binding_hash)
}

/// Tells whether a key of this algorithm, size and binding hash is below
/// the security floor.
pub fn is_below_floor(algorithm: KeyAlgorithm, bits: u32, binding_hash: HashAlgorithm) -> (r: bool)
    ensures
        r == below_floor(algorithm, bits, binding_hash),
{
    let short = match algorithm {
        KeyAlgorithm::Curve25519 => false,
        KeyAlgorithm::Rsa | KeyAlgorithm::Dsa | KeyAlgorithm::ElGamal => bits < MIN_KEY_BITS,
    };
    let deprecated = match binding_hash {
        HashAlgorithm::Md5 | HashAlgorithm::Sha1 | HashAlgorithm::Ripemd160 => true,
        HashAlgorithm::Sha256 | HashAlgorithm::Sha384 | HashAlgorithm::Sha512 => false,
    };
    short || deprecated
}

/// What a key is, mathematically: its attributes as plain values.
pub ghost struct KeyModel {
    pub version: u64,
    pub fingerprint: Seq<char>,
    pub sha256_fingerprints: Seq<Seq<char>>,
    pub key_id: Seq<char>,
    pub subkeys: Seq<SubKeyModel>,
    pub creation_time: Timestamp,
    pub expiration_time: Option<Either<Timestamp, u64>>,
    pub user_ids: Seq<Seq<char>>,
    pub algorithm: KeyAlgorithm,
    pub bits: u32,
    pub binding_hash: HashAlgorithm,
    pub private: bool,
}

impl KeyModel {
    /// There is one SHA-256 fingerprint per subkey, and no two subkeys share
    /// a key id.
    pub open spec fn well_formed(self) -> bool {
        &&& self.sha256_fingerprints.len() == self.subkeys.len()
        &&& forall|i: int, j: int|
            0 <= i < j < self.subkeys.len() ==> (#[trigger] self.subkeys[i]).key_id != (
            #[trigger] self.subkeys[j]).key_id
    }

    /// The key is below the security floor.
    pub open spec fn weak(self) -> bool {
        below_floor(self.algorithm, self.bits, self.binding_hash)
    }

    /// The primary key id followed by the subkeys' ids, in binding order.
    pub open spec fn key_ids(self) -> Seq<Seq<char>> {
        seq![self.key_id] + self.subkeys.map_values(|s: SubKeyModel| s.key_id)
    }
}

/// Key equality. Two keys are equal when they have the same primary
/// fingerprint and, unless `ignore_other_certs` is set, are of the same kind
/// (both public or both private) and carry the same set of user ids.
pub open spec fn keys_equal(a: KeyModel, b: KeyModel, ignore_other_certs: bool) -> bool {
    &&& a.fingerprint == b.fingerprint
    &&& (ignore_other_certs || (a.private == b.private && a.user_ids.to_set()
        == b.user_ids.to_set()))
}

/// An encryption or signing subkey bound to a primary key.
pub trait SubKey {
    spec fn algorithm_info(&self) -> Seq<char>;

    spec fn key_id(&self) -> Seq<char>;

    fn get_algorithm_info(&self) -> (r: String)
        ensures
            r@ == self.algorithm_info(),
    ;

    fn get_key_id(&self) -> (r: String)
        ensures
            r@ == self.key_id(),
    ;
}

/// A subkey as its two attributes.
#[derive(Clone, Debug, PartialEq, Eq)]
pub struct SubKeyRecord {
    pub algorithm_info: String,
    pub key_id: String,
}

impl View for SubKeyRecord {
    type V = SubKeyModel;

    open spec fn view(&self) -> SubKeyModel {
        SubKeyModel { algorithm_info: self.algorithm_info@, key_id: self.key_id@ }
    }
}

impl SubKey for SubKeyRecord {
    open spec fn algorithm_info(&self) -> Seq<char> {
        self.algorithm_info@
    }

    open spec fn key_id(&self) -> Seq<char> {
        self.key_id@
    }

    fn get_algorithm_info(&self) -> (r: String) {
        self.algorithm_info.clone()
    }

    fn get_key_id(&self) -> (r: String) {
        self.key_id.clone()
    }
}

/// The attributes of a key, as they are read from key material.
#[derive(Clone, Debug, PartialEq, Eq)]
pub struct KeyInfo {
    pub version: u64,
    pub fingerprint: String,
    /// One SHA-256 fingerprint per subkey, in binding order.
    pub sha256_fingerprints: Vec<String>,
    pub key_id: String,
    pub subkeys: Vec<SubKeyRecord>,
    pub creation_time: Timestamp,
    /// `None` when the key never expires; else the instant at which it
    /// expires, or the seconds it lives after its creation.
    pub expiration_time: Option<Either<Timestamp, u64>>,
    pub user_ids: Vec<String>,
    /// The family of the public-key algorithm.
    pub algorithm: KeyAlgorithm,
    /// The size of the key in bits.
    pub bits: u32,
    /// The hash algorithm of the key's binding signatures.
    pub binding_hash: HashAlgorithm,
}

impl KeyInfo {
    /// The key that has these attributes and is private or not.
    pub open spec fn model(&self, private: bool) -> KeyModel {
        KeyModel {
            version: self.version,
            fingerprint: self.fingerprint@,
            sha256_fingerprints: texts(self.sha256_fingerprints@),
            key_id: self.key_id@,
            subkeys: subkey_models(self.subkeys@),
            creation_time: self.creation_time,
            expiration_time: self.expiration_time,
            user_ids: texts(self.user_ids@),
            algorithm: self.algorithm,
            bits: self.bits,
            binding_hash: self.binding_hash,
            private,
        }
    }

    /// The attributes are those of a well-formed key.
    pub open spec fn well_formed(&self) -> bool {
        self.model(false).well_formed()
    }

    /// Tells whether the attributes are those of a well-formed key.
    pub fn is_well_formed(&self) -> (r: bool)
        ensures
            r == self.well_formed(),
    {
        if self.sha256_fingerprints.len() != self.subkeys.len() {
            return false;
        }
        let n = self.subkeys.len();
        let mut j: usize = 0;
        while j < n
            invariant
                j <= n,
                n == self.subkeys.len(),
                forall|a: int, b: int|
                    0 <= a < b < j ==> self.subkeys@[a].key_id@ != self.subkeys@[b].key_id@,
            decreases n - j,
        {
            let mut i: usize = 0;
            while i < j
                invariant
                    i <= j < n,
                    n == self.subkeys.len(),
                    forall|a: int|
                        0 <= a < i ==> self.subkeys@[a].key_id@ != self.subkeys@[j as int].key_id@,
                decreases j - i,
            {
                if self.subkeys[i].key_id == self.subkeys[j].key_id {
                    proof {
                        let m = self.model(false);
                        assert(m.subkeys[i as int].key_id == m.subkeys[j as int].key_id);
                    }
                    return false;
                }
                i += 1;
            }
            j += 1;
        }
        true
    }

    fn duplicate(&self) -> (r: KeyInfo)
        ensures
            r.model(false) == self.model(false),
            r.model(true) == self.model(true),
    {
        KeyInfo {
            version: self.version,
            fingerprint: self.fingerprint.clone(),
            sha256_fingerprints: clone_texts(&self.sha256_fingerprints),
            key_id: self.key_id.clone(),
            subkeys: clone_subkeys(&self.subkeys),
            creation_time: self.creation_time,
            expiration_time: clone_expiration(&self.expiration_time),
            user_ids: clone_texts(&self.user_ids),
            algorithm: self.algorithm,
            bits: self.bits,
            binding_hash: self.binding_hash,
        }
    }

    fn key_ids(&self) -> (r: Vec<String>)
        ensures
            texts(r@) == self.model(false).key_ids(),
    {
        let mut ids: Vec<String> = Vec::new();
        ids.push(self.key_id.clone());
        let n = self.subkeys.len();
        let mut i: usize = 0;
        while i < n
            invariant
                i <= n,
                n == self.subkeys.len(),
                ids.len() == i + 1,
                ids@[0]@ == self.key_id@,
                forall|k: int| 0 <= k < i ==> ids@[k + 1]@ == self.subkeys@[k].key_id@,
            decreases n - i,
        {
            ids.push(self.subkeys[i].key_id.clone());
            i += 1;
        }
        assert(texts(ids@) =~= self.model(false).key_ids());
        ids
    }
}

fn clone_texts(v: &Vec<String>) -> (r: Vec<String>)
    ensures
        r@ == v@,
{
    let mut out: Vec<String> = Vec::new();
    let n = v.len();
    let mut i: usize = 0;
    while i < n
        invariant
            i <= n,
            n == v.len(),
            out.len() == i,
            forall|k: int| 0 <= k < i ==> out@[k] == v@[k],
        decreases n - i,
    {
        out.push(v[i].clone());
        i += 1;
    }
    assert(out@ =~= v@);
    out
}

fn clone_subkeys(v: &Vec<SubKeyRecord>) -> (r: Vec<SubKeyRecord>)
    ensures
        r@ == v@,
{
    let mut out: Vec<SubKeyRecord> = Vec::new();
    let n = v.len();
    let mut i: usize = 0;
    while i < n
        invariant
            i <= n,
            n == v.len(),
            out.len() == i,
            forall|k: int| 0 <= k < i ==> out@[k] == v@[k],
        decreases n - i,
    {
        out.push(
            SubKeyRecord {
                algorithm_info: v[i].algorithm_info.clone(),
                key_id: v[i].key_id.clone(),
            },
        );
        i += 1;
    }
    assert(out@ =~= v@);
    out
}

fn clone_expiration(e: &Option<Either<Timestamp, u64>>) -> (r: Option<Either<Timestamp, u64>>)
    ensures
        r == *e,
{
    match e {
        None => None,
        Some(Either::Left(at)) => Some(Either::Left(*at)),
        Some(Either::Right(seconds)) => Some(Either::Right(*seconds)),
    }
}

fn clone_bytes(v: &Vec<u8>) -> (r: Vec<u8>)
    ensures
        r@ == v@,
{
    let mut out: Vec<u8> = Vec::new();
    let n = v.len();
    let mut i: usize = 0;
    while i < n
        invariant
            i <= n,
            n == v.len(),
            out.len() == i,
            forall|k: int| 0 <= k < i ==> out@[k] == v@[k],
        decreases n - i,
    {
        out.push(v[i]);
        i += 1;
    }
    assert(out@ =~= v@);
    out
}

fn contains_text(list: &Vec<String>, s: &String) -> (r: bool)
    ensures
        r == texts(list@).contains(s@),
{
    let n = list.len();
    let mut i: usize = 0;
    while i < n
        invariant
            i <= n,
            n == list.len(),
            forall|k: int| 0 <= k < i ==> texts(list@)[k] != s@,
        decreases n - i,
    {
        if list[i] == *s {
            assert(texts(list@)[i as int] == s@);
            return true;
        }
        i += 1;
    }
    false
}

/// Tells whether every text of `a` occurs in `b`.
fn covers(a: &Vec<String>, b: &Vec<String>) -> (r: bool)
    ensures
        r == texts(a@).to_set().subset_of(texts(b@).to_set()),
{
    let n = a.len();
    let mut i: usize = 0;
    while i < n
        invariant
            i <= n,
            n == a.len(),
            forall|k: int| 0 <= k < i ==> texts(b@).contains(#[trigger] texts(a@)[k]),
        decreases n - i,
    {
        if !contains_text(b, &a[i]) {
            assert(texts(a@).to_set().contains(texts(a@)[i as int]));
            return false;
        }
        i += 1;
    }
    true
}

fn same_text_set(a: &Vec<String>, b: &Vec<String>) -> (r: bool)
    ensures
        r == (texts(a@).to_set() == texts(b@).to_set()),
{
    let r = covers(a, b) && covers(b, a);
    proof {
        if r {
            assert(texts(a@).to_set() =~= texts(b@).to_set());
        }
    }
    r
}

/// The read-only interface of an asymmetric key, public or private.
pub trait Key {
    /// The key's attributes.
    spec fn model(&self) -> KeyModel;

    fn get_version(&self) -> (r: u64)
        ensures
            r == self.model().version,
    ;

    fn get_fingerprint(&self) -> (r: String)
        ensures
            r@ == self.model().fingerprint,
    ;

    /// One fingerprint per subkey, in binding order.
    fn get_sha256_fingerprints(&self) -> (r: Vec<String>)
        ensures
            texts(r@) == self.model().sha256_fingerprints,
            r.len() == self.model().subkeys.len(),
    ;

    fn get_key_id(&self) -> (r: String)
        ensures
            r@ == self.model().key_id,
    ;

    /// The primary key id, then the id of each subkey.
    fn get_key_ids(&self) -> (r: Vec<String>)
        ensures
            texts(r@) == self.model().key_ids(),
    ;

    /// True exactly when the key carries secret material.
    fn is_private_key(&self) -> (r: bool)
        ensures
            r == self.model().private,
    ;

    fn get_creation_time(&self) -> (r: Timestamp)
        ensures
            r == self.model().creation_time,
    ;

    /// `None` when the key never expires.
    fn get_expiration_time(&self) -> (r: Option<Either<Timestamp, u64>>)
        ensures
            r == self.model().expiration_time,
    ;

    fn get_user_ids(&self) -> (r: Vec<String>)
        ensures
            texts(r@) == self.model().user_ids,
    ;

    /// True exactly when the key is below the security floor.
    fn is_weak(&self) -> (r: bool)
        ensures
            r == self.model().weak(),
    ;

    /// The subkeys in binding order. No two of them share a key id.
    fn get_subkeys(&self) -> (r: Vec<SubKeyRecord>)
        ensures
            subkey_models(r@) == self.model().subkeys,
            self.model().well_formed(),
    ;
}

fn compare_keys<A: Key, B: Key>(a: &A, b: &B, ignore_other_certs: bool) -> (r: bool)
    ensures
        r == keys_equal(a.model(), b.model(), ignore_other_certs),
{
    let fingerprint = a.get_fingerprint();
    let other_fingerprint = b.get_fingerprint();
    if !(fingerprint == other_fingerprint) {
        return false;
    }
    if ignore_other_certs {
        return true;
    }
    if a.is_private_key() != b.is_private_key() {
        return false;
    }
    let user_ids = a.get_user_ids();
    let other_user_ids = b.get_user_ids();
    same_text_set(&user_ids, &other_user_ids)
}

/// The same key without its secret material.
pub open spec fn public_view(k: KeyModel) -> KeyModel {
    KeyModel { private: false, ..k }
}

/// A key equals itself, with either setting of the flag.
pub proof fn lemma_equals_reflexive(k: KeyModel, ignore_other_certs: bool)
    ensures
        keys_equal(k, k, ignore_other_certs),
{
}

/// Key equality does not depend on the order of the two keys.
pub proof fn lemma_equals_symmetric(a: KeyModel, b: KeyModel, ignore_other_certs: bool)
    ensures
        keys_equal(a, b, ignore_other_certs) == keys_equal(b, a, ignore_other_certs),
{
}

/// Keys with different primary fingerprints are never equal.
pub proof fn lemma_equals_needs_fingerprint(a: KeyModel, b: KeyModel, ignore_other_certs: bool)
    requires
        a.fingerprint != b.fingerprint,
    ensures
        !keys_equal(a, b, ignore_other_certs),
{
}

/// When other certifications count, a private key never equals a public one.
pub proof fn lemma_private_differs_from_public(a: KeyModel, b: KeyModel)
    requires
        a.private != b.private,
    ensures
        !keys_equal(a, b, false),
{
}

/// The public view of a key equals itself when other certifications are
/// ignored, and differs from the public view of any key with another
/// fingerprint.
pub proof fn lemma_public_view_equality(k: KeyModel, other: KeyModel)
    ensures
        keys_equal(public_view(k), public_view(k), true),
        k.fingerprint != other.fingerprint ==> !keys_equal(
            public_view(k),
            public_view(other),
            true,
        ),
{
}

/// A public key: its attributes and its encoded public material.
#[derive(Debug)]
pub struct PublicKey {
    info: KeyInfo,
    material: Vec<u8>,
}

impl PublicKey {
    #[verifier::type_invariant]
    spec fn inv(self) -> bool {
        self.info.well_formed()
    }

    /// The encoded public material.
    pub closed spec fn material_bytes(&self) -> Seq<u8> {
        self.material@
    }

    /// Makes a public key from its attributes and its encoded material.
    /// Attributes that are not those of a well-formed key are rejected.
    pub fn new(info: KeyInfo, material: Vec<u8>) -> (r: Result<PublicKey, CryptoError>)
        ensures
            match r {
                Ok(k) => info.well_formed() && k.model() == info.model(false)
                    && k.material_bytes() == material@,
                Err(e) => !info.well_formed() && e == CryptoError::KeyParse,
            },
    {
        if info.is_well_formed() {
            Ok(PublicKey { info, material })
        } else {
            Err(CryptoError::KeyParse)
        }
    }

    /// The encoded public material.
    pub fn material(&self) -> (r: &Vec<u8>)
        ensures
            r@ == self.material_bytes(),
    {
        &self.material
    }

    /// Compares this key with another one, public or private.
    pub fn equals<K: Key>(&self, other: &K, ignore_other_certs: bool) -> (r: bool)
        ensures
            r == keys_equal(self.model(), other.model(), ignore_other_certs),
    {
        compare_keys(self, other, ignore_other_certs)
    }
}

impl Clone for PublicKey {
    fn clone(&self) -> (r: PublicKey)
        ensures
            r.model() == self.model(),
            r.material_bytes() == self.material_bytes(),
    {
        proof {
            use_type_invariant(self);
        }
        PublicKey { info: self.info.duplicate(), material: clone_bytes(&self.material) }
    }
}

impl Key for PublicKey {
    closed spec fn model(&self) -> KeyModel {
        self.info.model(false)
    }

    fn get_version(&self) -> (r: u64) {
        self.info.version
    }

    fn get_fingerprint(&self) -> (r: String) {
        self.info.fingerprint.clone()
    }

    fn get_sha256_fingerprints(&self) -> (r: Vec<String>) {
        proof {
            use_type_invariant(self);
        }
        clone_texts(&self.info.sha256_fingerprints)
    }

    fn get_key_id(&self) -> (r: String) {
        self.info.key_id.clone()
    }

    fn get_key_ids(&self) -> (r: Vec<String>) {
        self.info.key_ids()
    }

    fn is_private_key(&self) -> (r: bool)
        ensures
            !r,
    {
        false
    }

    fn get_creation_time(&self) -> (r: Timestamp) {
        self.info.creation_time
    }

    fn get_expiration_time(&self) -> (r: Option<Either<Timestamp, u64>>) {
        clone_expiration(&self.info.expiration_time)
    }

    fn get_user_ids(&self) -> (r: Vec<String>) {
        clone_texts(&self.info.user_ids)
    }

    fn is_weak(&self) -> (r: bool) {
        is_below_floor(self.info.algorithm, self.info.bits, self.info.binding_hash)
    }

    fn get_subkeys(&self) -> (r: Vec<SubKeyRecord>) {
        proof {
            use_type_invariant(self);
        }
        clone_subkeys(&self.info.subkeys)
    }
}

/// A private key: the attributes and public material of its public key,
/// and its secret material, unlocked.
pub struct PrivateKey {
    info: KeyInfo,
    material: Vec<u8>,
    secret: Vec<u8>,
}

impl PrivateKey {
    #[verifier::type_invariant]
    spec fn inv(self) -> bool {
        self.info.well_formed() && self.secret@.len() > 0
    }

    /// The encoded public material.
    pub closed spec fn material_bytes(&self) -> Seq<u8> {
        self.material@
    }

    /// The encoded secret material.
    pub closed spec fn secret_bytes(&self) -> Seq<u8> {
        self.secret@
    }

    /// Makes a private key from its attributes, its encoded public material
    /// and its secret material. Attributes that are not those of a
    /// well-formed key are rejected, and so is empty secret material.
    pub fn new(info: KeyInfo, material: Vec<u8>, secret: Vec<u8>) -> (r: Result<
        PrivateKey,
        CryptoError,
    >)
        ensures
            match r {
                Ok(k) => info.well_formed() && secret@.len() > 0 && k.model() == info.model(true)
                    && k.material_bytes() == material@ && k.secret_bytes() == secret@,
                Err(e) => !(info.well_formed() && secret@.len() > 0) && e == CryptoError::KeyParse,
            },
    {
        if secret.len() > 0 && info.is_well_formed() {
            Ok(PrivateKey { info, material, secret })
        } else {
            Err(CryptoError::KeyParse)
        }
    }

    /// The encoded public material.
    pub fn material(&self) -> (r: &Vec<u8>)
        ensures
            r@ == self.material_bytes(),
    {
        &self.material
    }

    /// The secret material. It is never empty.
    pub fn secret(&self) -> (r: &Vec<u8>)
        ensures
            r@ == self.secret_bytes(),
            r@.len() > 0,
    {
        proof {
            use_type_invariant(self);
        }
        &self.secret
    }

    /// The public key of this private key: the same attributes and public
    /// material, without the secret.
    pub fn to_public(&self) -> (r: PublicKey)
        ensures
            r.model() == public_view(self.model()),
            r.material_bytes() == self.material_bytes(),
    {
        proof {
            use_type_invariant(self);
        }
        PublicKey { info: self.info.duplicate(), material: clone_bytes(&self.material) }
    }

    /// Compares this key with another one, public or private.
    pub fn equals<K: Key>(&self, other: &K, ignore_other_certs: bool) -> (r: bool)
        ensures
            r == keys_equal(self.model(), other.model(), ignore_other_certs),
    {
        compare_keys(self, other, ignore_other_certs)
    }

    /// Overwrites the secret material with zeros. The key keeps its
    /// attributes and is of no use afterwards.
    pub fn clear_secret(&mut self)
        ensures
            final(self).model() == old(self).model(),
            final(self).material_bytes() == old(self).material_bytes(),
            final(self).secret_bytes() == zeros(old(self).secret_bytes().len()),
        opens_invariants none
        no_unwind
    {
        proof {
            use_type_invariant(&*self);
        }
        wipe(&mut self.secret);
    }
}

impl Drop for PrivateKey {
    /// Clears the secret material when the key goes out of scope.
    fn drop(&mut self)
        opens_invariants none
        no_unwind
    {
        self.clear_secret();
    }
}

impl Clone for PrivateKey {
    fn clone(&self) -> (r: PrivateKey)
        ensures
            r.model() == self.model(),
            r.material_bytes() == self.material_bytes(),
            r.secret_bytes() == self.secret_bytes(),
    {
        proof {
            use_type_invariant(self);
        }
        PrivateKey {
            info: self.info.duplicate(),
            material: clone_bytes(&self.material),
            secret: clone_bytes(&self.secret),
        }
    }
}

impl Key for PrivateKey {
    closed spec fn model(&self) -> KeyModel {
        self.info.model(true)
    }

    fn get_version(&self) -> (r: u64) {
        self.info.version
    }

    fn get_fingerprint(&self) -> (r: String) {
        self.info.fingerprint.clone()
    }

    fn get_sha256_fingerprints(&self) -> (r: Vec<String>) {
        proof {
            use_type_invariant(self);
        }
        clone_texts(&self.info.sha256_fingerprints)
    }

    fn get_key_id(&self) -> (r: String) {
        self.info.key_id.clone()
    }

    fn get_key_ids(&self) -> (r: Vec<String>) {
        self.info.key_ids()
    }

    fn is_private_key(&self) -> (r: bool)
        ensures
            r,
    {
        true
    }

    fn get_creation_time(&self) -> (r: Timestamp) {
        self.info.creation_time
    }

    fn get_expiration_time(&self) -> (r: Option<Either<Timestamp, u64>>) {
        clone_expiration(&self.info.expiration_time)
    }

    fn get_user_ids(&self) -> (r: Vec<String>) {
        clone_texts(&self.info.user_ids)
    }

    fn is_weak(&self) -> (r: bool) {
        is_below_floor(self.info.algorithm, self.info.bits, self.info.binding_hash)
    }

    fn get_subkeys(&self) -> (r: Vec<SubKeyRecord>) {
        proof {
            use_type_invariant(self);
        }
        clone_subkeys(&self.info.subkeys)
    }
}

/// A key of either kind.
pub enum AnyKey {
    Public(PublicKey),
    Private(PrivateKey),
}

impl AnyKey {
    /// Compares this key with another one, public or private.
    pub fn equals<K: Key>(&self, other: &K, ignore_other_certs: bool) -> (r: bool)
        ensures
            r == keys_equal(self.model(), other.model(), ignore_other_certs),
    {
        compare_keys(self, other, ignore_other_certs)
    }
}

impl Key for AnyKey {
    open spec fn model(&self) -> KeyModel {
        match self {
            AnyKey::Public(k) => k.model(),
            AnyKey::Private(k) => k.model(),
        }
    }

    fn get_version(&self) -> (r: u64) {
        match self {
            AnyKey::Public(k) => k.get_version(),
            AnyKey::Private(k) => k.get_version(),
        }
    }

    fn get_fingerprint(&self) -> (r: String) {
        match self {
            AnyKey::Public(k) => k.get_fingerprint(),
            AnyKey::Private(k) => k.get_fingerprint(),
        }
    }

    fn get_sha256_fingerprints(&self) -> (r: Vec<String>) {
        match self {
            AnyKey::Public(k) => k.get_sha256_fingerprints(),
            AnyKey::Private(k) => k.get_sha256_fingerprints(),
        }
    }

    fn get_key_id(&self) -> (r: String) {
        match self {
            AnyKey::Public(k) => k.get_key_id(),
            AnyKey::Private(k) => k.get_key_id(),
        }
    }

    fn get_key_ids(&self) -> (r: Vec<String>) {
        match self {
            AnyKey::Public(k) => k.get_key_ids(),
            AnyKey::Private(k) => k.get_key_ids(),
        }
    }

    fn is_private_key(&self) -> (r: bool)
        ensures
            r == (self is Private),
    {
        match self {
            AnyKey::Public(k) => k.is_private_key(),
            AnyKey::Private(k) => k.is_private_key(),
        }
    }

    fn get_creation_time(&self) -> (r: Timestamp) {
        match self {
            AnyKey::Public(k) => k.get_creation_time(),
            AnyKey::Private(k) => k.get_creation_time(),
        }
    }

    fn get_expiration_time(&self) -> (r: Option<Either<Timestamp, u64>>) {
        match self {
            AnyKey::Public(k) => k.get_expiration_time(),
            AnyKey::Private(k) => k.get_expiration_time(),
        }
    }

    fn get_user_ids(&self) -> (r: Vec<String>) {
        match self {
            AnyKey::Public(k) => k.get_user_ids(),
            AnyKey::Private(k) => k.get_user_ids(),
        }
    }

    fn is_weak(&self) -> (r: bool) {
        match self {
            AnyKey::Public(k) => k.is_weak(),
            AnyKey::Private(k) => k.is_weak(),
        }
    }

    fn get_subkeys(&self) -> (r: Vec<SubKeyRecord>) {
        match self {
            AnyKey::Public(k) => k.get_subkeys(),
            AnyKey::Private(k) => k.get_subkeys(),
        }
    }
}

/// The key size in bytes of a symmetric algorithm, by its name. Algorithms
/// outside the table are not supported.
pub open spec fn symmetric_key_size(algorithm: Seq<char>) -> Option<nat> {
    if algorithm == "aes128"@ {
        Some(16nat)
    } else if algorithm == "aes192"@ {
        Some(24nat)
    } else if algorithm == "aes256"@ {
        Some(32nat)
    } else {
        None
    }
}

fn text_is(s: &String, literal: &str) -> (r: bool)
    ensures
        r == (s@ == literal@),
{
    let other = String::from_str(literal);
    *s == other
}

/// Looks a symmetric algorithm up in the table of key sizes.
pub fn key_size_of(algorithm: &String) -> (r: Option<usize>)
    ensures
        match r {
            Some(n) => symmetric_key_size(algorithm@) == Some(n as nat),
            None => symmetric_key_size(algorithm@) is None,
        },
{
    if text_is(algorithm, "aes128") {
        Some(16)
    } else if text_is(algorithm, "aes192") {
        Some(24)
    } else if text_is(algorithm, "aes256") {
        Some(32)
    } else {
        None
    }
}

/// What a session key is, mathematically.
pub ghost struct SessionKeyModel {
    pub data: Seq<u8>,
    pub algorithm: Seq<char>,
    pub aead_algorithm: Seq<char>,
}

impl SessionKeyModel {
    /// The key is as long as its symmetric algorithm asks.
    pub open spec fn well_formed(self) -> bool {
        symmetric_key_size(self.algorithm) == Some(self.data.len())
    }
}

/// A symmetric key that protects one payload.
pub struct SessionKey {
    data: Vec<u8>,
    algorithm: String,
    aead_algorithm: String,
}

impl View for SessionKey {
    type V = SessionKeyModel;

    closed spec fn view(&self) -> SessionKeyModel {
        SessionKeyModel {
            data: self.data@,
            algorithm: self.algorithm@,
            aead_algorithm: self.aead_algorithm@,
        }
    }
}

impl SessionKey {
    #[verifier::type_invariant]
    spec fn inv(self) -> bool {
        self@.well_formed()
    }

    /// Makes a session key from raw key bytes and the names of its
    /// algorithms. The bytes must be as many as the symmetric algorithm asks,
    /// and the algorithm must be a supported one.
    pub fn new(data: Vec<u8>, algorithm: String, aead_algorithm: String) -> (r: Option<SessionKey>)
        ensures
            match r {
                Some(k) => symmetric_key_size(algorithm@) == Some(data@.len()) && k@ == (
                SessionKeyModel {
                    data: data@,
                    algorithm: algorithm@,
                    aead_algorithm: aead_algorithm@,
                }),
                None => symmetric_key_size(algorithm@) != Some(data@.len()),
            },
    {
        match key_size_of(&algorithm) {
            Some(n) => {
                if data.len() == n {
                    Some(SessionKey { data, algorithm, aead_algorithm })
                } else {
                    None
                }
            },
            None => None,
        }
    }

    /// The raw key bytes, as many as the symmetric algorithm asks.
    pub fn data(&self) -> (r: &Vec<u8>)
        ensures
            r@ == self@.data,
            self@.well_formed(),
    {
        proof {
            use_type_invariant(self);
        }
        &self.data
    }

    /// The name of the symmetric algorithm.
    pub fn algorithm(&self) -> (r: String)
        ensures
            r@ == self@.algorithm,
    {
        self.algorithm.clone()
    }

    /// The name of the AEAD algorithm.
    pub fn aead_algorithm(&self) -> (r: String)
        ensures
            r@ == self@.aead_algorithm,
    {
        self.aead_algorithm.clone()
    }

    /// Overwrites the key bytes with zeros. The key keeps its length and its
    /// algorithms and is of no use afterwards.
    pub fn clear(&mut self)
        ensures
            final(self)@ == (SessionKeyModel { data: zeros(old(self)@.data.len()), ..old(self)@ }),
        opens_invariants none
        no_unwind
    {
        proof {
            use_type_invariant(&*self);
        }
        wipe(&mut self.data);
    }
}

impl Drop for SessionKey {
    /// Clears the key bytes when the key goes out of scope.
    fn drop(&mut self)
        opens_invariants none
        no_unwind
    {
        self.clear();
    }
}

impl Clone for SessionKey {
    fn clone(&self) -> (r: SessionKey)
        ensures
            r@ == self@,
    {
        proof {
            use_type_invariant(self);
        }
        SessionKey {
            data: clone_bytes(&self.data),
            algorithm: self.algorithm.clone(),
            aead_algorithm: self.aead_algorithm.clone(),
        }
    }
}

} // verus!
