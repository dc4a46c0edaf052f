//! A store that keeps every value encrypted with AES-GCM-SIV, under one
//! private key and a nonce derived from the user id.

use aes_gcm_siv::aead::Aead;
use aes_gcm_siv::KeyInit;
use vstd::prelude::*;

use crate::kvstore::{KVError, KVStore, UserId};
use crate::privkey::PrivateKey;
use crate::text::opt_bytes;

verus! {

/// The longest plaintext that AES-GCM-SIV encrypts (2^36 bytes).
pub const P_MAX: u64 = 68719476736u64;

/// The ciphertext that AES-256-GCM-SIV makes of `plaintext` under `key` and
/// `nonce`, with no associated data.
pub uninterp spec fn aes_gcm_siv_seal(key: Seq<u8>, nonce: Seq<u8>, plaintext: Seq<u8>) -> Seq<u8>;

/// The plaintext that AES-256-GCM-SIV recovers from `ciphertext` under `key`
/// and `nonce`, with no associated data; `None` when the tag does not match.
pub uninterp spec fn aes_gcm_siv_open(key: Seq<u8>, nonce: Seq<u8>, ciphertext: Seq<u8>) -> Option<Seq<u8>>;

/// Calls `Aes256GcmSiv::encrypt` (key built by `KeyInit::new`, nonce by
/// `Nonce::from_slice`). Claims that it fails exactly for plaintexts longer
/// than `P_MAX`, as the crate's length check shows, that a ciphertext is the
/// one `aes_gcm_siv_seal` names, and that it is the plaintext's length plus
/// the 16-byte tag that `encrypt_in_place` appends.
#[verifier::external_body]
fn aes_encrypt(key: &[u8], nonce: &[u8], plaintext: &[u8]) -> (r: Result<Vec<u8>, ()>)
    requires
        key@.len() == 32,
        nonce@.len() == 12,
    ensures
        match r {
            Ok(c) => plaintext@.len() <= P_MAX && c@ == aes_gcm_siv_seal(key@, nonce@, plaintext@)
                && c@.len() == plaintext@.len() + 16,
            Err(_) => plaintext@.len() > P_MAX,
        },
{
    let cipher = aes_gcm_siv::Aes256GcmSiv::new(aes_gcm_siv::Key::<aes_gcm_siv::Aes256GcmSiv>::from_slice(key));
    cipher.encrypt(aes_gcm_siv::Nonce::from_slice(nonce), plaintext).map_err(|_| ())
}

/// Calls `Aes256GcmSiv::decrypt`. Claims that the result is the one
/// `aes_gcm_siv_open` names, and that a ciphertext that `aes_gcm_siv_seal`
/// made under the same key and nonce decrypts to its plaintext (AEAD
/// correctness).
#[verifier::external_body]
fn aes_decrypt(key: &[u8], nonce: &[u8], ciphertext: &[u8]) -> (r: Option<Vec<u8>>)
    requires
        key@.len() == 32,
        nonce@.len() == 12,
    ensures
        opt_bytes(r) == aes_gcm_siv_open(key@, nonce@, ciphertext@),
        forall|p: Seq<u8>|
            p.len() <= P_MAX && #[trigger] aes_gcm_siv_seal(key@, nonce@, p) == ciphertext@
                ==> opt_bytes(r) == Some(p),
{
    let cipher = aes_gcm_siv::Aes256GcmSiv::new(aes_gcm_siv::Key::<aes_gcm_siv::Aes256GcmSiv>::from_slice(key));
    cipher.decrypt(aes_gcm_siv::Nonce::from_slice(nonce), ciphertext).ok()
}

/// The byte of `x` that starts at bit `shift`.
pub open spec fn le_byte(x: u64, shift: u64) -> u8 {
    ((x >> shift) & 0xff) as u8
}

/// The nonce of a user: the id in eight little-endian bytes, padded with
/// four zero bytes.
pub open spec fn spec_nonce_for_user(user_id: UserId) -> Seq<u8> {
    let x = user_id.0;
    seq![
        le_byte(x, 0), le_byte(x, 8), le_byte(x, 16), le_byte(x, 24),
        le_byte(x, 32), le_byte(x, 40), le_byte(x, 48), le_byte(x, 56),
        0u8, 0u8, 0u8, 0u8,
    ]
}

/// Derives the nonce of a user from the user id.
pub fn get_nonce_for_user(user_id: UserId) -> (r: Vec<u8>)
    ensures
        r@ == spec_nonce_for_user(user_id),
        r@.len() == 12,
{
    let x = user_id.0;
    let r = vec![
        ((x >> 0u64) & 0xff) as u8,
        ((x >> 8u64) & 0xff) as u8,
        ((x >> 16u64) & 0xff) as u8,
        ((x >> 24u64) & 0xff) as u8,
        ((x >> 32u64) & 0xff) as u8,
        ((x >> 40u64) & 0xff) as u8,
        ((x >> 48u64) & 0xff) as u8,
        ((x >> 56u64) & 0xff) as u8,
        0u8,
        0u8,
        0u8,
        0u8,
    ];
    assert(r@ =~= spec_nonce_for_user(user_id));
    r
}

/// Different users never share a nonce, so no two users' values are
/// encrypted under the same key and nonce.
pub proof fn lemma_nonce_injective(a: UserId, b: UserId)
    ensures
        spec_nonce_for_user(a) == spec_nonce_for_user(b) ==> a == b,
{
    let x = a.0;
    let y = b.0;
    if spec_nonce_for_user(a) == spec_nonce_for_user(b) {
        assert(spec_nonce_for_user(a)[0] == spec_nonce_for_user(b)[0]);
        assert(spec_nonce_for_user(a)[1] == spec_nonce_for_user(b)[1]);
        assert(spec_nonce_for_user(a)[2] == spec_nonce_for_user(b)[2]);
        assert(spec_nonce_for_user(a)[3] == spec_nonce_for_user(b)[3]);
        assert(spec_nonce_for_user(a)[4] == spec_nonce_for_user(b)[4]);
        assert(spec_nonce_for_user(a)[5] == spec_nonce_for_user(b)[5]);
        assert(spec_nonce_for_user(a)[6] == spec_nonce_for_user(b)[6]);
        assert(spec_nonce_for_user(a)[7] == spec_nonce_for_user(b)[7]);
        assert(x == y) by (bit_vector)
            requires
                ((x >> 0u64) & 0xff) as u8 == ((y >> 0u64) & 0xff) as u8,
                ((x >> 8u64) & 0xff) as u8 == ((y >> 8u64) & 0xff) as u8,
                ((x >> 16u64) & 0xff) as u8 == ((y >> 16u64) & 0xff) as u8,
                ((x >> 24u64) & 0xff) as u8 == ((y >> 24u64) & 0xff) as u8,
                ((x >> 32u64) & 0xff) as u8 == ((y >> 32u64) & 0xff) as u8,
                ((x >> 40u64) & 0xff) as u8 == ((y >> 40u64) & 0xff) as u8,
                ((x >> 48u64) & 0xff) as u8 == ((y >> 48u64) & 0xff) as u8,
                ((x >> 56u64) & 0xff) as u8 == ((y >> 56u64) & 0xff) as u8,
        ;
    }
}

/// Why the encrypted store failed: the cipher refused, or the store below did.
#[derive(Debug)]
pub enum AesKvError<E> {
    Crypto,
    KV(E),
}

impl<E: KVError> KVError for AesKvError<E> {}

/// What is stored for a user in place of `value`.
pub open spec fn spec_sealed(key: Seq<u8>, user_id: UserId, value: Seq<u8>) -> Seq<u8> {
    aes_gcm_siv_seal(key, spec_nonce_for_user(user_id), value)
}

/// Encrypts a user's value for storage: the value sealed with a 16-byte tag
/// added; fails only for values longer than `P_MAX`.
pub fn seal_for_user(key: &PrivateKey, user_id: UserId, value: &[u8]) -> (r: Result<Vec<u8>, ()>)
    ensures
        match r {
            Ok(c) => value@.len() <= P_MAX && c@ == spec_sealed(key@, user_id, value@)
                && c@.len() == value@.len() + 16,
            Err(_) => value@.len() > P_MAX,
        },
{
    let nonce = get_nonce_for_user(user_id);
    aes_encrypt(key.as_bytes(), nonce.as_slice(), value)
}

/// Decrypts what was stored for a user; `None` when it was not sealed under
/// this key for this user.
pub fn open_for_user(key: &PrivateKey, user_id: UserId, stored: &[u8]) -> (r: Option<Vec<u8>>)
    ensures
        opt_bytes(r) == aes_gcm_siv_open(key@, spec_nonce_for_user(user_id), stored@),
        forall|p: Seq<u8>|
            p.len() <= P_MAX && #[trigger] spec_sealed(key@, user_id, p) == stored@ ==> opt_bytes(r) == Some(p),
{
    let nonce = get_nonce_for_user(user_id);
    aes_decrypt(key.as_bytes(), nonce.as_slice(), stored)
}

/// What a read of a user's value gives, from what the store below gave for
/// that user: its failure, nothing, or the stored bytes decrypted under `key`
/// and the user's nonce, a cipher failure when they do not open. Bytes that
/// were sealed for this user under `key` open to the value sealed.
pub open spec fn opened_from<E>(
    key: Seq<u8>,
    user_id: UserId,
    stored: Result<Option<Vec<u8>>, E>,
    r: Result<Option<Vec<u8>>, AesKvError<E>>,
) -> bool {
    &&& match stored {
        Err(e) => r == Err::<Option<Vec<u8>>, AesKvError<E>>(AesKvError::KV(e)),
        Ok(None) => r == Ok::<Option<Vec<u8>>, AesKvError<E>>(None),
        Ok(Some(c)) => match aes_gcm_siv_open(key, spec_nonce_for_user(user_id), c@) {
            Some(p) => r matches Ok(Some(v)) && v@ == p,
            None => r == Err::<Option<Vec<u8>>, AesKvError<E>>(AesKvError::Crypto),
        },
    }
    &&& stored matches Ok(Some(c)) ==> forall|p: Seq<u8>|
        p.len() <= P_MAX && #[trigger] spec_sealed(key, user_id, p) == c@ ==> (r matches Ok(Some(v)) && v@ == p)
}

/// What asking the encrypted store whether a user has a value gives, from
/// what the store below answered: its answer, with its failure wrapped.
pub open spec fn presence_from<E>(below: Result<bool, E>) -> Result<bool, AesKvError<E>> {
    match below {
        Ok(b) => Ok(b),
        Err(e) => Err(AesKvError::KV(e)),
    }
}

/// A store that encrypts what it hands to the store below.
pub struct AesEncryptedKV<KS: KVStore> {
    inner: KS,
    key: PrivateKey,
}

impl<KS: KVStore> AesEncryptedKV<KS> {
    /// Wraps `source`, encrypting with `privkey`.
    pub fn new(source: KS, privkey: &PrivateKey) -> (r: Self)
        ensures
            r.key()@ == privkey@,
    {
        AesEncryptedKV { inner: source, key: privkey.clone_key() }
    }

    /// The key the values are encrypted with.
    pub closed spec fn key(&self) -> PrivateKey {
        self.key
    }

    /// The store below, which holds the sealed values.
    pub closed spec fn inner(&self) -> KS {
        self.inner
    }

    /// The bytes that stand for a user's value in the store below: the value
    /// sealed under this store's key and the user's nonce, 16 bytes longer
    /// than the value and so never the value itself; a cipher failure for
    /// values longer than `P_MAX`.
    pub fn seal_value(&self, user_id: UserId, value: &[u8]) -> (r: Result<Vec<u8>, AesKvError<KS::Err>>)
        ensures
            match r {
                Ok(c) => value@.len() <= P_MAX && c@ == spec_sealed(self.key()@, user_id, value@)
                    && c@.len() == value@.len() + 16 && c@ != value@,
                Err(e) => e is Crypto && value@.len() > P_MAX,
            },
    {
        match seal_for_user(&self.key, user_id, value) {
            Ok(c) => {
                assert(c@.len() != value@.len());
                Ok(c)
            },
            Err(_) => Err(AesKvError::Crypto),
        }
    }

    /// What a read of a user's value gives, from what the store below gave:
    /// its failure, nothing, or the stored bytes decrypted. Bytes that do not
    /// decrypt under the key and the user's nonce are a cipher failure, and
    /// bytes that `seal_value` made for this user open to the value sealed.
    pub fn open_stored(&self, user_id: UserId, stored: Result<Option<Vec<u8>>, KS::Err>) -> (r: Result<Option<Vec<u8>>, AesKvError<KS::Err>>)
        ensures
            opened_from(self.key()@, user_id, stored, r),
    {
        match stored {
            Err(e) => Err(AesKvError::KV(e)),
            Ok(None) => Ok(None),
            Ok(Some(c)) => match open_for_user(&self.key, user_id, c.as_slice()) {
                Some(v) => Ok(Some(v)),
                None => Err(AesKvError::Crypto),
            },
        }
    }
}

impl<KS: KVStore> KVStore for AesEncryptedKV<KS> {
    type Err = AesKvError<KS::Err>;

    /// A read gives what `opened_from` makes of a read of the same user's
    /// value from the store below.
    open spec fn read_of(&self, user_id: UserId, r: Result<Option<Vec<u8>>, Self::Err>) -> bool {
        exists|stored: Result<Option<Vec<u8>>, KS::Err>|
            #[trigger] self.inner().read_of(user_id, stored) && opened_from(self.key()@, user_id, stored, r)
    }

    /// A value was written when the store below was written, for the same
    /// user, the value sealed under this store's key and the user's nonce.
    open spec fn written(&self, user_id: UserId, value: Seq<u8>) -> bool {
        value.len() <= P_MAX && self.inner().written(user_id, spec_sealed(self.key()@, user_id, value))
    }

    /// A removal gives what `opened_from` makes of a removal of the same
    /// user's value from the store below.
    open spec fn removal_of(&self, user_id: UserId, r: Result<Option<Vec<u8>>, Self::Err>) -> bool {
        exists|stored: Result<Option<Vec<u8>>, KS::Err>|
            #[trigger] self.inner().removal_of(user_id, stored) && opened_from(self.key()@, user_id, stored, r)
    }

    /// Whether a user has a value is what the store below answers for that
    /// user; nothing is decrypted.
    open spec fn presence_read(&self, user_id: UserId, r: Result<bool, Self::Err>) -> bool {
        exists|below: Result<bool, KS::Err>|
            #[trigger] self.inner().presence_read(user_id, below) && r == presence_from(below)
    }

    /// Reads the user's bytes from the store below and decrypts them
    /// (`open_stored`).
    fn get(&self, user_id: UserId) -> (r: Result<Option<Vec<u8>>, Self::Err>) {
        let stored = self.inner.get(user_id);
        let ghost below = stored;
        let r = self.open_stored(user_id, stored);
        assert(self.inner().read_of(user_id, below));
        r
    }

    /// Seals the value (`seal_value`) and hands the sealed bytes to the
    /// store below, for the same user: the cipher fails exactly for values
    /// longer than `P_MAX`, and any other failure is the store's.
    fn set(&self, user_id: UserId, value: &[u8]) -> (r: Result<(), Self::Err>)
        ensures
            (r matches Err(AesKvError::Crypto)) <==> value@.len() > P_MAX,
    {
        match self.seal_value(user_id, value) {
            Err(e) => Err(e),
            Ok(encrypted) => match self.inner.set(user_id, encrypted.as_slice()) {
                Ok(()) => Ok(()),
                Err(e) => Err(AesKvError::KV(e)),
            },
        }
    }

    /// Removes the user's bytes from the store below and decrypts what was
    /// there, as `get` does.
    fn remove(&self, user_id: UserId) -> (r: Result<Option<Vec<u8>>, Self::Err>) {
        let stored = self.inner.remove(user_id);
        let ghost below = stored;
        let r = self.open_stored(user_id, stored);
        assert(self.inner().removal_of(user_id, below));
        r
    }

    /// Asks the store below whether it holds bytes for the user; nothing is
    /// decrypted, so the only failures are the store's.
    fn contains(&self, user_id: UserId) -> (r: Result<bool, Self::Err>) {
        let below = self.inner.contains(user_id);
        assert(self.inner().presence_read(user_id, below));
        match below {
            Ok(b) => Ok(b),
            Err(e) => Err(AesKvError::KV(e)),
        }
    }
}

/// A read of the encrypted store gives back the value written for the user,
/// as long as the store below gives back, for that user, the bytes written
/// to it: the read then either fails in the store below or gives the value.
pub proof fn lemma_read_gives_back_written<KS: KVStore>(
    kv: &AesEncryptedKV<KS>,
    user_id: UserId,
    value: Seq<u8>,
    r: Result<Option<Vec<u8>>, AesKvError<KS::Err>>,
)
    requires
        kv.written(user_id, value),
        kv.read_of(user_id, r),
        forall|bytes: Seq<u8>, stored: Result<Option<Vec<u8>>, KS::Err>|
            #![trigger kv.inner().written(user_id, bytes), kv.inner().read_of(user_id, stored)]
            kv.inner().written(user_id, bytes) && kv.inner().read_of(user_id, stored) && stored is Ok
                ==> (stored matches Ok(Some(c)) && c@ == bytes),
    ensures
        r is Ok ==> (r matches Ok(Some(v)) && v@ == value),
        r matches Err(e) ==> e is KV,
{
    let stored = choose|stored: Result<Option<Vec<u8>>, KS::Err>|
        #[trigger] kv.inner().read_of(user_id, stored) && opened_from(kv.key()@, user_id, stored, r);
    let sealed = spec_sealed(kv.key()@, user_id, value);
    assert(kv.inner().written(user_id, sealed));
    assert(kv.inner().read_of(user_id, stored));
    if stored is Ok {
        assert(stored matches Ok(Some(c)) && c@ == sealed);
    }
}

} // verus!
