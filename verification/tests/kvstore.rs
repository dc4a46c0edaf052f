use telecontrol::kvstore::lmdb::{removal_step, Removal};
use telecontrol::kvstore::presence;
use std::cell::RefCell;
use std::rc::Rc;
use std::collections::HashMap;

use telecontrol::kvstore::aes::{get_nonce_for_user, open_for_user, seal_for_user, AesEncryptedKV, AesKvError};
use telecontrol::kvstore::{KVError, KVStore, UserId};
use telecontrol::privkey::PrivateKey;
use vstd::seq::Seq;

#[derive(Debug)]
struct MemError;

impl KVError for MemError {}

struct MemKV {
    map: Rc<RefCell<HashMap<u64, Vec<u8>>>>,
}

impl MemKV {
    fn new() -> Self {
        MemKV { map: Rc::new(RefCell::new(HashMap::new())) }
    }
}

// The spec items of the trait describe verified stores; this store for the
// tests is ordinary code, so its descriptions claim nothing.
impl KVStore for MemKV {
    type Err = MemError;

    fn read_of(&self, _user_id: UserId, _r: Result<Option<Vec<u8>>, MemError>) -> bool {
        true
    }

    fn written(&self, _user_id: UserId, _value: Seq<u8>) -> bool {
        true
    }

    fn removal_of(&self, _user_id: UserId, _r: Result<Option<Vec<u8>>, MemError>) -> bool {
        true
    }

    fn presence_read(&self, _user_id: UserId, _r: Result<bool, MemError>) -> bool {
        true
    }

    fn get(&self, user_id: UserId) -> Result<Option<Vec<u8>>, MemError> {
        Ok(self.map.borrow().get(&user_id.0).cloned())
    }

    fn set(&self, user_id: UserId, value: &[u8]) -> Result<(), MemError> {
        self.map.borrow_mut().insert(user_id.0, value.to_vec());
        Ok(())
    }

    fn remove(&self, user_id: UserId) -> Result<Option<Vec<u8>>, MemError> {
        Ok(self.map.borrow_mut().remove(&user_id.0))
    }

    fn contains(&self, user_id: UserId) -> Result<bool, MemError> {
        Ok(self.map.borrow().contains_key(&user_id.0))
    }
}

fn key(b: u8) -> PrivateKey {
    PrivateKey::from_bytes(&[b; 32])
}

#[test]
fn nonce_is_little_endian_id_padded() {
    assert_eq!(get_nonce_for_user(UserId(1)), vec![1, 0, 0, 0, 0, 0, 0, 0, 0, 0, 0, 0]);
    assert_eq!(
        get_nonce_for_user(UserId(0x0102030405060708)),
        vec![8, 7, 6, 5, 4, 3, 2, 1, 0, 0, 0, 0]
    );
    assert_eq!(get_nonce_for_user(UserId(u64::MAX)), vec![255, 255, 255, 255, 255, 255, 255, 255, 0, 0, 0, 0]);
}

#[test]
fn nonces_of_different_users_differ() {
    assert_ne!(get_nonce_for_user(UserId(7)), get_nonce_for_user(UserId(7 << 8)));
}

#[test]
fn sealed_value_opens_for_same_user_only() {
    let k = key(3);
    let sealed = seal_for_user(&k, UserId(42), b"secret").unwrap();
    assert_ne!(sealed, b"secret".to_vec());
    assert_eq!(sealed.len(), 6 + 16);
    assert_eq!(open_for_user(&k, UserId(42), &sealed), Some(b"secret".to_vec()));
    assert_eq!(open_for_user(&k, UserId(43), &sealed), None);
    assert_eq!(open_for_user(&key(4), UserId(42), &sealed), None);
}

#[test]
fn encrypted_store_reads_back_what_was_written() {
    let store = AesEncryptedKV::new(MemKV::new(), &key(9));
    assert!(matches!(store.get(UserId(1)), Ok(None)));
    assert!(matches!(store.contains(UserId(1)), Ok(false)));
    store.set(UserId(1), b"config").unwrap();
    store.set(UserId(2), b"other").unwrap();
    assert_eq!(store.get(UserId(1)).unwrap(), Some(b"config".to_vec()));
    assert_eq!(store.get(UserId(2)).unwrap(), Some(b"other".to_vec()));
    assert!(matches!(store.contains(UserId(1)), Ok(true)));
    assert_eq!(store.remove(UserId(1)).unwrap(), Some(b"config".to_vec()));
    assert!(matches!(store.get(UserId(1)), Ok(None)));
    assert!(matches!(store.remove(UserId(1)), Ok(None)));
}

#[test]
fn encrypted_store_keeps_ciphertext_below() {
    let inner = MemKV::new();
    inner.set(UserId(5), b"not encrypted").unwrap();
    let store = AesEncryptedKV::new(inner, &key(1));
    assert!(matches!(store.get(UserId(5)), Err(AesKvError::Crypto)));
}

#[test]
fn reads_of_the_store_below_are_opened() {
    let k = key(5);
    let store = AesEncryptedKV::new(MemKV::new(), &k);
    let sealed = seal_for_user(&k, UserId(8), b"value").unwrap();
    assert_eq!(store.open_stored(UserId(8), Ok(Some(sealed.clone()))).unwrap(), Some(b"value".to_vec()));
    assert!(matches!(store.open_stored(UserId(9), Ok(Some(sealed))), Err(AesKvError::Crypto)));
    assert!(matches!(store.open_stored(UserId(8), Ok(None)), Ok(None)));
    assert!(matches!(store.open_stored(UserId(8), Err(MemError)), Err(AesKvError::KV(MemError))));
}

#[test]
fn presence_of_a_read() {
    assert!(matches!(presence::<MemError>(Ok(Some(vec![1]))), Ok(true)));
    assert!(matches!(presence::<MemError>(Ok(None)), Ok(false)));
    assert!(matches!(presence::<MemError>(Err(MemError)), Err(MemError)));
    let store = AesEncryptedKV::new(MemKV::new(), &key(6));
    store.set(UserId(3), b"x").unwrap();
    assert!(matches!(store.contains(UserId(3)), Ok(true)));
    assert!(matches!(store.contains(UserId(4)), Ok(false)));
}

#[test]
fn stored_bytes_are_sealed_value_with_tag() {
    let k = key(7);
    let store = AesEncryptedKV::new(MemKV::new(), &k);
    let sealed = store.seal_value(UserId(5), b"settings").unwrap();
    assert_eq!(sealed.len(), b"settings".len() + 16);
    assert_ne!(sealed, b"settings".to_vec());
    assert_eq!(open_for_user(&k, UserId(5), &sealed), Some(b"settings".to_vec()));
}

#[test]
fn removal_decisions() {
    assert!(matches!(removal_step(Ok(Some(vec![4, 2]))), Removal::Delete(v) if v == vec![4, 2]));
    assert!(matches!(removal_step(Ok(None)), Removal::NothingStored));
    assert!(matches!(removal_step(Err(heed::Error::Io(std::io::Error::other("disk")))), Removal::Fail(_)));
}

#[test]
fn encrypted_store_uses_the_users_entry_below() {
    let inner = MemKV::new();
    let below = Rc::clone(&inner.map);
    let k = key(2);
    let store = AesEncryptedKV::new(inner, &k);
    store.set(UserId(7), b"mine").unwrap();
    assert_eq!(below.borrow().len(), 1);
    assert_eq!(below.borrow().get(&7), Some(&seal_for_user(&k, UserId(7), b"mine").unwrap()));
    assert!(matches!(store.get(UserId(0)), Ok(None)));
    below.borrow_mut().insert(0, seal_for_user(&k, UserId(0), b"other").unwrap());
    assert_eq!(store.get(UserId(7)).unwrap(), Some(b"mine".to_vec()));
    assert_eq!(store.remove(UserId(7)).unwrap(), Some(b"mine".to_vec()));
    assert!(below.borrow().get(&7).is_none());
    assert!(below.borrow().get(&0).is_some());
}
