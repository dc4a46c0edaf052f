use telecontrol::privkey::{KeyError, PrivateKey};

#[test]
fn key_text_is_standard_base64() {
    let k = PrivateKey::from_bytes(&[0u8; 32]);
    assert_eq!(k.to_string(), "AAAAAAAAAAAAAAAAAAAAAAAAAAAAAAAAAAAAAAAAAAA=");
    let k = PrivateKey::from_bytes(&[255u8; 32]);
    assert_eq!(k.to_string(), "//////////////////////////////////////////8=");
}

#[test]
fn key_text_round_trip() {
    let k = PrivateKey::new();
    assert_eq!(k.as_bytes().len(), 32);
    let text = k.to_string();
    let back = PrivateKey::from_string(&text).unwrap();
    assert_eq!(back.as_bytes(), k.as_bytes());
    let back = PrivateKey::try_from_string(&text).unwrap();
    assert_eq!(back.as_bytes(), k.as_bytes());
}

#[test]
fn fresh_keys_differ() {
    assert_ne!(PrivateKey::new().as_bytes(), PrivateKey::new().as_bytes());
}

#[test]
fn bad_key_texts() {
    assert!(PrivateKey::from_string("not base64!").is_err());
    assert!(matches!(PrivateKey::try_from_string("not base64!").err(), Some(KeyError::Decode(_))));
    assert_eq!(PrivateKey::try_from_string("AAAA").err(), Some(KeyError::WrongLength));
}

#[test]
fn key_text_of_known_bytes() {
    let mut bytes = [0u8; 32];
    bytes[0] = 77;
    bytes[1] = 97;
    bytes[2] = 110;
    assert!(PrivateKey::from_bytes(&bytes).to_string().starts_with("TWFu"));
}
