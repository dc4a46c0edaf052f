//! The private key that encrypts the users' stored settings, and its text
//! form (standard Base64).

use aes_gcm_siv::KeyInit;
use base64::Engine;
use vstd::prelude::*;
use vstd::slice::slice_to_vec;


verus! {

/// The length of an AES-256 key in bytes.
pub const KEY_LEN: usize = 32;

/// The character of the standard Base64 alphabet for a six-bit value.
pub open spec fn base64_char(v: int) -> char {
    if v < 26 {
        ('A' as int + v) as char
    } else if v < 52 {
        ('a' as int + (v - 26)) as char
    } else if v < 62 {
        ('0' as int + (v - 52)) as char
    } else if v == 62 {
        '+'
    } else {
        '/'
    }
}

/// The standard Base64 text of `bytes`: each group of three bytes becomes
/// four characters of six bits each, and a last group of one or two bytes
/// is padded with `=` to four characters.
pub open spec fn base64_encoded(bytes: Seq<u8>) -> Seq<char>
    decreases bytes.len(),
{
    if bytes.len() == 0 {
        Seq::empty()
    } else {
        let b0 = bytes[0] as int;
        let b1 = if bytes.len() > 1 { bytes[1] as int } else { 0 };
        let b2 = if bytes.len() > 2 { bytes[2] as int } else { 0 };
        let c0 = base64_char(b0 / 4);
        let c1 = base64_char((b0 % 4) * 16 + b1 / 16);
        let c2 = base64_char((b1 % 16) * 4 + b2 / 64);
        let c3 = base64_char(b2 % 64);
        if bytes.len() == 1 {
            seq![c0, c1, '=', '=']
        } else if bytes.len() == 2 {
            seq![c0, c1, c2, '=']
        } else {
            seq![c0, c1, c2, c3] + base64_encoded(bytes.skip(3))
        }
    }
}

/// The bytes that standard Base64 decoding gives for `text`: decoding
/// requires canonical padding and no stray trailing bits, so it accepts
/// exactly the texts that are the encoding of some bytes and gives those
/// bytes back (there is only one such byte string, since encoding is
/// one-to-one); `None` for any other text.
pub open spec fn base64_decoded(text: Seq<char>) -> Option<Seq<u8>> {
    if exists|b: Seq<u8>| #[trigger] base64_encoded(b) == text {
        Some(choose|b: Seq<u8>| #[trigger] base64_encoded(b) == text)
    } else {
        None
    }
}

/// Calls `BASE64_STANDARD.encode`. Claims that the result is the standard
/// Base64 text of the bytes, with padding (`base64_encoded`).
#[verifier::external_body]
pub(crate) fn base64_encode(bytes: &[u8]) -> (r: String)
    ensures
        r@ == base64_encoded(bytes@),
{
    base64::prelude::BASE64_STANDARD.encode(bytes)
}

#[verifier::external_type_specification]
#[verifier::external_body]
pub struct ExDecodeError(base64::DecodeError);

/// The bytes a decoding gave, if it succeeded.
pub open spec fn decoded_bytes(r: Result<Vec<u8>, base64::DecodeError>) -> Option<Seq<u8>> {
    match r {
        Ok(v) => Some(v@),
        Err(_) => None,
    }
}

/// Calls `BASE64_STANDARD.decode` on the UTF-8 bytes of `text`. Claims that
/// it succeeds exactly on the texts that are the standard Base64 of some
/// bytes, giving those bytes (`base64_decoded`). Which `DecodeError` comes
/// out is not claimed.
#[verifier::external_body]
fn base64_decode(text: &str) -> (r: Result<Vec<u8>, base64::DecodeError>)
    ensures
        decoded_bytes(r) == base64_decoded(text@),
        forall|b: Seq<u8>| #[trigger] base64_encoded(b) == text@ ==> decoded_bytes(r) == Some(b),
{
    base64::prelude::BASE64_STANDARD.decode(text.as_bytes())
}

/// Calls `Aes256GcmSiv::generate_key` with the operating system's random
/// source. Claims only the length of the key.
#[verifier::external_body]
fn random_key() -> (r: Vec<u8>)
    ensures
        r@.len() == KEY_LEN,
{
    aes_gcm_siv::Aes256GcmSiv::generate_key(&mut aes_gcm_siv::aead::OsRng).to_vec()
}

/// Why a text is not a private key.
#[derive(Debug, PartialEq, Eq)]
pub enum KeyError {
    /// The text is not standard Base64; the error says why.
    Decode(base64::DecodeError),
    /// The text decodes to a byte string that is not 32 bytes long.
    WrongLength,
}

/// A 32-byte AES-256 key.
pub struct PrivateKey {
    bytes: Vec<u8>,
}

impl View for PrivateKey {
    type V = Seq<u8>;

    closed spec fn view(&self) -> Seq<u8> {
        self.bytes@
    }
}

impl PrivateKey {
    #[verifier::type_invariant]
    spec fn well_formed(self) -> bool {
        self.bytes@.len() == KEY_LEN
    }

    /// A fresh random key.
    pub fn new() -> (r: Self)
        ensures
            r@.len() == KEY_LEN,
    {
        PrivateKey { bytes: random_key() }
    }

    /// The key whose bytes are `bytes`.
    pub fn from_bytes(bytes: &[u8]) -> (r: Self)
        requires
            bytes@.len() == KEY_LEN,
        ensures
            r@ == bytes@,
    {
        PrivateKey { bytes: slice_to_vec(bytes) }
    }

    /// Reads a key from its Base64 text. The text must not decode to a byte
    /// string of another length than 32; see `try_from_string`.
    pub fn from_string(string: &str) -> (r: Result<Self, base64::DecodeError>)
        requires
            base64_decoded(string@) matches Some(b) ==> b.len() == KEY_LEN,
        ensures
            match r {
                Ok(k) => base64_decoded(string@) == Some(k@),
                Err(_) => base64_decoded(string@) is None,
            },
            forall|b: Seq<u8>| #[trigger] base64_encoded(b) == string@ ==> (r matches Ok(k) && k@ == b),
    {
        match base64_decode(string) {
            Ok(raw) => Ok(PrivateKey::from_bytes(raw.as_slice())),
            Err(e) => Err(e),
        }
    }

    /// Reads a key from its Base64 text, refusing texts that do not decode
    /// to exactly 32 bytes.
    pub fn try_from_string(string: &str) -> (r: Result<Self, KeyError>)
        ensures
            match r {
                Ok(k) => base64_decoded(string@) == Some(k@),
                Err(KeyError::Decode(_)) => base64_decoded(string@) is None,
                Err(KeyError::WrongLength) => base64_decoded(string@) matches Some(b) && b.len() != KEY_LEN,
            },
            forall|b: Seq<u8>|
                b.len() == KEY_LEN && #[trigger] base64_encoded(b) == string@ ==> (r matches Ok(k) && k@ == b),
    {
        match base64_decode(string) {
            Err(e) => Err(KeyError::Decode(e)),
            Ok(raw) => {
                if raw.len() == KEY_LEN {
                    match PrivateKey::from_string(string) {
                        Ok(k) => Ok(k),
                        Err(e) => Err(KeyError::Decode(e)),
                    }
                } else {
                    Err(KeyError::WrongLength)
                }
            },
        }
    }

    /// The Base64 text of the key.
    pub fn to_string(&self) -> (r: String)
        ensures
            r@ == base64_encoded(self@),
    {
        base64_encode(self.bytes.as_slice())
    }

    /// The bytes of the key.
    pub fn as_bytes(&self) -> (r: &[u8])
        ensures
            r@ == self@,
            r@.len() == KEY_LEN,
    {
        proof {
            use_type_invariant(self);
        }
        self.bytes.as_slice()
    }

    /// A copy of the key.
    pub fn clone_key(&self) -> (r: Self)
        ensures
            r@ == self@,
    {
        proof {
            use_type_invariant(self);
        }
        PrivateKey { bytes: slice_to_vec(self.bytes.as_slice()) }
    }
}

} // verus!
