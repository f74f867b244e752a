//! Keys and records of the encrypted secret store, and its master key.

use vstd::prelude::*;
use vstd::utf8::{decode_utf8, valid_utf8};
use base64::Engine;
use rand::RngCore;

verus! {

/// Length of the master key in bytes.
pub const KEY_LENGTH: usize = 32;

/// Why a secret-store operation failed.
#[derive(Debug)]
pub enum StoreError {
    KeyNotInitialized,
    InvalidKeyEncoding,
    InvalidKeyLength,
    RandomSourceFailed,
}

impl StoreError {
    pub fn message(&self) -> (r: String)
        ensures
            r@ == match self {
                StoreError::KeyNotInitialized => "Stronghold key not initialized"@,
                StoreError::InvalidKeyEncoding => "Stronghold key is not valid base64"@,
                StoreError::InvalidKeyLength => "Stronghold key has invalid length"@,
                StoreError::RandomSourceFailed => "Failed to draw a random key"@,
            },
    {
        match self {
            StoreError::KeyNotInitialized => "Stronghold key not initialized".to_owned(),
            StoreError::InvalidKeyEncoding => "Stronghold key is not valid base64".to_owned(),
            StoreError::InvalidKeyLength => "Stronghold key has invalid length".to_owned(),
            StoreError::RandomSourceFailed => "Failed to draw a random key".to_owned(),
        }
    }
}

/// The master key of the vault, once it is known.
#[derive(Debug)]
pub struct StrongholdKeyState {
    pub key: Option<Vec<u8>>,
}

impl StrongholdKeyState {
    pub fn new() -> (r: Self)
        ensures
            r.key is None,
    {
        StrongholdKeyState { key: None }
    }

    pub fn set_key(&mut self, key: Vec<u8>)
        ensures
            final(self).key == Some(key),
    {
        self.key = Some(key);
    }

    /// A copy of the key; fails before the key is set.
    pub fn get_key(&self) -> (r: Result<Vec<u8>, StoreError>)
        ensures
            match self.key {
                Some(k) => r matches Ok(x) && x@ == k@,
                None => r matches Err(e) && e is KeyNotInitialized,
            },
    {
        match &self.key {
            Some(k) => {
                let mut out: Vec<u8> = Vec::new();
                for i in 0..k.len()
                    invariant
                        out@ == k@.take(i as int),
                {
                    out.push(k[i]);
                    assert(out@ =~= k@.take(i + 1));
                }
                assert(out@ =~= k@);
                Ok(out)
            },
            None => Err(StoreError::KeyNotInitialized),
        }
    }
}

/// `"<provider_id>:<kind>"`.
pub open spec fn record_key(provider_id: Seq<char>, kind: Seq<char>) -> Seq<char> {
    provider_id + seq![':'] + kind
}

/// The vault key of a provider's refresh token.
pub fn refresh_record_key(provider_id: &str) -> (r: String)
    ensures
        r@ == record_key(provider_id@, "refresh_token"@),
{
    let r = provider_id.to_owned().concat(":").concat("refresh_token");
    proof {
        reveal_strlit(":");
    }
    assert(r@ =~= record_key(provider_id@, "refresh_token"@));
    r
}

/// The vault key of a provider's access-token record.
pub fn access_record_key(provider_id: &str) -> (r: String)
    ensures
        r@ == record_key(provider_id@, "access_token"@),
{
    let r = provider_id.to_owned().concat(":").concat("access_token");
    proof {
        reveal_strlit(":");
    }
    assert(r@ =~= record_key(provider_id@, "access_token"@));
    r
}

/// Names the bytes that standard base64 decoding gives for `text`, or
/// `None` where it is not valid base64.
pub uninterp spec fn base64_decoded_of(text: Seq<char>) -> Option<Seq<u8>>;

/// The standard, padded base64 text of a byte string.
pub open spec fn base64_text_of(data: Seq<u8>) -> Seq<char> {
    crate::text::base64_encoded(data, false, true)
}

/// Relies on `base64::engine::general_purpose::STANDARD.decode`.
#[verifier::external_body]
fn base64_decode(text: &str) -> (r: Option<Vec<u8>>)
    ensures
        match r {
            Some(b) => base64_decoded_of(text@) == Some(b@),
            None => base64_decoded_of(text@) is None,
        },
{
    base64::engine::general_purpose::STANDARD.decode(text.as_bytes()).ok()
}

/// Relies on `base64::engine::general_purpose::STANDARD.encode`.
#[verifier::external_body]
fn base64_encode(data: &[u8]) -> (r: String)
    requires
        data@.len() <= 0x1000_0000,
    ensures
        r@ == base64_text_of(data@),
{
    base64::engine::general_purpose::STANDARD.encode(data)
}

/// Relies on `rand::rngs::OsRng::try_fill_bytes`: `len` bytes from the
/// operating system's generator, or `None` where it fails.
#[verifier::external_body]
fn os_random_bytes(len: usize) -> (r: Option<Vec<u8>>)
    ensures
        r matches Some(b) ==> b@.len() == len,
{
    let mut buf = vec![0u8; len];
    rand::rngs::OsRng.try_fill_bytes(&mut buf).ok()?;
    Some(buf)
}

/// Relies on `String::from_utf8`: the text of valid UTF-8 bytes, whose
/// encoding they are.
#[verifier::external_body]
fn utf8_decode(bytes: Vec<u8>) -> (r: Option<String>)
    ensures
        r is Some <==> valid_utf8(bytes@),
        r matches Some(s) ==> s@ == decode_utf8(bytes@),
{
    String::from_utf8(bytes).ok()
}

/// Reads the master key as the keyring holds it: base64 of 32 bytes.
pub fn decode_master_key(encoded: &str) -> (r: Result<Vec<u8>, StoreError>)
    ensures
        match base64_decoded_of(encoded@) {
            None => r matches Err(e) && e is InvalidKeyEncoding,
            Some(b) => if b.len() == KEY_LENGTH {
                r matches Ok(k) && k@ == b
            } else {
                r matches Err(e) && e is InvalidKeyLength
            },
        },
{
    match base64_decode(encoded) {
        None => Err(StoreError::InvalidKeyEncoding),
        Some(b) => if b.len() == KEY_LENGTH {
            Ok(b)
        } else {
            Err(StoreError::InvalidKeyLength)
        },
    }
}

/// A master key made of drawn bytes, and the base64 text the keyring
/// stores for it; fails where no bytes could be drawn.
pub fn master_key_from_random(bytes: Option<Vec<u8>>) -> (r: Result<(Vec<u8>, String), StoreError>)
    requires
        bytes matches Some(b) ==> b@.len() <= 0x1000_0000,
    ensures
        match bytes {
            None => r matches Err(e) && e is RandomSourceFailed,
            Some(b) => r matches Ok((k, t)) && k@ == b@ && t@ == base64_text_of(b@),
        },
{
    match bytes {
        Some(k) => {
            let text = base64_encode(k.as_slice());
            Ok((k, text))
        },
        None => Err(StoreError::RandomSourceFailed),
    }
}

/// A fresh master key of 32 bytes from the operating system's generator,
/// and the base64 text the keyring stores for it.
pub fn generate_master_key() -> (r: Result<(Vec<u8>, String), StoreError>)
    ensures
        r matches Ok((k, text)) ==> k@.len() == KEY_LENGTH && text@ == base64_text_of(k@),
        r is Err ==> r->Err_0 is RandomSourceFailed,
{
    master_key_from_random(os_random_bytes(KEY_LENGTH))
}

/// The refresh token a vault record holds; a record that is not text
/// counts as absent.
pub fn refresh_token_from_record(raw: Option<Vec<u8>>) -> (r: Option<String>)
    ensures
        match raw {
            Some(b) => if valid_utf8(b@) {
                r matches Some(s) && s@ == decode_utf8(b@)
            } else {
                r is None
            },
            None => r is None,
        },
{
    match raw {
        Some(b) => utf8_decode(b),
        None => None,
    }
}

} // verus!
