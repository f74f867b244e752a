//! PKCE: a random verifier and the challenge derived from it.

use vstd::prelude::*;
use vstd::utf8::encode_utf8;
use base64::Engine;
use rand::distributions::DistString;
use sha2::Digest;

verus! {

/// `[A-Za-z0-9]`.
pub open spec fn is_alphanumeric(c: char) -> bool {
    ('a' <= c && c <= 'z') || ('A' <= c && c <= 'Z') || ('0' <= c && c <= '9')
}

/// Names the SHA-256 digest of a byte string.
pub uninterp spec fn sha256_of(data: Seq<u8>) -> Seq<u8>;

/// The unpadded URL-safe base64 text of a byte string.
pub open spec fn base64url_of(data: Seq<u8>) -> Seq<char> {
    crate::text::base64_encoded(data, true, false)
}

/// Relies on `sha2::Sha256::digest`: the 32-byte digest of `data`.
#[verifier::external_body]
fn sha256(data: &[u8]) -> (r: Vec<u8>)
    ensures
        r@ == sha256_of(data@),
        r@.len() == 32,
{
    sha2::Sha256::digest(data).to_vec()
}

/// Relies on `base64::engine::general_purpose::URL_SAFE_NO_PAD.encode`.
#[verifier::external_body]
fn base64url(data: &[u8]) -> (r: String)
    requires
        data@.len() <= 0x1000_0000,
    ensures
        r@ == base64url_of(data@),
{
    base64::engine::general_purpose::URL_SAFE_NO_PAD.encode(data)
}

/// Relies on `rand::distributions::Alphanumeric::sample_string` with the
/// thread-local generator: `len` characters drawn from `[A-Za-z0-9]`.
#[verifier::external_body]
pub(crate) fn random_alphanumeric(len: usize) -> (r: String)
    ensures
        r@.len() == len,
        forall|i: int| 0 <= i < len ==> is_alphanumeric(#[trigger] r@[i]),
{
    rand::distributions::Alphanumeric.sample_string(&mut rand::thread_rng(), len)
}

/// How the challenge is derived from the verifier.
#[derive(Clone, Copy, PartialEq, Eq, Debug)]
pub enum ChallengeMethod {
    Plain,
    S256,
}

/// The challenge of `verifier` under `method`.
pub open spec fn challenge_of(method: ChallengeMethod, verifier: Seq<char>) -> Seq<char> {
    match method {
        ChallengeMethod::Plain => verifier,
        ChallengeMethod::S256 => base64url_of(sha256_of(encode_utf8(verifier))),
    }
}

/// The challenge sent with the authorize request.
pub fn pkce_challenge(method: ChallengeMethod, verifier: &str) -> (r: String)
    ensures
        r@ == challenge_of(method, verifier@),
{
    match method {
        ChallengeMethod::Plain => verifier.to_owned(),
        ChallengeMethod::S256 => {
            let digest = sha256(verifier.as_bytes());
            base64url(digest.as_slice())
        },
    }
}

/// A verifier and its challenge.
#[derive(Debug)]
pub struct PkcePair {
    pub code_verifier: String,
    pub code_challenge: String,
}

/// Draws a 64-character verifier and derives its S256 challenge.
pub fn generate_pkce() -> (r: PkcePair)
    ensures
        r.code_verifier@.len() == 64,
        forall|i: int| 0 <= i < 64 ==> is_alphanumeric(#[trigger] r.code_verifier@[i]),
        r.code_challenge@ == challenge_of(ChallengeMethod::S256, r.code_verifier@),
{
    let code_verifier = random_alphanumeric(64);
    let code_challenge = pkce_challenge(ChallengeMethod::S256, code_verifier.as_str());
    PkcePair { code_verifier, code_challenge }
}

} // verus!
