//! Content hashes and capability digests: SHA-256, written in URL-safe base64.

use vstd::prelude::*;
use crate::text::same_text;

verus! {

/// The SHA-256 digest of a byte string.
pub uninterp spec fn sha256(data: Seq<u8>) -> Seq<u8>;

/// The URL-safe base64 text of a byte string, without padding.
pub uninterp spec fn base64url(data: Seq<u8>) -> Seq<char>;

/// The bytes that a URL-safe base64 text without padding stands for; `None`
/// where the text is not such an encoding.
pub uninterp spec fn base64url_decoding(s: Seq<char>) -> Option<Seq<u8>>;

/// Calls `sha2::Sha256::digest`: the SHA-256 digest of the data, which has 32
/// bytes and depends on the data alone.
#[verifier::external_body]
pub(crate) fn sha256_digest(data: &[u8]) -> (r: [u8; 32])
    ensures
        r@ == sha256(data@),
{
    <sha2::Sha256 as sha2::Digest>::digest(data).into()
}

/// Calls `encode` of base64's `URL_SAFE_NO_PAD` engine on 32 bytes. The text
/// depends on the bytes alone, has 43 characters (ten groups of four and one
/// of three, with no padding), and decodes to the same bytes with the same
/// engine.
#[verifier::external_body]
pub(crate) fn base64url_encode(data: &[u8; 32]) -> (r: String)
    ensures
        r@ == base64url(data@),
        r@.len() == 43,
        base64url_decoding(r@) == Some(data@),
{
    base64::Engine::encode(&base64::engine::general_purpose::URL_SAFE_NO_PAD, data)
}

/// Calls `decode` of base64's `URL_SAFE_NO_PAD` engine. The bytes depend on
/// the text alone; a text that is no encoding is an error, given as `None`.
#[verifier::external_body]
pub(crate) fn base64url_decode(s: &str) -> (r: Option<Vec<u8>>)
    ensures
        r is Some <==> base64url_decoding(s@) is Some,
        r is Some ==> r->Some_0@ == base64url_decoding(s@)->Some_0,
{
    base64::Engine::decode(&base64::engine::general_purpose::URL_SAFE_NO_PAD, s).ok()
}

/// Calls `gen` of rand's thread-local generator for 32 bytes. Nothing is
/// known of the bytes: they are drawn from the system's entropy.
#[verifier::external_body]
pub(crate) fn random_key() -> (key: [u8; 32]) {
    rand::Rng::gen::<[u8; 32]>(&mut rand::thread_rng())
}

/// The number of characters of a content hash and of every other digest text.
pub const HASH_TEXT_LEN: usize = 43;

/// The number of bytes of a capability before it is encoded.
pub const KEY_LEN: usize = 32;

/// The text of the digest of `data`: the public identifier of a blob, where
/// `data` is its ciphertext, and the stored form of a secret, where `data` is
/// the secret.
pub open spec fn digest_text(data: Seq<u8>) -> Seq<char> {
    base64url(sha256(data))
}

/// The bytes that a presented capability stands for: its decoding where that
/// has exactly 32 bytes.
pub open spec fn capability_bytes(presented: Seq<char>) -> Option<Seq<u8>> {
    match base64url_decoding(presented) {
        Some(bytes) => if bytes.len() == 32 {
            Some(bytes)
        } else {
            None
        },
        None => None,
    }
}

/// Whether a presented capability is the one whose digest is `stored`. A text
/// that does not decode, or not to exactly 32 bytes, matches nothing.
pub open spec fn capability_matches(presented: Seq<char>, stored: Seq<char>) -> bool {
    match capability_bytes(presented) {
        Some(bytes) => digest_text(bytes) == stored,
        None => false,
    }
}

/// The bytes that a session cookie stands for: its decoding, or nothing at
/// all where it does not decode.
pub open spec fn session_token_bytes(cookie: Seq<char>) -> Seq<u8> {
    match base64url_decoding(cookie) {
        Some(bytes) => bytes,
        None => Seq::empty(),
    }
}

/// The digest text under which the session of a cookie is stored.
pub open spec fn session_digest_text(cookie: Seq<char>) -> Seq<char> {
    digest_text(session_token_bytes(cookie))
}

/// The digest text of `data`. It is a function of the bytes alone, and always
/// 43 characters long.
pub fn digest_of(data: &[u8]) -> (r: String)
    ensures
        r@ == digest_text(data@),
        r@.len() == 43,
{
    let d = sha256_digest(data);
    base64url_encode(&d)
}

/// The content hash of an encrypted blob: its public identifier and the name
/// of its file on disk.
pub fn content_hash(e_filedata: &[u8]) -> (r: String)
    ensures
        r@ == digest_text(e_filedata@),
        r@.len() == 43,
{
    digest_of(e_filedata)
}

/// The text in which 32 secret bytes are handed to the client.
pub fn capability_text(key: &[u8; 32]) -> (r: String)
    ensures
        r@ == base64url(key@),
        r@.len() == 43,
        capability_bytes(r@) == Some(key@),
{
    base64url_encode(key)
}

/// Whether the presented capability is the one whose digest is stored.
pub fn capability_is(presented: &str, stored: &str) -> (b: bool)
    ensures
        b == capability_matches(presented@, stored@),
{
    match base64url_decode(presented) {
        Some(bytes) => {
            if bytes.len() == KEY_LEN {
                let d = digest_of(bytes.as_slice());
                same_text(d.as_str(), stored)
            } else {
                false
            }
        },
        None => false,
    }
}

/// The digest text under which the session of the given cookie is stored.
pub fn session_digest(cookie: &str) -> (r: String)
    ensures
        r@ == session_digest_text(cookie@),
        r@.len() == 43,
{
    match base64url_decode(cookie) {
        Some(bytes) => digest_of(bytes.as_slice()),
        None => {
            let empty: Vec<u8> = Vec::new();
            digest_of(empty.as_slice())
        },
    }
}

/// Content addressing is deterministic: equal ciphertexts have equal content
/// hashes.
pub proof fn lemma_content_hash_deterministic(a: Seq<u8>, b: Seq<u8>)
    requires
        a == b,
    ensures
        digest_text(a) == digest_text(b),
{
}

/// The capability handed out for a key matches the digest stored for that key.
pub proof fn lemma_issued_capability_matches(key: Seq<u8>, capability: Seq<char>)
    requires
        key.len() == 32,
        base64url_decoding(capability) == Some(key),
    ensures
        capability_matches(capability, digest_text(key)),
{
}

} // verus!
