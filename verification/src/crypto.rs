//! Calls into the encoding and cryptography crates: Base64, hex,
//! HMAC-SHA256, AES-256-GCM, bcrypt, UUID parsing, and the operating
//! system's randomness.
//!
//! Each function here is trusted: its contract is believed, not proved.
//! Deterministic results are given names; the few facts claimed beside a
//! name are what the crates' documentation promises (decoding an encoding
//! gives the bytes back; opening what was sealed with the same key and nonce
//! gives the plaintext back).

use vstd::prelude::*;
use vstd::utf8::{decode_utf8, valid_utf8};
use aes_gcm::aead::{Aead, KeyInit};
use aes_gcm::AeadCore;
use rand::Rng;
use base64::Engine;
use hmac::Mac;
use crate::text::digit_char;

verus! {

// ---------------------------------------------------------------------------
// Names for what the outside functions compute
// ---------------------------------------------------------------------------

/// `base64::engine::general_purpose::STANDARD.encode`
pub uninterp spec fn base64_std_encoding(bytes: Seq<u8>) -> Seq<char>;

/// `base64::engine::general_purpose::STANDARD.decode` (`None` on error)
pub uninterp spec fn base64_std_decoding(text: Seq<char>) -> Option<Seq<u8>>;

/// `base64::engine::general_purpose::URL_SAFE_NO_PAD.encode`
pub uninterp spec fn base64_url_encoding(bytes: Seq<u8>) -> Seq<char>;

/// `base64::engine::general_purpose::URL_SAFE_NO_PAD.decode` (`None` on error)
pub uninterp spec fn base64_url_decoding(text: Seq<char>) -> Option<Seq<u8>>;

/// The lower-case hex digit of `n` (below 16).
pub open spec fn hex_digit(n: u8) -> char {
    if n < 10 { (('0' as u8) + n) as char } else { (('a' as u8) + (n - 10)) as char }
}

/// `hex::encode`: each byte as two lower-case hex digits, high nibble first.
pub open spec fn hex_encoding(bytes: Seq<u8>) -> Seq<char>
    decreases bytes.len(),
{
    if bytes.len() == 0 {
        Seq::empty()
    } else {
        seq![hex_digit(bytes[0] / 16), hex_digit(bytes[0] % 16)] + hex_encoding(bytes.drop_first())
    }
}

/// The value of a hex digit of either case.
pub open spec fn hex_value(c: char) -> Option<u8> {
    if '0' <= c <= '9' {
        Some(((c as u8) - ('0' as u8)) as u8)
    } else if 'a' <= c <= 'f' {
        Some(((c as u8) - ('a' as u8) + 10) as u8)
    } else if 'A' <= c <= 'F' {
        Some(((c as u8) - ('A' as u8) + 10) as u8)
    } else {
        None
    }
}

/// `hex::decode`: pairs of hex digits of either case, high nibble first, as
/// bytes; `None` for an odd length or any other character.
pub open spec fn hex_decoding(text: Seq<char>) -> Option<Seq<u8>>
    decreases text.len(),
{
    if text.len() == 0 {
        Some(Seq::empty())
    } else if text.len() == 1 {
        None
    } else {
        match (hex_value(text[0]), hex_value(text[1]), hex_decoding(text.subrange(2, text.len() as int))) {
            (Some(h), Some(l), Some(rest)) => Some(seq![(h * 16 + l) as u8] + rest),
            _ => None,
        }
    }
}

proof fn lemma_hex_digit(n: u8)
    requires
        n < 16,
    ensures
        hex_value(hex_digit(n)) == Some(n),
        hex_digit(n) != '.',
{
    if n < 10 {
        assert(('0' as u8) == 48);
        assert(hex_digit(n) as u32 == 48 + n);
    } else {
        assert(('a' as u8) == 97);
        assert(hex_digit(n) as u32 == 97 + n - 10);
    }
}

/// Hex text decodes back to its bytes and holds no `.`.
pub proof fn lemma_hex_round_trip(bytes: Seq<u8>)
    ensures
        hex_decoding(hex_encoding(bytes)) == Some(bytes),
        !hex_encoding(bytes).contains('.'),
    decreases bytes.len(),
{
    if bytes.len() > 0 {
        let b = bytes[0];
        let t = hex_encoding(bytes);
        let rest = bytes.drop_first();
        lemma_hex_round_trip(rest);
        assert(b / 16 < 16 && b % 16 < 16);
        lemma_hex_digit(b / 16);
        lemma_hex_digit(b % 16);
        assert(((b / 16) * 16 + b % 16) as u8 == b);
        assert(t.subrange(2, t.len() as int) =~= hex_encoding(rest));
        assert(seq![b] + rest =~= bytes);
        assert forall|i: int| 0 <= i < t.len() implies t[i] != '.' by {
            if i >= 2 {
                assert(t[i] == hex_encoding(rest)[i - 2]);
            }
        }
    }
}

/// The HMAC-SHA256 tag of `message` under `key` (32 bytes).
pub uninterp spec fn hmac_sha256(key: Seq<u8>, message: Seq<u8>) -> Seq<u8>;

/// AES-256-GCM encryption of `plaintext` with a 32-byte `key` and a 12-byte
/// `nonce`: the ciphertext followed by the 16-byte tag (`None` on error).
pub uninterp spec fn aes_gcm_seal(key: Seq<u8>, nonce: Seq<u8>, plaintext: Seq<u8>) -> Option<Seq<u8>>;

/// AES-256-GCM decryption and authentication (`None` on error).
pub uninterp spec fn aes_gcm_open(key: Seq<u8>, nonce: Seq<u8>, sealed: Seq<u8>) -> Option<Seq<u8>>;

/// `bcrypt::verify` (`None` when the hash is malformed).
pub uninterp spec fn bcrypt_check(password: Seq<char>, hash: Seq<char>) -> Option<bool>;

// ---------------------------------------------------------------------------
// Base64
// ---------------------------------------------------------------------------

/// `STANDARD.encode`. Claims the result is named `base64_std_encoding` and
/// decodes back to `bytes`.
#[verifier::external_body]
pub(crate) fn base64_std_encode(bytes: &[u8]) -> (r: String)
    ensures
        r@ == base64_std_encoding(bytes@),
        base64_std_decoding(r@) == Some(bytes@),
{
    base64::engine::general_purpose::STANDARD.encode(bytes)
}

/// `STANDARD.decode`. Claims the result is named `base64_std_decoding`.
#[verifier::external_body]
pub(crate) fn base64_std_decode(text: &str) -> (r: Option<Vec<u8>>)
    ensures
        match r {
            Some(v) => base64_std_decoding(text@) == Some(v@),
            None => base64_std_decoding(text@) is None,
        },
{
    base64::engine::general_purpose::STANDARD.decode(text).ok()
}

/// `URL_SAFE_NO_PAD.encode`. Claims the result is named
/// `base64_url_encoding`, decodes back to `bytes`, and (being made of the
/// URL-safe alphabet) holds no `.`.
#[verifier::external_body]
pub(crate) fn base64_url_encode(bytes: &[u8]) -> (r: String)
    ensures
        r@ == base64_url_encoding(bytes@),
        base64_url_decoding(r@) == Some(bytes@),
        !r@.contains('.'),
{
    base64::engine::general_purpose::URL_SAFE_NO_PAD.encode(bytes)
}

/// `URL_SAFE_NO_PAD.decode`. Claims the result is named `base64_url_decoding`.
#[verifier::external_body]
pub(crate) fn base64_url_decode(text: &str) -> (r: Option<Vec<u8>>)
    ensures
        match r {
            Some(v) => base64_url_decoding(text@) == Some(v@),
            None => base64_url_decoding(text@) is None,
        },
{
    base64::engine::general_purpose::URL_SAFE_NO_PAD.decode(text).ok()
}

// ---------------------------------------------------------------------------
// Hex
// ---------------------------------------------------------------------------

/// `hex::encode`. Claims the result is `hex_encoding` of `bytes`: each
/// byte as two lower-case hex digits.
#[verifier::external_body]
pub(crate) fn hex_encode(bytes: &[u8]) -> (r: String)
    ensures
        r@ == hex_encoding(bytes@),
{
    hex::encode(bytes)
}

/// `hex::decode`. Claims the result is `hex_decoding` of `text`.
#[verifier::external_body]
pub(crate) fn hex_decode(text: &str) -> (r: Option<Vec<u8>>)
    ensures
        match r {
            Some(v) => hex_decoding(text@) == Some(v@),
            None => hex_decoding(text@) is None,
        },
{
    hex::decode(text).ok()
}

// ---------------------------------------------------------------------------
// HMAC-SHA256
// ---------------------------------------------------------------------------

/// `Hmac::<Sha256>::new_from_slice(key)`, `update(message)`, `finalize`.
/// HMAC takes keys of any length. Claims the tag is named `hmac_sha256`.
#[verifier::external_body]
pub(crate) fn hmac_sha256_tag(key: &[u8], message: &[u8]) -> (r: Vec<u8>)
    ensures
        r@ == hmac_sha256(key@, message@),
{
    let mut mac = <hmac::Hmac<sha2::Sha256> as Mac>::new_from_slice(key).expect("HMAC takes keys of any length");
    mac.update(message);
    mac.finalize().into_bytes().to_vec()
}

/// `Mac::verify_slice` on the HMAC-SHA256 of `message` under `key`: whether
/// `tag` is exactly that tag (compared in constant time).
#[verifier::external_body]
pub(crate) fn hmac_sha256_verify(key: &[u8], message: &[u8], tag: &[u8]) -> (r: bool)
    ensures
        r == (tag@ == hmac_sha256(key@, message@)),
{
    let mut mac = <hmac::Hmac<sha2::Sha256> as Mac>::new_from_slice(key).expect("HMAC takes keys of any length");
    mac.update(message);
    mac.verify_slice(tag).is_ok()
}

// ---------------------------------------------------------------------------
// AES-256-GCM
// ---------------------------------------------------------------------------

/// A fresh random 12-byte nonce (`Aes256Gcm::generate_nonce(&mut OsRng)`).
#[verifier::external_body]
pub(crate) fn random_nonce() -> (r: Vec<u8>)
    ensures
        r@.len() == 12,
{
    aes_gcm::Aes256Gcm::generate_nonce(&mut aes_gcm::aead::OsRng).to_vec()
}

/// `Aes256Gcm::new_from_slice(key)` then `encrypt(nonce, plaintext)`.
/// Keys that are not 32 bytes are refused; with a 32-byte key, a plaintext of
/// at most 2^36 bytes (`P_MAX`) is always sealed. Claims the result is named
/// `aes_gcm_seal`, is 16 bytes longer than the plaintext, and opens back to
/// the plaintext with the same key and nonce.
#[verifier::external_body]
pub(crate) fn aes_gcm_encrypt(key: &[u8], nonce: &[u8], plaintext: &[u8]) -> (r: Option<Vec<u8>>)
    requires
        nonce@.len() == 12,
    ensures
        key@.len() != 32 ==> r is None,
        key@.len() == 32 && plaintext@.len() <= 68719476736 ==> r is Some,
        match r {
            Some(v) => aes_gcm_seal(key@, nonce@, plaintext@) == Some(v@)
                && v@.len() == plaintext@.len() + 16
                && aes_gcm_open(key@, nonce@, v@) == Some(plaintext@),
            None => aes_gcm_seal(key@, nonce@, plaintext@) is None,
        },
{
    let cipher = aes_gcm::Aes256Gcm::new_from_slice(key).ok()?;
    cipher.encrypt(aes_gcm::Nonce::from_slice(nonce), plaintext).ok()
}

/// `Aes256Gcm::new_from_slice(key)` then `decrypt(nonce, sealed)`. Keys that
/// are not 32 bytes are refused. Claims the result is named `aes_gcm_open`.
#[verifier::external_body]
pub(crate) fn aes_gcm_decrypt(key: &[u8], nonce: &[u8], sealed: &[u8]) -> (r: Option<Vec<u8>>)
    requires
        nonce@.len() == 12,
    ensures
        key@.len() != 32 ==> r is None,
        match r {
            Some(v) => aes_gcm_open(key@, nonce@, sealed@) == Some(v@),
            None => aes_gcm_open(key@, nonce@, sealed@) is None,
        },
{
    let cipher = aes_gcm::Aes256Gcm::new_from_slice(key).ok()?;
    cipher.decrypt(aes_gcm::Nonce::from_slice(nonce), sealed).ok()
}

// ---------------------------------------------------------------------------
// UTF-8 (std)
// ---------------------------------------------------------------------------

/// `String::from_utf8`: the text the bytes encode, when they are valid UTF-8.
#[verifier::external_body]
pub(crate) fn utf8_to_string(bytes: Vec<u8>) -> (r: Option<String>)
    ensures
        r is Some <==> valid_utf8(bytes@),
        r matches Some(s) ==> s@ == decode_utf8(bytes@),
{
    String::from_utf8(bytes).ok()
}

// ---------------------------------------------------------------------------
// bcrypt
// ---------------------------------------------------------------------------

#[verifier::external_type_specification]
#[verifier::external_body]
pub struct ExBcryptError(bcrypt::BcryptError);

/// The first seven characters of a bcrypt hash of cost `cost` (below 100):
/// `$2b$`, the cost in two digits, and `$`.
pub open spec fn bcrypt_hash_prefix(cost: u32) -> Seq<char> {
    seq!['$', '2', 'b', '$', digit_char((cost / 10) as nat), digit_char((cost % 10) as nat), '$']
}

/// `bcrypt::hash(plain, cost)` with a random salt. A cost outside 4..=31 is
/// refused. Claims that a hash it returns verifies the same password and is
/// the 60 characters `$2b$`, the two-digit cost, `$`, then 53 characters of
/// salt and digest. Whether the OS supplies a salt is left unsaid.
#[verifier::external_body]
pub(crate) fn bcrypt_hash(plain: &str, cost: u32) -> (r: Result<String, bcrypt::BcryptError>)
    ensures
        !(4 <= cost <= 31) ==> r is Err,
        r matches Ok(h) ==> bcrypt_check(plain@, h@) == Some(true),
        r matches Ok(h) ==> h@.len() == 60 && h@.subrange(0, 7) == bcrypt_hash_prefix(cost),
{
    bcrypt::hash(plain, cost)
}

/// `bcrypt::verify(plain, hash)`. Claims the result is named `bcrypt_check`.
#[verifier::external_body]
pub(crate) fn bcrypt_verify(plain: &str, hash: &str) -> (r: Result<bool, bcrypt::BcryptError>)
    ensures
        match r {
            Ok(b) => bcrypt_check(plain@, hash@) == Some(b),
            Err(_) => bcrypt_check(plain@, hash@) is None,
        },
{
    bcrypt::verify(plain, hash)
}

// ---------------------------------------------------------------------------
// Randomness
// ---------------------------------------------------------------------------

/// `rand::thread_rng().gen_range(0..n)`: some index below `n`.
#[verifier::external_body]
pub(crate) fn random_below(n: usize) -> (r: usize)
    requires
        n > 0,
    ensures
        r < n,
{
    rand::thread_rng().gen_range(0..n)
}

// ---------------------------------------------------------------------------
// UUIDs
// ---------------------------------------------------------------------------

/// Whether `uuid::Uuid::parse_str` accepts `text` (hyphenated, simple,
/// braced or URN form).
pub uninterp spec fn uuid_parses(text: Seq<char>) -> bool;

/// `uuid::Uuid::parse_str(text).is_ok()`. Claims the answer is named
/// `uuid_parses`.
#[verifier::external_body]
pub(crate) fn uuid_valid(text: &str) -> (r: bool)
    ensures
        r == uuid_parses(text@),
{
    uuid::Uuid::parse_str(text).is_ok()
}

} // verus!
