//! AES-256-GCM field-level encryption for personal data at rest.
//!
//! Format: `enc:<base64(iv + ciphertext + auth_tag)>`, with a random 12-byte
//! IV per encryption and a 16-byte tag. The `enc:` prefix marks encrypted
//! values so that nothing is encrypted twice.

use vstd::prelude::*;
use vstd::utf8::{decode_utf8, encode_utf8, valid_utf8};
use crate::crypto::{
    aes_gcm_decrypt, aes_gcm_encrypt, aes_gcm_open, base64_std_decode, base64_std_decoding,
    base64_std_encode, base64_std_encoding, aes_gcm_seal, random_nonce, utf8_to_string,
};
use crate::text::{byte_len, chars_of, push_char, starts_with_chars, string_from_range};

verus! {

broadcast use vstd::string::group_string_axioms;

/// GCM IV length in bytes.
pub const IV_LENGTH: usize = 12;

/// GCM auth tag length in bytes.
pub const AUTH_TAG_LENGTH: usize = 16;

/// Prefix marking an encrypted value.
pub const ENC_PREFIX: &'static str = "enc:";

#[derive(Debug, PartialEq, Eq, Structural)]
pub enum EncryptError {
    /// The value does not start with `enc:`.
    NotEncrypted,
    /// The decoded blob is shorter than an IV and a tag.
    BlobTooShort { min: usize, got: usize },
    /// The text after `enc:` is not valid Base64.
    Base64,
    /// Encryption failed (for instance, a key that is not 32 bytes).
    EncryptionFailed,
    /// Decryption failed: wrong key, wrong key length, or tampered data.
    DecryptionFailed,
    /// The decrypted bytes are not UTF-8.
    Utf8,
}

pub open spec fn enc_prefix() -> Seq<char> {
    seq!['e', 'n', 'c', ':']
}

pub open spec fn is_encrypted_spec(s: Seq<char>) -> bool {
    s.len() >= 4 && s.subrange(0, 4) == enc_prefix()
}

/// What decrypting `text` with `key` gives.
pub open spec fn decrypt_spec(text: Seq<char>, key: Seq<u8>) -> Result<Seq<char>, EncryptError> {
    if !is_encrypted_spec(text) {
        Err(EncryptError::NotEncrypted)
    } else {
        match base64_std_decoding(text.subrange(4, text.len() as int)) {
            None => Err(EncryptError::Base64),
            Some(blob) => if blob.len() < 28 {
                Err(EncryptError::BlobTooShort { min: 28, got: blob.len() as usize })
            } else {
                match aes_gcm_open(key, blob.subrange(0, 12), blob.subrange(12, blob.len() as int)) {
                    None => Err(EncryptError::DecryptionFailed),
                    Some(pt) => if valid_utf8(pt) { Ok(decode_utf8(pt)) } else { Err(EncryptError::Utf8) },
                }
            },
        }
    }
}

/// Whether `value` looks like an output of `encrypt`.
pub fn is_encrypted(value: &str) -> (b: bool)
    ensures
        b == is_encrypted_spec(value@),
{
    let v = chars_of(value);
    proof {
        reveal_strlit("enc:");
        assert(ENC_PREFIX@ =~= enc_prefix());
    }
    starts_with_chars(&v, ENC_PREFIX)
}

/// Encrypts `plaintext` with a fresh random IV.
///
/// A 32-byte key always encrypts a plaintext of up to 2^36 bytes, and
/// whatever IV is drawn, the result decrypts back to `plaintext` with the
/// same key.
pub fn encrypt(plaintext: &str, key: &[u8]) -> (r: Result<String, EncryptError>)
    ensures
        key@.len() != 32 ==> r == Err::<String, EncryptError>(EncryptError::EncryptionFailed),
        key@.len() == 32 && byte_len(plaintext@) <= 68719476736 ==> r is Ok,
        r matches Err(e) ==> e == EncryptError::EncryptionFailed,
        r matches Ok(s) ==> is_encrypted_spec(s@) && decrypt_spec(s@, key@) == Ok::<Seq<char>, EncryptError>(plaintext@),
        r matches Ok(s) ==> exists|nonce: Seq<u8>| #[trigger] aes_gcm_seal(key@, nonce, encode_utf8(plaintext@)) is Some
            && nonce.len() == 12
            && s@ == enc_prefix() + base64_std_encoding(nonce + aes_gcm_seal(key@, nonce, encode_utf8(plaintext@))->0),
{
    let nonce = random_nonce();
    let bytes = plaintext.as_bytes();
    let sealed = match aes_gcm_encrypt(key, nonce.as_slice(), bytes) {
        Some(s) => s,
        None => return Err(EncryptError::EncryptionFailed),
    };
    let mut blob: Vec<u8> = Vec::new();
    let mut i: usize = 0;
    while i < nonce.len()
        invariant
            0 <= i <= nonce@.len(),
            blob@ == nonce@.subrange(0, i as int),
        decreases nonce.len() - i,
    {
        blob.push(nonce[i]);
        assert(nonce@.subrange(0, i + 1) == nonce@.subrange(0, i as int).push(nonce@[i as int]));
        i = i + 1;
    }
    let mut j: usize = 0;
    while j < sealed.len()
        invariant
            0 <= j <= sealed@.len(),
            nonce@.len() == 12,
            blob@ == nonce@ + sealed@.subrange(0, j as int),
        decreases sealed.len() - j,
    {
        blob.push(sealed[j]);
        assert(sealed@.subrange(0, j + 1) == sealed@.subrange(0, j as int).push(sealed@[j as int]));
        j = j + 1;
    }
    assert(sealed@.subrange(0, sealed@.len() as int) == sealed@);
    assert(nonce@.subrange(0, 12) == nonce@);
    let encoded = base64_std_encode(blob.as_slice());
    let mut out = String::new();
    push_char(&mut out, 'e');
    push_char(&mut out, 'n');
    push_char(&mut out, 'c');
    push_char(&mut out, ':');
    out.append(encoded.as_str());
    proof {
        let s = out@;
        assert(s =~= enc_prefix() + encoded@);
        assert(s.subrange(0, 4) =~= enc_prefix());
        assert(s.subrange(4, s.len() as int) =~= encoded@);
        assert(blob@.subrange(0, 12) =~= nonce@);
        assert(blob@.subrange(12, blob@.len() as int) =~= sealed@);
        vstd::utf8::encode_utf8_valid_utf8(plaintext@);
        vstd::utf8::encode_utf8_decode_utf8(plaintext@);
    }
    Ok(out)
}

/// Decrypts a value produced by `encrypt`.
pub fn decrypt(ciphertext: &str, key: &[u8]) -> (r: Result<String, EncryptError>)
    ensures
        match (r, decrypt_spec(ciphertext@, key@)) {
            (Ok(s), Ok(t)) => s@ == t,
            (Err(e), Err(f)) => e == f,
            _ => false,
        },
{
    if !is_encrypted(ciphertext) {
        return Err(EncryptError::NotEncrypted);
    }
    let chars = chars_of(ciphertext);
    let encoded = string_from_range(&chars, 4, chars.len());
    let blob = match base64_std_decode(encoded.as_str()) {
        Some(b) => b,
        None => return Err(EncryptError::Base64),
    };
    let min_len = IV_LENGTH + AUTH_TAG_LENGTH;
    if blob.len() < min_len {
        return Err(EncryptError::BlobTooShort { min: min_len, got: blob.len() });
    }
    let mut iv: Vec<u8> = Vec::new();
    let mut rest: Vec<u8> = Vec::new();
    let mut i: usize = 0;
    while i < blob.len()
        invariant
            blob@.len() >= 28,
            0 <= i <= blob@.len(),
            iv@ == blob@.subrange(0, if i < 12 { i as int } else { 12 }),
            rest@ == if i < 12 { Seq::<u8>::empty() } else { blob@.subrange(12, i as int) },
        decreases blob.len() - i,
    {
        if i < 12 {
            iv.push(blob[i]);
            assert(blob@.subrange(0, i + 1) == blob@.subrange(0, i as int).push(blob@[i as int]));
        } else {
            rest.push(blob[i]);
            assert(blob@.subrange(12, i + 1) == blob@.subrange(12, i as int).push(blob@[i as int]));
        }
        i = i + 1;
    }
    assert(rest@ == blob@.subrange(12, blob@.len() as int));
    let plain = match aes_gcm_decrypt(key, iv.as_slice(), rest.as_slice()) {
        Some(p) => p,
        None => return Err(EncryptError::DecryptionFailed),
    };
    match utf8_to_string(plain) {
        Some(s) => Ok(s),
        None => Err(EncryptError::Utf8),
    }
}

/// Encrypts a value unless it is absent or already encrypted.
pub fn encrypt_if_needed(value: Option<&str>, key: &[u8]) -> (r: Result<Option<String>, EncryptError>)
    ensures
        match value {
            None => r == Ok::<Option<String>, EncryptError>(None),
            Some(v) => if is_encrypted_spec(v@) {
                r matches Ok(Some(s)) && s@ == v@
            } else {
                &&& (key@.len() != 32 ==> r == Err::<Option<String>, EncryptError>(EncryptError::EncryptionFailed))
                &&& (key@.len() == 32 && byte_len(v@) <= 68719476736 ==> r matches Ok(Some(_)))
                &&& (r matches Err(e) ==> e == EncryptError::EncryptionFailed)
                &&& (r matches Ok(o) ==> (o matches Some(s) && is_encrypted_spec(s@)
                    && decrypt_spec(s@, key@) == Ok::<Seq<char>, EncryptError>(v@)))
            },
        },
{
    match value {
        None => Ok(None),
        Some(v) => if is_encrypted(v) {
            Ok(Some(v.to_string()))
        } else {
            match encrypt(v, key) {
                Ok(s) => Ok(Some(s)),
                Err(e) => Err(e),
            }
        },
    }
}

/// Decrypts a value when it is encrypted; plain values, and values that fail
/// to decrypt, are returned unchanged.
pub fn decrypt_if_needed(value: Option<&str>, key: &[u8]) -> (r: Option<String>)
    ensures
        match value {
            None => r is None,
            Some(v) => r matches Some(s) && s@ == (if is_encrypted_spec(v@) {
                match decrypt_spec(v@, key@) {
                    Ok(t) => t,
                    Err(_) => v@,
                }
            } else {
                v@
            }),
        },
{
    match value {
        None => None,
        Some(v) => if !is_encrypted(v) {
            Some(v.to_string())
        } else {
            match decrypt(v, key) {
                Ok(p) => Some(p),
                Err(_) => Some(v.to_string()),
            }
        },
    }
}

} // verus!
