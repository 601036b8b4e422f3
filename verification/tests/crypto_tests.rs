use bsds_core::encrypt::{decrypt, decrypt_if_needed, encrypt, encrypt_if_needed, is_encrypted, EncryptError};
use bsds_core::razorpay::{verify_hmac_sha256, verify_webhook_signature, RazorpayClient, RazorpayError};
use hmac::{Hmac, Mac};

type HmacSha256 = Hmac<sha2::Sha256>;

fn test_key() -> [u8; 32] {
    [0xABu8; 32]
}

fn sign(secret: &str, payload: &str) -> String {
    let mut mac = HmacSha256::new_from_slice(secret.as_bytes()).unwrap();
    mac.update(payload.as_bytes());
    hex::encode(mac.finalize().into_bytes())
}

#[test]
fn round_trip() {
    let key = test_key();
    let plaintext = "hello world";
    let encrypted = encrypt(plaintext, &key).unwrap();
    assert!(is_encrypted(&encrypted));
    let decrypted = decrypt(&encrypted, &key).unwrap();
    assert_eq!(decrypted, plaintext);
}

#[test]
fn different_ciphertexts_for_same_plaintext() {
    let key = test_key();
    let a = encrypt("test", &key).unwrap();
    let b = encrypt("test", &key).unwrap();
    assert_ne!(a, b);
}

#[test]
fn decrypt_not_encrypted_returns_error() {
    let key = test_key();
    assert!(matches!(decrypt("plain", &key), Err(EncryptError::NotEncrypted)));
}

#[test]
fn encryption_errors() {
    assert!(matches!(encrypt("x", &[1u8; 16]), Err(EncryptError::EncryptionFailed)));
    assert!(matches!(decrypt("enc:AAAA", &test_key()), Err(EncryptError::BlobTooShort { .. })));
    assert!(matches!(decrypt("enc:***", &test_key()), Err(EncryptError::Base64)));
    let sealed = encrypt("secret", &test_key()).unwrap();
    assert!(matches!(decrypt(&sealed, &[0x11u8; 32]), Err(EncryptError::DecryptionFailed)));
}

#[test]
fn encrypt_if_needed_keeps_encrypted_values() {
    let key = test_key();
    assert_eq!(encrypt_if_needed(None, &key).unwrap(), None);
    let once = encrypt_if_needed(Some("acct-42"), &key).unwrap().unwrap();
    assert!(once.starts_with("enc:"));
    assert_eq!(encrypt_if_needed(Some(&once), &key).unwrap(), Some(once.clone()));
    assert_eq!(decrypt_if_needed(Some(&once), &key), Some("acct-42".to_string()));
    assert_eq!(decrypt_if_needed(Some("plain"), &key), Some("plain".to_string()));
}

#[test]
fn test_hmac_verification() {
    let secret = "test_secret";
    let payload = "order_123|pay_456";
    let signature = sign(secret, payload);
    assert!(verify_hmac_sha256(secret, payload, &signature));
    assert!(!verify_hmac_sha256(secret, payload, "wrong_hex"));
    assert!(!verify_hmac_sha256(secret, "different_payload", &signature));
}

#[test]
fn payment_signature_over_order_and_payment() {
    let client = RazorpayClient::from_credentials(Some("key_1".to_string()), Some("s3cret".to_string())).unwrap();
    assert_eq!(client.key_id(), "key_1");
    let sig = sign("s3cret", "order_1|pay_2");
    assert!(client.verify_payment_signature("order_1", "pay_2", &sig));
    assert!(!client.verify_payment_signature("order_1", "pay_3", &sig));
}

#[test]
fn razorpay_credentials_required() {
    assert!(matches!(
        RazorpayClient::from_credentials(Some(String::new()), Some("x".to_string())),
        Err(RazorpayError::MissingCredentials)
    ));
    assert!(matches!(RazorpayClient::from_credentials(Some("k".to_string()), None), Err(RazorpayError::MissingCredentials)));
    assert_eq!(
        RazorpayError::MissingWebhookSecret.message(),
        "RAZORPAY_WEBHOOK_SECRET is not set"
    );
    assert_eq!(
        RazorpayError::Api { status: 502, body: "bad".to_string() }.message(),
        "Razorpay API error (HTTP 502): bad"
    );
}

#[test]
fn webhook_signature_needs_secret() {
    let body = r#"{"event":"payment.captured"}"#;
    let sig = sign("whsec", body);
    assert_eq!(verify_webhook_signature(Some("whsec"), body, &sig), Ok(true));
    assert_eq!(verify_webhook_signature(Some("other"), body, &sig), Ok(false));
    assert_eq!(verify_webhook_signature(Some(""), body, &sig), Err(RazorpayError::MissingWebhookSecret));
    assert_eq!(verify_webhook_signature(None, body, &sig), Err(RazorpayError::MissingWebhookSecret));
}
