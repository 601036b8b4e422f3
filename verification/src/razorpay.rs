//! Razorpay credentials and signature checks.
//!
//! Razorpay signs a checkout as HMAC-SHA256 of `order_id|payment_id` under
//! the key secret, and a webhook body under the webhook secret; both
//! signatures travel hex-encoded.

use vstd::prelude::*;
use vstd::utf8::encode_utf8;
use crate::crypto::{hex_decode, hex_decoding, hmac_sha256, hmac_sha256_verify};
use crate::text::push_char;

verus! {

broadcast use vstd::string::group_string_axioms;

/// Why a Razorpay operation could not be carried out.
#[derive(Debug, Clone, PartialEq, Eq)]
pub enum RazorpayError {
    /// The API key id or secret is missing or empty.
    MissingCredentials,
    /// The webhook secret is missing or empty.
    MissingWebhookSecret,
    /// The API answered with a failure status.
    Api { status: u16, body: String },
}

impl RazorpayError {
    /// The error's message.
    pub fn message(&self) -> (r: String)
        ensures
            match self {
                RazorpayError::MissingCredentials => r@ == "RAZORPAY_KEY_ID and RAZORPAY_KEY_SECRET must be set in environment variables"@,
                RazorpayError::MissingWebhookSecret => r@ == "RAZORPAY_WEBHOOK_SECRET is not set"@,
                RazorpayError::Api { status, body } => r@ == "Razorpay API error (HTTP "@
                    + crate::text::decimal(*status as nat) + "): "@ + body@,
            },
    {
        match self {
            RazorpayError::MissingCredentials => "RAZORPAY_KEY_ID and RAZORPAY_KEY_SECRET must be set in environment variables".to_string(),
            RazorpayError::MissingWebhookSecret => "RAZORPAY_WEBHOOK_SECRET is not set".to_string(),
            RazorpayError::Api { status, body } => {
                let mut r = "Razorpay API error (HTTP ".to_string();
                crate::text::push_decimal(&mut r, *status as u64);
                r.append("): ");
                r.append(body.as_str());
                r
            },
        }
    }
}

/// Whether `hex_signature` is the hex encoding of the HMAC-SHA256 tag of
/// `payload` under `secret` (compared in constant time).
pub open spec fn signature_valid(secret: Seq<char>, payload: Seq<char>, hex_signature: Seq<char>) -> bool {
    match hex_decoding(hex_signature) {
        Some(tag) => tag == hmac_sha256(encode_utf8(secret), encode_utf8(payload)),
        None => false,
    }
}

/// Checks a hex-encoded HMAC-SHA256 signature of `payload` under `secret`;
/// text that is not hex never verifies.
pub fn verify_hmac_sha256(secret: &str, payload: &str, expected_hex: &str) -> (b: bool)
    ensures
        b == signature_valid(secret@, payload@, expected_hex@),
{
    let expected = match hex_decode(expected_hex) {
        Some(bytes) => bytes,
        None => return false,
    };
    hmac_sha256_verify(secret.as_bytes(), payload.as_bytes(), expected.as_slice())
}

/// The text Razorpay signs for a checkout: `order_id|payment_id`.
pub open spec fn checkout_payload(order_id: Seq<char>, payment_id: Seq<char>) -> Seq<char> {
    order_id + seq!['|'] + payment_id
}

/// API credentials for Razorpay.
#[derive(Debug, Clone)]
pub struct RazorpayClient {
    key_id: String,
    key_secret: String,
}

/// A credential as configured: present and not empty.
pub open spec fn configured(value: Option<String>) -> bool {
    value matches Some(v) && v@.len() > 0
}

impl RazorpayClient {
    pub closed spec fn spec_key_id(&self) -> Seq<char> {
        self.key_id@
    }

    pub closed spec fn spec_key_secret(&self) -> Seq<char> {
        self.key_secret@
    }

    /// Credentials from the configured key id and secret; both must be
    /// present and not empty.
    pub fn from_credentials(key_id: Option<String>, key_secret: Option<String>) -> (r: Result<RazorpayClient, RazorpayError>)
        ensures
            match r {
                Ok(c) => key_id matches Some(k) && key_secret matches Some(s)
                    && k@.len() > 0 && s@.len() > 0
                    && c.spec_key_id() == k@ && c.spec_key_secret() == s@,
                Err(e) => e == RazorpayError::MissingCredentials
                    && !(configured(key_id) && configured(key_secret)),
            },
    {
        let key_id = match key_id {
            Some(k) if k.as_str().unicode_len() > 0 => k,
            _ => return Err(RazorpayError::MissingCredentials),
        };
        let key_secret = match key_secret {
            Some(s) if s.as_str().unicode_len() > 0 => s,
            _ => return Err(RazorpayError::MissingCredentials),
        };
        Ok(RazorpayClient { key_id, key_secret })
    }

    /// The key id, needed by the checkout page.
    pub fn key_id(&self) -> (r: &str)
        ensures
            r@ == self.spec_key_id(),
    {
        self.key_id.as_str()
    }

    /// Whether `signature` is Razorpay's signature of a checkout
    /// (`order_id|payment_id` under the key secret).
    pub fn verify_payment_signature(&self, order_id: &str, payment_id: &str, signature: &str) -> (b: bool)
        ensures
            b == signature_valid(self.spec_key_secret(), checkout_payload(order_id@, payment_id@), signature@),
    {
        let mut payload = order_id.to_string();
        push_char(&mut payload, '|');
        payload.append(payment_id);
        assert(payload@ =~= checkout_payload(order_id@, payment_id@));
        verify_hmac_sha256(self.key_secret.as_str(), payload.as_str(), signature)
    }
}

/// Verifies the signature on a webhook body (the raw request text) under the
/// configured webhook secret, which must be present and not empty.
pub fn verify_webhook_signature(webhook_secret: Option<&str>, body: &str, signature: &str) -> (r: Result<bool, RazorpayError>)
    ensures
        match webhook_secret {
            Some(s) if s@.len() > 0 => r == Ok::<bool, RazorpayError>(signature_valid(s@, body@, signature@)),
            _ => r == Err::<bool, RazorpayError>(RazorpayError::MissingWebhookSecret),
        },
{
    match webhook_secret {
        Some(s) => {
            if s.unicode_len() == 0 {
                return Err(RazorpayError::MissingWebhookSecret);
            }
            Ok(verify_hmac_sha256(s, body, signature))
        },
        None => Err(RazorpayError::MissingWebhookSecret),
    }
}


/// An order as Razorpay answers it.
#[derive(Debug, Clone)]
pub struct RazorpayOrder {
    pub id: String,
    pub entity: String,
    /// Amount in paise.
    pub amount: u64,
    pub amount_paid: u64,
    pub amount_due: u64,
    pub currency: String,
    pub receipt: Option<String>,
    pub status: String,
    pub notes: crate::webhook::PaymentNotes,
    pub created_at: u64,
}

/// An order to create with Razorpay.
#[derive(Debug, Clone)]
pub struct CreateOrderOptions {
    /// Amount in paise.
    pub amount: u64,
    /// Always `INR` here.
    pub currency: String,
    /// Reference shown on Razorpay's dashboard (at most 40 bytes).
    pub receipt: String,
    /// Echoed back with the payment.
    pub notes: Option<crate::webhook::PaymentNotes>,
}

/// The order for `amount_paise`, in rupees, with its receipt reference and
/// notes.
pub fn order_options(amount_paise: u64, receipt: String, notes: crate::webhook::PaymentNotes) -> (r: CreateOrderOptions)
    ensures
        r.amount == amount_paise,
        r.currency@ == "INR"@,
        r.receipt == receipt,
        r.notes == Some(notes),
{
    CreateOrderOptions { amount: amount_paise, currency: "INR".to_string(), receipt, notes: Some(notes) }
}

} // verus!
