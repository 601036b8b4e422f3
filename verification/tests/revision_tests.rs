use bsds_core::encrypt::{decrypt, encrypt, encrypt_if_needed, is_encrypted};
use bsds_core::webhook::sponsor_payment_step;
use bsds_core::receipt_service::{checked_next_receipt_number, issues_new_receipt};
use bsds_core::api::list_window;
use bsds_core::dates::read_date;
use bsds_core::api::{plan_profile_sub_members, SubMemberInput};
use bsds_core::audit::{snapshot_source, SnapshotSource};
use bsds_core::auth::hash_password;
use bsds_core::bootstrap::{bootstrap_email, plan_bootstrap_entry, BootstrapStep};
use bsds_core::permissions::{can_access_route, Role};
use bsds_core::rate_limit::RateLimiter;
use bsds_core::webhook::{already_processed_result, plan_sponsor_payment, PaymentNotes, RazorpayPaymentPayload};
use bsds_core::whatsapp::format_indian_phone;

#[test]
fn bootstrap_refuses_unknown_roles() {
    let step = plan_bootstrap_entry("superuser", "a@b.c", "A", "1", false, "abcdef12-0000-0000-0000-000000000000");
    assert!(matches!(step, BootstrapStep::InvalidRole));
}

#[test]
fn bootstrap_skips_existing_accounts() {
    let step = plan_bootstrap_entry("admin", "a@b.c", "A", "1", true, "abcdef12-0000-0000-0000-000000000000");
    assert!(matches!(step, BootstrapStep::Skip));
}

#[test]
fn bootstrap_creates_temporary_password_accounts() {
    assert_eq!(bootstrap_email("  Admin@Club.ORG "), "admin@club.org");
    match plan_bootstrap_entry("Operator", "  Op@Club.org ", " Op Name ", " 98300 ", false, "abcdef12-3456-7890-abcd-ef1234567890") {
        BootstrapStep::Create(u) => {
            assert_eq!(u.role, "OPERATOR");
            assert_eq!(u.email, "op@club.org");
            assert_eq!(u.name, "Op Name");
            assert_eq!(u.phone, "98300");
            assert!(u.is_temp_password);
            assert_eq!(u.membership_status, "PENDING_PAYMENT");
            assert_eq!(u.member_id, "PENDING-ABCDEF12");
            assert_eq!(u.user_id, "abcdef12-3456-7890-abcd-ef1234567890");
        }
        _ => panic!("expected an account to create"),
    }
}

#[test]
fn short_member_id_gets_dash_and_position() {
    let entries = vec![SubMemberInput {
        name: "A".to_string(),
        email: "a@b.c".to_string(),
        phone: String::new(),
        relation: String::new(),
    }];
    let subs = plan_profile_sub_members("X", &entries);
    assert_eq!(subs[0].member_id, "X-01");
}

#[test]
fn password_hash_has_cost_twelve() {
    let h = hash_password("secret").unwrap();
    assert_eq!(h.len(), 60);
    assert!(h.starts_with("$2b$12$"));
}

#[test]
fn phone_normalising_twice_changes_nothing() {
    for p in ["9830012345", "919830012345", "+91 98300 12345", "+44 20 7946 0958", "12+34", "", "++91-98300-12345"] {
        let once = format_indian_phone(p);
        assert!(once.starts_with('+'));
        assert!(once.chars().all(|c| c.is_ascii_digit() || c == '+'));
        assert_eq!(format_indian_phone(&once), once);
    }
}

#[test]
fn admins_reach_every_route_and_access_is_upward_closed() {
    for route in ["/dashboard/approvals", "/api/cron", "/api/members", "/dashboard", "/api/some-unlisted-thing"] {
        assert!(can_access_route(Role::Admin, route));
    }
    assert!(can_access_route(Role::Organiser, "/api/members"));
    assert!(can_access_route(Role::Operator, "/api/members"));
    assert!(!can_access_route(Role::Member, "/api/members"));
    assert!(can_access_route(Role::Member, "/api/some-unlisted-thing"));
}

#[test]
fn snapshot_resolution_order() {
    assert_eq!(snapshot_source(true, true), SnapshotSource::Stored);
    assert_eq!(snapshot_source(false, true), SnapshotSource::Built);
    assert_eq!(snapshot_source(false, false), SnapshotSource::Empty);
}

#[test]
fn sponsor_payment_records_an_approved_cash_in() {
    let mut notes = PaymentNotes::new();
    notes.insert("sponsorPurpose".to_string(), "GOLD_SPONSOR".to_string());
    let payload = RazorpayPaymentPayload {
        razorpay_payment_id: "pay_9".to_string(),
        razorpay_order_id: None,
        amount_paise: 250_050,
        method: "upi".to_string(),
        upi_vpa: Some("s@upi".to_string()),
        bank_name: None,
        sender_bank_account: None,
        contact: None,
        email: None,
        notes,
    };
    let rec = plan_sponsor_payment(&payload).unwrap();
    assert_eq!(rec.transaction_type, "CASH_IN");
    assert_eq!(rec.category, "SPONSORSHIP");
    assert_eq!(rec.approval_status, "APPROVED");
    assert_eq!(rec.approval_source, "RAZORPAY_WEBHOOK");
    assert_eq!(rec.amount_paise, 250_050);
    let again = already_processed_result("tx-1".to_string(), Some("BSDS-REC-2026-0001".to_string()));
    assert!(again.success && again.already_processed);
    assert_eq!(again.transaction_id.as_deref(), Some("tx-1"));
}

#[test]
fn cleanup_keeps_recent_requests() {
    let mut l = RateLimiter::new();
    let r = l.check("k", 5, 60_000);
    assert!(r.success);
    l.cleanup(60_000);
    assert_eq!(l.store_size(), 1);
    l.cleanup(0);
    assert_eq!(l.store_size(), 0);
}

#[test]
fn encrypting_with_a_full_key_succeeds() {
    let key = [7u8; 32];
    let c = encrypt("hello", &key).unwrap();
    assert!(is_encrypted(&c));
    assert_eq!(decrypt(&c, &key).unwrap(), "hello");
    let once = encrypt_if_needed(Some("secret"), &key).unwrap().unwrap();
    assert!(is_encrypted(&once));
    assert_eq!(encrypt_if_needed(Some(&once), &key).unwrap(), Some(once.clone()));
    assert!(encrypt("x", &[1u8; 16]).is_err());
}

#[test]
fn sponsor_payment_seen_before_records_nothing() {
    let mut notes = PaymentNotes::new();
    notes.insert("sponsorPurpose".to_string(), "TITLE_SPONSOR".to_string());
    let payload = RazorpayPaymentPayload {
        razorpay_payment_id: "pay_1".to_string(),
        razorpay_order_id: None,
        amount_paise: 100,
        method: "upi".to_string(),
        upi_vpa: None,
        bank_name: None,
        sender_bank_account: None,
        contact: None,
        email: None,
        notes: notes.clone(),
    };
    let again = sponsor_payment_step(&payload, Some(("tx-9".to_string(), None))).unwrap_err();
    assert!(again.success && again.already_processed);
    assert_eq!(again.transaction_id.as_deref(), Some("tx-9"));
    assert!(sponsor_payment_step(&payload, None).is_ok());
    let mut bad = payload.clone();
    bad.notes = PaymentNotes::new();
    let failed = sponsor_payment_step(&bad, Some(("tx-9".to_string(), None))).unwrap_err();
    assert!(!failed.success);
}

#[test]
fn receipts_are_issued_once() {
    assert!(issues_new_receipt(true, "MEMBERSHIP", "CASH_IN", false));
    assert!(!issues_new_receipt(true, "MEMBERSHIP", "CASH_IN", true));
    assert!(!issues_new_receipt(true, "EXPENSE", "CASH_OUT", false));
    assert!(!issues_new_receipt(false, "MEMBERSHIP", "CASH_IN", false));
    assert_eq!(checked_next_receipt_number(2026, Some("BSDS-REC-2026-0041")).as_deref(), Some("BSDS-REC-2026-0042"));
    assert_eq!(checked_next_receipt_number(2026, Some("BSDS-REC-2026-4294967295")), None);
}

#[test]
fn list_window_defaults() {
    assert_eq!(list_window(None, None), (1, 50));
    assert_eq!(list_window(Some(0), Some(0)), (1, 1));
    assert_eq!(list_window(Some(3), Some(20)), (3, 20));
}

#[test]
fn reading_whole_dates() {
    assert!(read_date("2026-03-01").is_some());
    assert!(read_date("2026-03-01T00:00:00Z").is_none());
    assert!(read_date("nope").is_none());
}
