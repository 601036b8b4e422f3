use bsds_core::api::{
    build_membership_purpose, check_sponsor_link_open, has_sponsor_notes, member_order_notes, parse_note_bool,
    payment_mode_from_method, plan_member_order, plan_profile_sub_members, profile_completed_description,
    read_membership_notes, require_authenticated, require_password_changed, sponsor_order_notes, sponsor_order_purpose,
    validate_profile, webhook_membership_details, webhook_step, AppError, SubMemberInput, WebhookStep,
};
use bsds_core::webhook::{is_sponsor_payment, plan_sponsor_payment, to_payment_mode, PaymentNotes, RazorpayPaymentPayload};

fn notes(pairs: &[(&str, &str)]) -> PaymentNotes {
    let mut n = PaymentNotes::new();
    for (k, v) in pairs {
        n.insert(k.to_string(), v.to_string());
    }
    n
}

#[test]
fn app_errors_answer_status_and_message() {
    assert_eq!(AppError::NotFound.status(), 404);
    assert_eq!(AppError::Forbidden.message(), "forbidden");
    assert_eq!(AppError::BadRequest("bad".to_string()).status(), 400);
    assert_eq!(AppError::Internal("x".to_string()).message(), "x");
    assert_eq!(require_authenticated(""), Err(AppError::Unauthorized));
    assert!(require_authenticated("MEMBER").is_ok());
    assert_eq!(require_password_changed(true), Err(AppError::Forbidden));
}

#[test]
fn notes_keep_the_last_value_per_key() {
    let mut n = notes(&[("a", "1"), ("b", "2")]);
    n.insert("a".to_string(), "3".to_string());
    assert_eq!(n.get("a"), Some("3".to_string()));
    assert_eq!(n.get("b"), Some("2".to_string()));
    assert_eq!(n.get("c"), None);
    assert!(n.contains_key("b"));
}

#[test]
fn member_orders() {
    let o = plan_member_order(None, "MONTHLY", Some(true), false).unwrap();
    assert_eq!(o.fee_type, "SUBSCRIPTION");
    assert_eq!(o.total_rupees, 10250);
    assert_eq!(o.amount_paise, 1_025_000);
    let annual = plan_member_order(Some("ANNUAL_FEE"), "bogus", Some(true), true).unwrap();
    assert!(annual.is_annual_fee && !annual.is_application_fee);
    assert_eq!(annual.total_rupees, 5000);
    assert!(matches!(
        plan_member_order(None, "MONTHLY", Some(true), true),
        Err(AppError::BadRequest(m)) if m == "Application fee has already been paid for this member"
    ));
    assert!(matches!(plan_member_order(None, "bogus", None, false), Err(AppError::BadRequest(m)) if m == "Invalid membership type"));
    let n = member_order_notes("m1", "MONTHLY", &o, Some("BSDS-2026-0001-00"), "Asha");
    assert_eq!(n.get("isApplicationFee"), Some("true".to_string()));
    assert_eq!(n.get("includesSubscription"), Some("true".to_string()));
    assert_eq!(n.get("includesAnnualFee"), Some("false".to_string()));
    assert_eq!(n.get("userMemberId"), Some("BSDS-2026-0001-00".to_string()));
}

#[test]
fn sponsor_orders() {
    assert_eq!(
        check_sponsor_link_open(true, true),
        Err(AppError::BadRequest("This payment link has expired".to_string()))
    );
    assert_eq!(
        check_sponsor_link_open(false, false),
        Err(AppError::BadRequest("This payment link is no longer active".to_string()))
    );
    assert!(check_sponsor_link_open(true, false).is_ok());
    assert_eq!(sponsor_order_purpose(None, Some("GOLD_SPONSOR".to_string()), "OTHER"), "GOLD_SPONSOR");
    assert_eq!(sponsor_order_purpose(Some("TITLE_SPONSOR".to_string()), Some("X".to_string()), "OTHER"), "TITLE_SPONSOR");
    let n = sponsor_order_notes("tok", "GOLD_SPONSOR", None);
    assert!(is_sponsor_payment(&n));
    assert!(!n.contains_key("sponsorId"));
}

#[test]
fn webhook_steps() {
    assert_eq!(webhook_step("order.paid", None), Ok(WebhookStep::IgnoreEvent));
    assert_eq!(webhook_step("payment.captured", None), Err(AppError::BadRequest("Missing payment payload".to_string())));
    assert_eq!(webhook_step("payment.captured", Some("failed")), Ok(WebhookStep::NotCaptured));
    assert_eq!(webhook_step("payment.captured", Some("captured")), Ok(WebhookStep::Record));
}

#[test]
fn webhook_membership_payments() {
    let n = notes(&[("memberId", "m9"), ("membershipType", "HALF_YEARLY"), ("isApplicationFee", "true"), ("includesSubscription", "true")]);
    assert!(!has_sponsor_notes(&n));
    assert!(parse_note_bool(&n, "isApplicationFee"));
    assert!(!parse_note_bool(&n, "includesAnnualFee"));
    let m = read_membership_notes(&n).unwrap();
    assert_eq!(m.member_id, "m9");
    assert_eq!(m.fee_type, "SUBSCRIPTION");
    let d = webhook_membership_details(&m);
    assert!(d.is_application_fee && d.includes_subscription && !d.includes_annual_fee);
    assert_eq!(d.fee_type.as_deref(), Some("SUBSCRIPTION"));
    assert_eq!(
        read_membership_notes(&notes(&[])).unwrap_err(),
        AppError::BadRequest("Missing memberId in payment notes".to_string())
    );
    assert_eq!(payment_mode_from_method("bank_transfer"), "BANK_TRANSFER");
    assert_eq!(payment_mode_from_method("cash"), "CASH");
    assert_eq!(payment_mode_from_method("wallet"), "UPI");
    assert_eq!(build_membership_purpose("Asha", "ANNUAL_FEE", None), "Annual membership fee \u{2014} Asha");
    assert_eq!(build_membership_purpose("Asha", "SUBSCRIPTION", Some("HALF_YEARLY")), "Half yearly subscription \u{2014} Asha");
    assert_eq!(build_membership_purpose("Asha", "SUBSCRIPTION", None), "Membership subscription \u{2014} Asha");
}

#[test]
fn sponsor_webhook_payments() {
    let payload = RazorpayPaymentPayload {
        razorpay_payment_id: "pay_1".to_string(),
        razorpay_order_id: None,
        amount_paise: 100_000,
        method: "netbanking".to_string(),
        upi_vpa: Some("x@upi".to_string()),
        bank_name: Some("SBI".to_string()),
        sender_bank_account: Some("XX12".to_string()),
        contact: Some("+919830012345".to_string()),
        email: None,
        notes: notes(&[("sponsorPurpose", "FOOD_PARTNER"), ("name", "Ravi")]),
    };
    let rec = plan_sponsor_payment(&payload).unwrap();
    assert_eq!(rec.purpose, "Sponsor payment via Razorpay \u{2014} FOOD PARTNER");
    assert_eq!(rec.payment_mode, "BANK_TRANSFER");
    assert_eq!(rec.sender_name.as_deref(), Some("Ravi"));
    assert!(rec.sender_upi_id.is_none());
    assert_eq!(rec.sender_bank_name.as_deref(), Some("SBI"));
    let mut bad = payload.clone();
    bad.notes = notes(&[("sponsorPurpose", "BOGUS")]);
    let res = plan_sponsor_payment(&bad).unwrap_err();
    assert!(!res.success);
    assert_eq!(res.error.as_deref(), Some("Invalid or missing sponsorPurpose in webhook notes: BOGUS"));
    bad.notes = notes(&[]);
    assert_eq!(
        plan_sponsor_payment(&bad).unwrap_err().error.as_deref(),
        Some("Invalid or missing sponsorPurpose in webhook notes: (none)")
    );
    assert_eq!(to_payment_mode("upi"), "UPI");
}

#[test]
fn profile_completion() {
    assert_eq!(
        validate_profile(&"  ".to_string(), &"+91".to_string(), &"Addr".to_string()),
        Err(AppError::BadRequest("name, phone, and address are required".to_string()))
    );
    assert!(validate_profile(&"A".to_string(), &"P".to_string(), &"Q".to_string()).is_ok());
    let entries = vec![
        SubMemberInput { name: " Ria ".to_string(), email: "r@x.y".to_string(), phone: " 1 ".to_string(), relation: "Sister".to_string() },
        SubMemberInput { name: "".to_string(), email: "skip@x.y".to_string(), phone: String::new(), relation: String::new() },
        SubMemberInput { name: "Dev".to_string(), email: "d@x.y".to_string(), phone: String::new(), relation: "Son".to_string() },
        SubMemberInput { name: "Late".to_string(), email: "l@x.y".to_string(), phone: String::new(), relation: String::new() },
    ];
    let subs = plan_profile_sub_members("BSDS-2026-0007-00", &entries);
    assert_eq!(subs.len(), 2);
    assert_eq!((subs[0].index, subs[0].member_id.as_str(), subs[0].name.as_str()), (1, "BSDS-2026-0007-01", "Ria"));
    assert_eq!(subs[0].phone, "1");
    assert_eq!((subs[1].index, subs[1].member_id.as_str()), (3, "BSDS-2026-0007-03"));
    assert_eq!(
        profile_completed_description(&" Ria ".to_string(), "BSDS-2026-0007-00"),
        "Member Ria (BSDS-2026-0007-00) completed their profile"
    );
}
