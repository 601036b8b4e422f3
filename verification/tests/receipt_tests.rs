use bsds_core::membership_rules::MembershipType;
use bsds_core::receipt::{
    amount_to_words, build_membership_summary, category_label, is_receipt_eligible, membership_type_label,
    payment_mode_label, sponsor_purpose_label, MembershipDetails,
};
use bsds_core::receipt_service::{member_receipt_lines, next_receipt_number, sponsor_receipt_fields};

#[test]
fn test_amount_to_words_basic() {
    assert_eq!(amount_to_words(1500, 0), "One Thousand Five Hundred Rupees Only");
    assert_eq!(amount_to_words(10000, 0), "Ten Thousand Rupees Only");
}

#[test]
fn test_amount_to_words_lakh_crore() {
    assert_eq!(amount_to_words(250000, 0), "Two Lakh Fifty Thousand Rupees Only");
    assert_eq!(amount_to_words(10000000, 0), "One Crore Rupees Only");
}

#[test]
fn test_amount_to_words_paise() {
    assert_eq!(
        amount_to_words(1250, 50),
        "One Thousand Two Hundred and Fifty Rupees and Fifty Paise Only"
    );
}

#[test]
fn amount_words_only_paise() {
    assert_eq!(amount_to_words(0, 5), "and Five Paise Only");
    assert_eq!(amount_to_words(101, 0), "One Hundred and One Rupees Only");
}

#[test]
fn test_payment_mode_label() {
    assert_eq!(payment_mode_label("UPI"), "UPI");
    assert_eq!(payment_mode_label("BANK_TRANSFER"), "Bank Transfer");
    assert_eq!(payment_mode_label("CASH"), "Cash");
    assert_eq!(payment_mode_label("OTHER"), "OTHER");
}

#[test]
fn test_category_label() {
    assert_eq!(category_label("MEMBERSHIP"), "Membership");
    assert_eq!(category_label("SPONSORSHIP"), "Sponsorship");
}

#[test]
fn test_sponsor_purpose_label() {
    assert_eq!(sponsor_purpose_label(Some("TITLE_SPONSOR")), "Title Sponsor");
    assert_eq!(sponsor_purpose_label(None), "");
    assert_eq!(sponsor_purpose_label(Some("CUSTOM")), "CUSTOM");
}

#[test]
fn test_is_receipt_eligible() {
    assert!(is_receipt_eligible("MEMBERSHIP", "CASH_IN"));
    assert!(is_receipt_eligible("SPONSORSHIP", "CASH_IN"));
    assert!(!is_receipt_eligible("EXPENSE", "CASH_IN"));
    assert!(!is_receipt_eligible("MEMBERSHIP", "CASH_OUT"));
}

#[test]
fn test_build_membership_summary_with_details() {
    let details = MembershipDetails {
        membership_type: Some(MembershipType::Monthly),
        includes_subscription: true,
        includes_annual_fee: true,
        includes_application_fee: false,
        is_application_fee: false,
    };
    let (purpose, items) = build_membership_summary("MEMBERSHIP", 525_000, Some(&details)).unwrap();
    assert_eq!(items.len(), 2);
    assert!(purpose.contains("Annual Membership Fee"));
    assert!(purpose.contains("Monthly Subscription"));
}

#[test]
fn test_build_membership_summary_fallback() {
    let (purpose, items) = build_membership_summary("MEMBERSHIP", 50_000, None).unwrap();
    assert_eq!(purpose, "Membership");
    assert_eq!(items.len(), 1);
    assert_eq!(items[0].amount_paise, 50_000);
}

#[test]
fn test_build_membership_summary_non_membership() {
    assert!(build_membership_summary("SPONSORSHIP", 100_000, None).is_none());
}

#[test]
fn summary_lines_carry_fees_in_paise() {
    let details = MembershipDetails {
        membership_type: Some(MembershipType::HalfYearly),
        includes_subscription: true,
        includes_annual_fee: false,
        includes_application_fee: true,
        is_application_fee: false,
    };
    let (purpose, items) = build_membership_summary("MEMBERSHIP", 0, Some(&details)).unwrap();
    assert_eq!(purpose, "Half-yearly Subscription, Application Fee");
    assert_eq!(items[0].amount_paise, 150_000);
    assert_eq!(items[1].amount_paise, 1_000_000);
    assert_eq!(membership_type_label(MembershipType::Annual), "Annual Subscription");
}

#[test]
fn receipt_numbers_count_up() {
    assert_eq!(next_receipt_number(2026, None), "BSDS-REC-2026-0001");
    assert_eq!(next_receipt_number(2026, Some("BSDS-REC-2026-0041")), "BSDS-REC-2026-0042");
    assert_eq!(next_receipt_number(2026, Some("BSDS-REC-2026-9999")), "BSDS-REC-2026-10000");
    assert_eq!(next_receipt_number(2026, Some("BSDS-REC-2026-x")), "BSDS-REC-2026-0001");
}

#[test]
fn member_receipt_breakdown() {
    let (purpose, lines) = member_receipt_lines(true, true, true, Some("MONTHLY"));
    assert_eq!(purpose, "Application Fee, Annual Membership Fee, Monthly Subscription");
    let amounts: Vec<u64> = lines.iter().map(|l| l.amount).collect();
    assert_eq!(amounts, vec![10000, 5000, 250]);
    let (fallback, none) = member_receipt_lines(false, false, false, None);
    assert_eq!(fallback, "Membership");
    assert!(none.is_empty());
    let (unknown, l) = member_receipt_lines(false, false, true, Some("WEEKLY"));
    assert_eq!(unknown, "Annual Subscription");
    assert_eq!(l[0].amount, 3000);
}

#[test]
fn sponsor_receipt_naming() {
    let f = sponsor_receipt_fields(None, Some("Ravi".to_string()), Some("GOLD_SPONSOR"));
    assert_eq!(f.sponsor_name, "Ravi");
    assert_eq!(f.purpose, "Gold Sponsor");
    assert_eq!(f.sponsor_purpose.as_deref(), Some("Gold Sponsor"));
    let g = sponsor_receipt_fields(Some("Acme".to_string()), Some("Ravi".to_string()), None);
    assert_eq!(g.sponsor_name, "Acme");
    assert_eq!(g.purpose, "Sponsorship");
    assert!(g.sponsor_purpose.is_none());
}
