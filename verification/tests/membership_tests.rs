use bsds_core::dates::{day_text, read_date_prefix, read_stored_date};
use bsds_core::membership_rules::{
    calculate_annual_fee_dates, calculate_membership_dates, membership_duration_days, membership_fee,
    validate_annual_fee_amount, validate_membership_amount, MembershipType,
};

fn day(text: &str) -> i32 {
    read_stored_date(text).unwrap().unwrap()
}

#[test]
fn test_membership_fees() {
    assert_eq!(membership_fee(MembershipType::Monthly), 250);
    assert_eq!(membership_fee(MembershipType::HalfYearly), 1500);
    assert_eq!(membership_fee(MembershipType::Annual), 3000);
}

#[test]
fn membership_durations() {
    assert_eq!(membership_duration_days(MembershipType::Monthly), 30);
    assert_eq!(membership_duration_days(MembershipType::HalfYearly), 180);
    assert_eq!(membership_duration_days(MembershipType::Annual), 365);
}

#[test]
fn test_calculate_membership_dates_no_expiry() {
    let today = day("2026-03-01");
    let range = calculate_membership_dates(MembershipType::Monthly, None, today);
    assert_eq!(range.start_date, today);
    assert_eq!(range.end_date, day("2026-03-30"));
}

#[test]
fn test_calculate_membership_dates_active_expiry() {
    let today = day("2026-03-01");
    let expiry = day("2026-03-15");
    let range = calculate_membership_dates(MembershipType::Monthly, Some(expiry), today);
    assert_eq!(range.start_date, day("2026-03-16"));
}

#[test]
fn test_calculate_membership_dates_expired() {
    let today = day("2026-03-01");
    let expiry = day("2026-02-15");
    let range = calculate_membership_dates(MembershipType::Monthly, Some(expiry), today);
    assert_eq!(range.start_date, today);
}

#[test]
fn annual_fee_dates_follow_current_period() {
    let today = day("2026-03-01");
    let r = calculate_annual_fee_dates(Some(day("2026-12-31")), today);
    assert_eq!(day_text(r.start_date), "2027-01-01");
    assert_eq!(day_text(r.end_date), "2027-12-31");
    let fresh = calculate_annual_fee_dates(None, today);
    assert_eq!(fresh.start_date, today);
    assert_eq!(day_text(fresh.end_date), "2027-02-28");
}

#[test]
fn renewals_are_back_to_back() {
    let today = day("2026-01-10");
    let first = calculate_membership_dates(MembershipType::HalfYearly, None, today);
    let second = calculate_membership_dates(MembershipType::Monthly, Some(first.end_date), day("2026-05-01"));
    assert_eq!(second.start_date, first.end_date + 1);
}

#[test]
fn stored_dates_are_read() {
    assert_eq!(read_stored_date("2026-03-15T10:20:30Z"), Some(Some(day("2026-03-15"))));
    assert_eq!(read_stored_date("garbage!!!!"), Some(None));
    assert_eq!(read_stored_date("short"), None);
    assert_eq!(read_date_prefix("2026-03-15 extra"), Some(Some(day("2026-03-15"))));
    assert_eq!(read_date_prefix("2026"), None);
}

#[test]
fn test_validate_membership_amount_ok() {
    assert!(validate_membership_amount(MembershipType::Monthly, 250, false).is_none());
}

#[test]
fn test_validate_membership_amount_with_application() {
    assert!(validate_membership_amount(MembershipType::Monthly, 10250, true).is_none());
    assert!(validate_membership_amount(MembershipType::Monthly, 250, true).is_some());
}

#[test]
fn membership_amount_messages() {
    assert_eq!(
        validate_membership_amount(MembershipType::Monthly, 100, false).unwrap(),
        "Amount must be exactly \u{20b9}250 for MONTHLY membership. No partial payments allowed."
    );
    assert_eq!(
        validate_membership_amount(MembershipType::Annual, 100, true).unwrap(),
        "Amount must be exactly \u{20b9}13000 (\u{20b9}10000 application fee + \u{20b9}3000 membership fee) for ANNUAL membership"
    );
}

#[test]
fn test_validate_annual_fee() {
    assert!(validate_annual_fee_amount(5000).is_none());
    assert!(validate_annual_fee_amount(4999).is_some());
    assert_eq!(validate_annual_fee_amount(1).unwrap(), "Annual membership fee must be exactly \u{20b9}5000");
}

#[test]
fn test_membership_type_roundtrip() {
    for t in [MembershipType::Monthly, MembershipType::HalfYearly, MembershipType::Annual] {
        assert_eq!(MembershipType::from_str_label(t.as_str()), Some(t));
    }
    assert_eq!(MembershipType::from_str_label("monthly"), None);
}
