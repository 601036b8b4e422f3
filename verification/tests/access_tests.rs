use bsds_core::api::{
    cron_access, dashboard_days_left, display_membership_status, in_placeholders, map_sponsor_error,
    receipt_status_for, require_admin, require_at_least, require_staff, role_or_member, sees_club_stats, total_pages,
    AppError,
};
use bsds_core::dates::read_date_prefix;
use bsds_core::permissions::Role;
use bsds_core::razorpay::order_options;
use bsds_core::sponsor_service::SponsorServiceError;
use bsds_core::webhook::PaymentNotes;

#[test]
fn roles_gate_routes() {
    assert_eq!(role_or_member("admin"), Role::Admin);
    assert_eq!(role_or_member("nobody"), Role::Member);
    assert_eq!(require_at_least("OPERATOR", Role::Operator), Ok(Role::Operator));
    assert_eq!(require_at_least("ADMIN", Role::Operator), Ok(Role::Admin));
    assert_eq!(require_at_least("MEMBER", Role::Operator), Err(AppError::Forbidden));
    assert_eq!(require_admin("ADMIN"), Ok(()));
    assert_eq!(require_admin("OPERATOR"), Err(AppError::Forbidden));
    assert_eq!(require_staff("OPERATOR"), Ok(()));
    assert_eq!(require_staff("ORGANISER"), Err(AppError::Forbidden));
    assert_eq!(require_staff("admin"), Err(AppError::Forbidden));
}

#[test]
fn cron_may_start_by_secret_or_admin() {
    assert_eq!(cron_access(Some("s3cret"), Some("s3cret"), None), Ok(()));
    assert_eq!(cron_access(Some("s3cret"), Some("wrong"), None), Err(AppError::Unauthorized));
    assert_eq!(cron_access(Some(""), Some(""), None), Err(AppError::Unauthorized));
    assert_eq!(cron_access(None, None, Some("ADMIN")), Ok(()));
    assert_eq!(cron_access(Some("s3cret"), None, Some("OPERATOR")), Err(AppError::Forbidden));
}

#[test]
fn sponsor_errors_map_to_answers() {
    assert_eq!(map_sponsor_error(SponsorServiceError::SponsorNotFound), AppError::NotFound);
    assert_eq!(map_sponsor_error(SponsorServiceError::LinkNotFound), AppError::NotFound);
    assert_eq!(
        map_sponsor_error(SponsorServiceError::NoFieldsProvided),
        AppError::BadRequest("No fields provided for update".to_string())
    );
}

#[test]
fn dashboard_figures() {
    assert!(sees_club_stats("ORGANISER"));
    assert!(!sees_club_stats("MEMBER"));
    let today = read_date_prefix("2026-03-01").unwrap().unwrap();
    assert_eq!(dashboard_days_left("2026-03-31T00:00:00Z", today), Some(30));
    assert_eq!(dashboard_days_left("2026-03", today), None);
    assert_eq!(dashboard_days_left("yesterday!", today), None);
}

#[test]
fn list_helpers() {
    assert_eq!(display_membership_status(Some("ACTIVE"), true), "ACTIVE");
    assert_eq!(display_membership_status(None, true), "PENDING_PAYMENT");
    assert_eq!(display_membership_status(None, false), "PENDING_APPROVAL");
    assert_eq!(receipt_status_for("REJECTED"), "CANCELLED");
    assert_eq!(receipt_status_for("APPROVED"), "ACTIVE");
    assert_eq!(total_pages(0, 20), 0);
    assert_eq!(total_pages(41, 20), 3);
    assert_eq!(total_pages(40, 20), 2);
    assert_eq!(total_pages(5, 0), 0);
    assert_eq!(in_placeholders(3, ", "), "?1, ?2, ?3");
    assert_eq!(in_placeholders(0, ","), "");
}

#[test]
fn orders_are_in_rupees_with_notes() {
    let mut notes = PaymentNotes::new();
    notes.insert("memberId".to_string(), "m1".to_string());
    let o = order_options(150_000, "rcpt_1".to_string(), notes);
    assert_eq!(o.amount, 150_000);
    assert_eq!(o.currency, "INR");
    assert_eq!(o.receipt, "rcpt_1");
    let entries = o.notes.unwrap().entries();
    assert_eq!(entries, vec![("memberId".to_string(), "m1".to_string())]);
}
