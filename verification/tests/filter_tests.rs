use bsds_core::membership_service::{approved_membership_update, plan_approve_membership, ApprovedMembershipUpdate};
use bsds_core::repositories::{activity_entry_conditions, approval_queue_conditions, audit_entry_conditions};
use bsds_core::sql::build_where;

fn some(s: &str) -> Option<String> {
    Some(s.to_string())
}

#[test]
fn approval_queue_defaults_to_pending() {
    let w = build_where(&approval_queue_conditions(&None, &None));
    assert_eq!(w.clause, "a.status = 'PENDING'");
    assert!(w.binds.is_empty());
}

#[test]
fn approval_queue_all_statuses_and_type() {
    let w = build_where(&approval_queue_conditions(&some("ALL"), &some("MEMBERSHIP_PAYMENT_APPROVAL")));
    assert_eq!(w.clause, "a.entity_type = 'TRANSACTION' AND COALESCE(t.category, '') = 'MEMBERSHIP'");
    assert!(w.binds.is_empty());
    let w = build_where(&approval_queue_conditions(&some("APPROVED"), &some("MEMBERSHIP_APPROVAL")));
    assert_eq!(w.clause, "a.status = ?1 AND a.entity_type != 'TRANSACTION'");
    assert_eq!(w.binds, vec!["APPROVED".to_string()]);
    let w = build_where(&approval_queue_conditions(&some("REJECTED"), &some("SOMETHING_ELSE")));
    assert_eq!(w.clause, "a.status = ?1");
}

#[test]
fn audit_entry_filters_cover_whole_days() {
    let w = build_where(&audit_entry_conditions(&None, &some("TRANSACTION_CREATED"), &None, &None, &some("2025-01-01"), &some("2025-01-31")));
    assert_eq!(w.clause, "al.event_type = ?1 AND al.created_at >= ?2 AND al.created_at <= ?3");
    assert_eq!(
        w.binds,
        vec!["TRANSACTION_CREATED".to_string(), "2025-01-01T00:00:00Z".to_string(), "2025-01-31T23:59:59Z".to_string()]
    );
    assert_eq!(build_where(&audit_entry_conditions(&None, &None, &None, &None, &None, &None)).clause, "1=1");
}

#[test]
fn activity_entry_filters() {
    let w = build_where(&activity_entry_conditions(&some("login"), &None, &some("2025-02-01")));
    assert_eq!(w.clause, "al.action = ?1 AND al.created_at <= ?2");
    assert_eq!(w.binds, vec!["login".to_string(), "2025-02-01T23:59:59Z".to_string()]);
}

#[test]
fn approved_membership_updates_by_fee_type() {
    assert_eq!(approved_membership_update("ANNUAL_FEE", true), ApprovedMembershipUpdate::AnnualFee);
    assert_eq!(
        approved_membership_update("SUBSCRIPTION", true),
        ApprovedMembershipUpdate::Subscription { mark_application_fee_paid: true }
    );
    assert_eq!(
        plan_approve_membership("PENDING", "SUBSCRIPTION", false),
        Ok(ApprovedMembershipUpdate::Subscription { mark_application_fee_paid: false })
    );
    assert!(plan_approve_membership("APPROVED", "ANNUAL_FEE", false).is_err());
}
