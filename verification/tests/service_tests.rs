use bsds_core::approval_service::{
    approval_description, approve_step, check_approval_pending, get_approval_activity_action, next_sub_member_slot,
    reject_step, ApprovalServiceError, ApproveStep, RejectStep,
};
use bsds_core::member_service::{
    check_sub_member_capacity, free_sub_member_slot, needs_approval, normalize_email, sub_member_update,
    user_profile_update, validate_new_member, MemberServiceError,
};
use bsds_core::membership_rules::MembershipType;
use bsds_core::membership_service::{
    check_pending, membership_purpose, plan_approve_membership, plan_create_membership, plan_membership_status,
    reminder_days_left, resolve_fee_components, ApprovedMembershipUpdate, CreateMembershipInput, FeeComponents,
    LinkedUserDates, MembershipServiceError, TransactionMembershipDetails,
};
use bsds_core::sponsor_service::{
    check_deletable, check_update_fields, link_expired, sponsor_created_description, sponsor_purpose_label,
    SponsorServiceError, UpdateSponsorInput,
};
use bsds_core::transaction_service::{
    check_reject_transaction, plan_create_transaction, update_transaction, MembershipFlags, RequestedBy,
    TransactionServiceError,
};

fn input(t: &str, rupees: u64) -> CreateMembershipInput {
    CreateMembershipInput {
        member_id: "m1".to_string(),
        membership_type: t.to_string(),
        amount_paise: rupees * 100,
        fee_type: None,
        is_application_fee: None,
        includes_subscription: None,
        includes_annual_fee: None,
    }
}

#[test]
fn fee_components_from_flags_and_fee_type() {
    let annual_only = resolve_fee_components(Some("ANNUAL_FEE"), None, None, Some(true));
    assert_eq!(annual_only, FeeComponents { includes_annual_fee: true, includes_subscription: false, is_application_fee: false });
    let sub = resolve_fee_components(None, None, None, Some(true));
    assert_eq!(sub, FeeComponents { includes_annual_fee: false, includes_subscription: true, is_application_fee: true });
    let both = resolve_fee_components(Some("ANNUAL_FEE"), None, Some(true), None);
    assert_eq!(both, FeeComponents { includes_annual_fee: true, includes_subscription: true, is_application_fee: false });
}

#[test]
fn membership_plan_for_operator_and_admin() {
    let plan = plan_create_membership(&input("MONTHLY", 250), Some(false), "Asha", "OPERATOR").unwrap();
    assert!(plan.is_pending);
    assert_eq!(plan.approval_status, "PENDING");
    assert_eq!(plan.purpose, "Monthly subscription \u{2014} Asha");
    assert_eq!(plan.effective_fee_type, "SUBSCRIPTION");
    assert_eq!(plan.result_action, "pending_approval");
    let mut data = input("HALF_YEARLY", 5000 + 1500 + 10000);
    data.includes_annual_fee = Some(true);
    data.includes_subscription = Some(true);
    data.is_application_fee = Some(true);
    let plan = plan_create_membership(&data, Some(false), "Asha", "ADMIN").unwrap();
    assert!(!plan.is_pending);
    assert_eq!(plan.purpose, "Annual membership fee + Half_yearly subscription + application fee \u{2014} Asha");
    assert_eq!(plan.expected_amount, 16500);
    assert_eq!(plan.activity_action, "transaction_created");
}

#[test]
fn membership_plan_errors() {
    let mut app = input("MONTHLY", 10250);
    app.is_application_fee = Some(true);
    assert_eq!(plan_create_membership(&app, None, "A", "ADMIN").unwrap_err(), MembershipServiceError::NoLinkedUser);
    assert_eq!(
        plan_create_membership(&app, Some(true), "A", "ADMIN").unwrap_err(),
        MembershipServiceError::ApplicationFeeAlreadyPaid
    );
    assert_eq!(
        plan_create_membership(&input("WEEKLY", 1), Some(false), "A", "ADMIN").unwrap_err(),
        MembershipServiceError::Validation("Invalid membership type: WEEKLY".to_string())
    );
    let mut none = input("MONTHLY", 0);
    none.includes_subscription = Some(false);
    assert_eq!(
        plan_create_membership(&none, Some(false), "A", "ADMIN").unwrap_err(),
        MembershipServiceError::Validation("No fee components selected".to_string())
    );
    assert_eq!(
        plan_create_membership(&input("ANNUAL", 2999), Some(false), "A", "ADMIN").unwrap_err().message(),
        "Amount must be exactly \u{20b9}3000 for the selected fee components"
    );
}

#[test]
fn membership_purpose_text() {
    let c = FeeComponents { includes_annual_fee: true, includes_subscription: false, is_application_fee: false };
    assert_eq!(membership_purpose(c, MembershipType::Monthly, "Bikash"), "Annual membership fee \u{2014} Bikash");
}

#[test]
fn membership_status_plan_grants_periods() {
    let details = TransactionMembershipDetails {
        membership_type: Some("MONTHLY".to_string()),
        fee_type: Some("SUBSCRIPTION".to_string()),
        is_application_fee: true,
        includes_subscription: true,
        includes_annual_fee: true,
        includes_application_fee: false,
    };
    let user = LinkedUserDates { annual_fee_expiry: Some(1000), membership_expiry: None, application_fee_paid: false };
    let plan = plan_membership_status("MEMBERSHIP", &details, Some(user), 990);
    assert!(plan.count_payment);
    let annual = plan.annual.unwrap();
    assert_eq!((annual.start_date, annual.end_date), (1001, 1365));
    let sub = plan.subscription.unwrap();
    assert_eq!(sub.membership_type, MembershipType::Monthly);
    assert_eq!((sub.dates.start_date, sub.dates.end_date), (990, 1019));
    assert!(sub.mark_application_fee_paid);
    let other = plan_membership_status("SPONSORSHIP", &details, Some(user), 990);
    assert!(!other.count_payment && other.annual.is_none() && other.subscription.is_none());
}

#[test]
fn membership_approval_updates() {
    assert_eq!(plan_approve_membership("PENDING", "ANNUAL_FEE", true), Ok(ApprovedMembershipUpdate::AnnualFee));
    assert_eq!(
        plan_approve_membership("PENDING", "SUBSCRIPTION", true),
        Ok(ApprovedMembershipUpdate::Subscription { mark_application_fee_paid: true })
    );
    assert_eq!(
        plan_approve_membership("APPROVED", "SUBSCRIPTION", false),
        Err(MembershipServiceError::AlreadyProcessed("APPROVED".to_string()))
    );
    assert!(check_pending("PENDING").is_ok());
    assert_eq!(reminder_days_left(110, 100), Some(10));
    assert_eq!(reminder_days_left(99, 100), None);
}

#[test]
fn approval_dispatch() {
    assert_eq!(approve_step("MEMBER_ADD", "add_sub_member"), Ok(ApproveStep::AddMember { sub_member: true }));
    assert_eq!(approve_step("TRANSACTION", "add_transaction"), Ok(ApproveStep::ApproveTransaction));
    assert_eq!(approve_step("SPONSOR", "x"), Err(ApprovalServiceError::UnknownEntityType("SPONSOR".to_string())));
    assert_eq!(reject_step("MEMBER_ADD", "add_member"), RejectStep::DeletePlaceholderMember);
    assert_eq!(reject_step("MEMBER_ADD", "add_sub_member"), RejectStep::Discard);
    assert_eq!(check_approval_pending("APPROVED"), Err(ApprovalServiceError::AlreadyProcessed("approved".to_string())));
    assert_eq!(get_approval_activity_action("MEMBER_DELETE", "remove_sub_member", "approved"), "sub_member_remove_approved");
    assert_eq!(get_approval_activity_action("OTHER", "x", "rejected"), "approval_rejected");
    assert_eq!(
        approval_description("approved", "Ria", "TRANSACTION", "tx9", "add_transaction"),
        "Admin Ria approved transaction tx9 (add_transaction)"
    );
    assert_eq!(
        approval_description("rejected", "Ria", "MEMBER_EDIT", "m1", "edit_member"),
        "Admin Ria rejected MEMBER_EDIT request (edit_member)"
    );
    let full = vec!["A-1".to_string(), "A-2".to_string(), "A-3".to_string()];
    assert_eq!(
        next_sub_member_slot(&full).unwrap_err().message(),
        "Maximum of 3 sub-members already reached"
    );
}

#[test]
fn member_checks() {
    assert_eq!(
        validate_new_member("Asha", "+919830012345", "  Asha@Example.COM ", "Kolkata").unwrap(),
        "asha@example.com"
    );
    assert_eq!(
        validate_new_member("", "+919830012345", "a@b.c", "x").unwrap_err(),
        MemberServiceError::Validation("Name is required".to_string())
    );
    assert_eq!(
        validate_new_member("A", "123", "a@b.c", "x").unwrap_err(),
        MemberServiceError::Validation("Phone must be in +91XXXXXXXXXX format".to_string())
    );
    assert_eq!(
        validate_new_member("A", "+919830012345", "a@b.c", "").unwrap_err(),
        MemberServiceError::Validation("address is required".to_string())
    );
    assert_eq!(normalize_email(" X@Y.Z "), "x@y.z");
    assert_eq!(check_sub_member_capacity(3), Err(MemberServiceError::MaxSubMembers));
    assert!(check_sub_member_capacity(2).is_ok());
    assert_eq!(free_sub_member_slot(&vec!["B-2026-0001-01".to_string()]), Ok(2));
    assert!(needs_approval("OPERATOR") && !needs_approval("ADMIN"));
}

#[test]
fn profile_update_statements() {
    let u = user_profile_update(Some("Ann".to_string()), None, Some("+91".to_string()), None).unwrap();
    assert_eq!(
        u.sql,
        "UPDATE users SET name = ?1, phone = ?2, updated_at = strftime('%Y-%m-%dT%H:%M:%SZ','now') WHERE id = ?3"
    );
    assert_eq!(u.binds, vec!["Ann".to_string(), "+91".to_string()]);
    assert!(user_profile_update(None, None, None, None).is_none());
    let s = sub_member_update(None, Some("e@x.y".to_string()), None, None, Some(false)).unwrap();
    assert_eq!(s.sql, "UPDATE sub_members SET email = ?1, can_login = ?2 WHERE id = ?3");
    assert_eq!(s.binds, vec!["e@x.y".to_string(), "0".to_string()]);
}

#[test]
fn transaction_rules() {
    let flags = MembershipFlags { is_application_fee: Some(true), includes_subscription: Some(true), ..Default::default() };
    let p = plan_create_transaction("OPERATOR", "MEMBERSHIP", true, Some("ANNUAL".to_string()), None, flags);
    assert!(p.is_pending && !p.apply_membership_now && p.includes_application_fee);
    assert_eq!(p.activity_action, "transaction_requested");
    let a = plan_create_transaction("ADMIN", "MEMBERSHIP", true, None, None, MembershipFlags::default());
    assert!(!a.is_pending && a.apply_membership_now && a.audit_approved);
    assert_eq!(check_reject_transaction("OPERATOR", Some("PENDING")), Err(TransactionServiceError::Forbidden));
    assert_eq!(check_reject_transaction("ADMIN", None), Err(TransactionServiceError::NotFound));
    assert_eq!(check_reject_transaction("ADMIN", Some("REJECTED")), Err(TransactionServiceError::AlreadyRejected));
    assert!(check_reject_transaction("ADMIN", Some("APPROVED")).is_ok());
    let who = RequestedBy { id: "u".to_string(), role: "ADMIN".to_string(), name: "N".to_string() };
    assert_eq!(update_transaction("t", &who), Err(TransactionServiceError::Immutable));
}

#[test]
fn sponsor_rules() {
    assert_eq!(sponsor_purpose_label("STALL_VENDOR"), "Stall Vendor");
    assert_eq!(sponsor_purpose_label("OTHER"), "OTHER");
    assert_eq!(check_update_fields(&UpdateSponsorInput::default()), Err(SponsorServiceError::NoFieldsProvided));
    let clear_company = UpdateSponsorInput { company: Some(None), ..Default::default() };
    assert!(check_update_fields(&clear_company).is_ok());
    assert_eq!(check_deletable(1), Err(SponsorServiceError::HasTransactions));
    assert!(link_expired(Some("2026-01-01T00:00:00Z"), "2026-06-01T00:00:00Z"));
    assert!(!link_expired(Some("2027-01-01T00:00:00Z"), "2026-06-01T00:00:00Z"));
    assert!(!link_expired(None, "2026-06-01T00:00:00Z"));
    assert_eq!(sponsor_created_description("Ria", "Acme", Some("Acme Ltd")), "Ria created sponsor: Acme (Acme Ltd)");
}

#[test]
fn partial_rupee_membership_payment_is_refused() {
    let mut data = input("MONTHLY", 0);
    data.amount_paise = 25_050;
    data.is_application_fee = Some(false);
    data.includes_subscription = Some(true);
    data.includes_annual_fee = Some(false);
    let e = plan_create_membership(&data, Some(false), "A", "ADMIN").unwrap_err();
    assert!(matches!(e, MembershipServiceError::Validation(_)));
    data.amount_paise = 25_000;
    assert!(plan_create_membership(&data, Some(false), "A", "ADMIN").is_ok());
}
